//! What the ten-symbol rendering of a mode is.
//!
//! Position 0 tells a directory from everything else. Positions 1 to 9 are
//! the owner's, the group's and the others' `rwx` triples. The set-group-id
//! bit takes over position 6; the sticky bit and the set-user-id bit both
//! take over position 9, and where both are set the set-user-id bit wins.

use vstd::prelude::*;
use crate::constants::{
    S_IFDIR, S_IFMT, S_IRGRP, S_IROTH, S_IRUSR, S_ISGID, S_ISUID, S_ISVTX, S_IWGRP, S_IWOTH,
    S_IWUSR, S_IXGRP, S_IXOTH, S_IXUSR,
};

verus! {

/// Whether `mode` has a bit of `mask` set.
pub open spec fn has_bit(mode: u32, mask: u32) -> bool {
    mode & mask != 0
}

/// The mode without its file-type field.
pub open spec fn perm_bits(mode: u32) -> u32 {
    mode & !S_IFMT
}

/// The file-type field of the mode.
pub open spec fn type_bits(mode: u32) -> u32 {
    mode & S_IFMT
}

/// The permission bit that slot `slot` shows: slots 0 to 2 are the owner's
/// read, write and execute, 3 to 5 the group's, 6 to 8 those of others.
pub open spec fn slot_mask(slot: int) -> u32 {
    if slot == 0 {
        S_IRUSR
    } else if slot == 1 {
        S_IWUSR
    } else if slot == 2 {
        S_IXUSR
    } else if slot == 3 {
        S_IRGRP
    } else if slot == 4 {
        S_IWGRP
    } else if slot == 5 {
        S_IXGRP
    } else if slot == 6 {
        S_IROTH
    } else if slot == 7 {
        S_IWOTH
    } else {
        S_IXOTH
    }
}

/// The letter that slot `slot` shows when its bit is set.
pub open spec fn slot_letter(slot: int) -> char {
    if slot % 3 == 0 {
        'r'
    } else if slot % 3 == 1 {
        'w'
    } else {
        'x'
    }
}

/// What slot `slot` shows when no special bit interferes.
pub open spec fn plain_symbol(mode: u32, slot: int) -> char {
    if has_bit(mode, slot_mask(slot)) {
        slot_letter(slot)
    } else {
        '-'
    }
}

/// Position 0: `d` for a mode with the directory bit, `-` otherwise.
pub open spec fn type_symbol(mode: u32) -> char {
    if has_bit(mode, S_IFDIR) {
        'd'
    } else {
        '-'
    }
}

/// Position 6, the group's execute slot: with set-group-id it is `s` over
/// an `x` and `l` over a `-`.
pub open spec fn group_exec_symbol(mode: u32) -> char {
    if has_bit(mode, S_ISGID) {
        if has_bit(mode, S_IXGRP) {
            's'
        } else {
            'l'
        }
    } else {
        plain_symbol(mode, 5)
    }
}

/// Position 9, the others' execute slot. The sticky bit turns `x` into `t`
/// and `-` into `T`. Set-user-id is applied after it and sees its result:
/// `s` over anything but `-`, `S` over `-`.
pub open spec fn other_exec_symbol(mode: u32) -> char {
    if has_bit(mode, S_ISUID) {
        if has_bit(mode, S_IXOTH) || has_bit(mode, S_ISVTX) {
            's'
        } else {
            'S'
        }
    } else if has_bit(mode, S_ISVTX) {
        if has_bit(mode, S_IXOTH) {
            't'
        } else {
            'T'
        }
    } else {
        plain_symbol(mode, 8)
    }
}

/// The symbol at position `pos` of the rendering of `mode`.
pub open spec fn symbol_at(mode: u32, pos: int) -> char {
    if pos == 0 {
        type_symbol(mode)
    } else if pos == 6 {
        group_exec_symbol(mode)
    } else if pos == 9 {
        other_exec_symbol(mode)
    } else {
        plain_symbol(mode, pos - 1)
    }
}

/// The rendering of `mode`: ten symbols.
pub open spec fn symbolic(mode: u32) -> Seq<char> {
    Seq::new(10, |pos: int| symbol_at(mode, pos))
}

/// The alphabet of a rendering.
pub open spec fn is_symbol(c: char) -> bool {
    c == '-' || c == 'd' || c == 'r' || c == 'w' || c == 'x' || c == 's' || c == 'S' || c == 't'
        || c == 'T' || c == 'l'
}

/// Every rendering has ten symbols, each of them from the alphabet
/// `- d r w x s S t T l`.
pub proof fn lemma_symbolic_alphabet(mode: u32)
    ensures
        symbolic(mode).len() == 10,
        forall|pos: int| 0 <= pos < 10 ==> is_symbol(#[trigger] symbolic(mode)[pos]),
{
}

/// Position 0 of a rendering is `d` where the mode has the directory bit and
/// `-` where it has not.
pub proof fn lemma_symbolic_directory(mode: u32)
    ensures
        mode & S_IFDIR != 0 ==> symbolic(mode)[0] == 'd',
        mode & S_IFDIR == 0 ==> symbolic(mode)[0] == '-',
{
}

/// The rendering reads thirteen bits of a mode and no other: the directory
/// bit and the twelve permission and special bits. Two modes that agree on
/// these render alike.
pub proof fn lemma_symbolic_reads_thirteen_bits(first: u32, second: u32)
    requires
        first & 0o47777 == second & 0o47777,
    ensures
        symbolic(first) == symbolic(second),
{
    assert(first & S_IRUSR == second & S_IRUSR && first & S_IWUSR == second & S_IWUSR && first
        & S_IXUSR == second & S_IXUSR && first & S_IRGRP == second & S_IRGRP && first & S_IWGRP
        == second & S_IWGRP && first & S_IXGRP == second & S_IXGRP && first & S_IROTH == second
        & S_IROTH && first & S_IWOTH == second & S_IWOTH && first & S_IXOTH == second & S_IXOTH
        && first & S_ISVTX == second & S_ISVTX && first & S_ISGID == second & S_ISGID && first
        & S_ISUID == second & S_ISUID && first & S_IFDIR == second & S_IFDIR) by (bit_vector)
        requires
            first & 0o47777u32 == second & 0o47777u32,
    ;
    assert forall|pos: int| 0 <= pos < 10 implies symbol_at(first, pos) == symbol_at(
        second,
        pos,
    ) by {}
    assert(symbolic(first) =~= symbolic(second));
}

/// The rendering reads nothing above the file-type field: two modes that
/// agree on their low sixteen bits, the file-type field and the twelve bits
/// below it, render alike.
pub proof fn lemma_symbolic_ignores_high_bits(first: u32, second: u32)
    requires
        first & 0o177777 == second & 0o177777,
    ensures
        symbolic(first) == symbolic(second),
{
    assert(first & 0o47777u32 == second & 0o47777u32) by (bit_vector)
        requires
            first & 0o177777u32 == second & 0o177777u32,
    ;
    lemma_symbolic_reads_thirteen_bits(first, second);
}

/// Masking a mode with `0o17777` keeps its rendering, provided the mode has
/// no directory bit. The mask keeps the twelve permission and special bits
/// but not the directory bit, so a directory's `d` would be lost by it.
pub proof fn lemma_symbolic_of_masked(mode: u32)
    requires
        mode & S_IFDIR == 0,
    ensures
        symbolic(mode & 0o17777) == symbolic(mode),
{
    assert((mode & 0o17777u32) & 0o47777u32 == mode & 0o47777u32) by (bit_vector)
        requires
            mode & S_IFDIR == 0,
    ;
    lemma_symbolic_reads_thirteen_bits(mode & 0o17777, mode);
}

/// The permission bits and the file-type field split a mode in two: put
/// together they give the mode back, and they share no bit.
pub proof fn lemma_fields_partition(mode: u32)
    ensures
        perm_bits(mode) | type_bits(mode) == mode,
        perm_bits(mode) & type_bits(mode) == 0,
{
    assert((mode & !S_IFMT) | (mode & S_IFMT) == mode && (mode & !S_IFMT) & (mode & S_IFMT) == 0)
        by (bit_vector);
}

} // verus!
