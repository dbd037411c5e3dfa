//! Splitting a mode into its fields and rendering it as ten symbols.

use vstd::prelude::*;
use ascii::AsciiString;
use crate::ascii_text::{ascii_chars, char_at, from_ascii, set_char};
use crate::constants::{
    S_IFDIR, S_IFMT, S_IRGRP, S_IROTH, S_IRUSR, S_ISGID, S_ISUID, S_ISVTX, S_IWGRP, S_IWOTH,
    S_IWUSR, S_IXGRP, S_IXOTH, S_IXUSR,
};
use crate::symbolic::{
    has_bit, is_symbol, perm_bits, plain_symbol, slot_letter, slot_mask, symbolic, type_bits,
};

verus! {

/// Dropping the file-type field changes none of the permission bits, nor
/// the set-group-id and set-user-id bits.
proof fn lemma_perm_bits_keep_flags(mode: u32)
    ensures
        forall|slot: int|
            0 <= slot < 9 ==> has_bit(perm_bits(mode), #[trigger] slot_mask(slot)) == has_bit(
                mode,
                slot_mask(slot),
            ),
        has_bit(perm_bits(mode), S_ISGID) == has_bit(mode, S_ISGID),
        has_bit(perm_bits(mode), S_ISUID) == has_bit(mode, S_ISUID),
{
    let kept = mode & !S_IFMT;
    assert(kept & S_IRUSR == mode & S_IRUSR && kept & S_IWUSR == mode & S_IWUSR && kept & S_IXUSR
        == mode & S_IXUSR && kept & S_IRGRP == mode & S_IRGRP && kept & S_IWGRP == mode & S_IWGRP
        && kept & S_IXGRP == mode & S_IXGRP && kept & S_IROTH == mode & S_IROTH && kept & S_IWOTH
        == mode & S_IWOTH && kept & S_IXOTH == mode & S_IXOTH && kept & S_ISGID == mode & S_ISGID
        && kept & S_ISUID == mode & S_ISUID) by (bit_vector)
        requires
            kept == mode & !S_IFMT,
    ;
}

/// The permission bit shown in slot `slot`.
fn permission_mask(slot: usize) -> (mask: u32)
    requires
        slot < 9,
    ensures
        mask == slot_mask(slot as int),
{
    if slot == 0 {
        S_IRUSR
    } else if slot == 1 {
        S_IWUSR
    } else if slot == 2 {
        S_IXUSR
    } else if slot == 3 {
        S_IRGRP
    } else if slot == 4 {
        S_IWGRP
    } else if slot == 5 {
        S_IXGRP
    } else if slot == 6 {
        S_IROTH
    } else if slot == 7 {
        S_IWOTH
    } else {
        S_IXOTH
    }
}

/// The letter shown in slot `slot` when its bit is set.
fn permission_letter(slot: usize) -> (letter: char)
    ensures
        letter == slot_letter(slot as int),
{
    if slot % 3 == 0 {
        'r'
    } else if slot % 3 == 1 {
        'w'
    } else {
        'x'
    }
}

/// Given st_mode, return an ascii representation of the file
/// permissions, as one might get on the command line via, say,
/// `ls -l`.
///
/// The result holds exactly the ten symbols of [`symbolic`]. Only a set
/// directory bit shows at position 0. The sticky bit is shown at position 9
/// whether or not the mode is a directory's, and set-user-id, applied after
/// it, is shown there as well.
pub fn pretty_perms(val: u32) -> (out: AsciiString)
    ensures
        ascii_chars(out) == symbolic(val),
        ascii_chars(out).len() == 10,
        forall|pos: int| 0 <= pos < 10 ==> is_symbol(#[trigger] ascii_chars(out)[pos]),
        ascii_chars(out)[0] == (if val & S_IFDIR != 0 { 'd' } else { '-' }),
{
    let is_dir = val & S_IFDIR > 0;
    let is_sticky = val & S_ISVTX > 0;
    let bits = file_perms(val);
    proof {
        reveal_strlit("----------");
        lemma_perm_bits_keep_flags(val);
    }
    let mut out = from_ascii("----------").unwrap();
    let mut slot: usize = 0;
    while slot < 9
        invariant
            slot <= 9,
            bits == perm_bits(val),
            forall|s: int|
                0 <= s < 9 ==> has_bit(bits, #[trigger] slot_mask(s)) == has_bit(val, slot_mask(s)),
            ascii_chars(out) =~= Seq::new(
                10,
                |pos: int| if 1 <= pos <= slot { plain_symbol(val, pos - 1) } else { '-' },
            ),
        decreases 9 - slot,
    {
        if bits & permission_mask(slot) > 0 {
            set_char(&mut out, slot + 1, permission_letter(slot));
        }
        slot += 1;
    }
    if is_dir {
        set_char(&mut out, 0, 'd');
    }
    if is_sticky {
        let shown = if char_at(&out, 9) == '-' { 'T' } else { 't' };
        set_char(&mut out, 9, shown);
    }
    if bits & S_ISGID > 0 {
        let shown = if char_at(&out, 6) == '-' { 'l' } else { 's' };
        set_char(&mut out, 6, shown);
    }
    if bits & S_ISUID > 0 {
        let shown = if char_at(&out, 9) == '-' { 'S' } else { 's' };
        set_char(&mut out, 9, shown);
    }
    assert(ascii_chars(out) =~= symbolic(val));
    out
}

/// Get the bits involved in determining the file permissions.
/// That would be sticky/sgid/suid and owner, group, other bits.
/// Bits above the file-type field are kept as they are.
pub fn file_perms(input: u32) -> (bits: u32)
    ensures
        bits == perm_bits(input),
        bits == input & !S_IFMT,
{
    input & !S_IFMT
}

/// Get the bits involved in determining file type.
pub fn file_type(input: u32) -> (bits: u32)
    ensures
        bits == type_bits(input),
        bits == input & S_IFMT,
{
    input & S_IFMT
}

/// Rendering is a function of the mode: whatever two calls of
/// [`pretty_perms`] on one mode return, the two results hold the same
/// symbols.
pub proof fn lemma_pretty_perms_deterministic(
    mode: u32,
    first: AsciiString,
    second: AsciiString,
)
    requires
        ascii_chars(first) == symbolic(mode),
        ascii_chars(second) == symbolic(mode),
    ensures
        ascii_chars(first) == ascii_chars(second),
{
}

} // verus!
