//! The permission view: everything the crate can say of a mode, offered as
//! methods on whatever carries one.

use vstd::prelude::*;
use ascii::AsciiString;
use crate::ascii_text::ascii_chars;
use crate::constants::{S_IFDIR, S_IFLNK, S_IFREG, S_ISGID, S_ISUID, S_ISVTX};
use crate::octal::{is_octal_text, octal_string, octal_text, octal_text_value};
use crate::perms::{file_perms, pretty_perms};
use crate::symbolic::{has_bit, perm_bits, symbolic};

verus! {

/// A value that carries a Unix file mode.
///
/// An implementor says what its mode is; every other method is derived from
/// that one. The raw `u32` is its own mode.
pub trait ExtendedPerms {
    /// The mode that this value carries.
    spec fn spec_mode(&self) -> u32;

    /// The mode that this value carries.
    fn mode(&self) -> (mode: u32)
        ensures
            mode == self.spec_mode(),
    ;

    /// get sticky, user, group, other as a u32
    fn sugo(&self) -> (bits: u32)
        ensures
            bits == perm_bits(self.spec_mode()),
    {
        file_perms(self.mode())
    }

    /// retrieve the 10 character ascii representation
    /// of the permissions.
    ///
    /// In General, the last 9 characters are self explanatory.
    /// They appear in clusters of 3, whose values may be:
    /// - `r` for read
    /// - `w` for write
    /// - `x` for execute
    /// - `-` indicating the permission is not set
    ///
    /// # Example
    ///
    /// `-rwxr---w-`  indicates that the owner has read, write, and execute
    /// permissions. The group has read permissions, and others have write
    /// permissions (a particularly bad configuration mind you, but good
    /// for illustration)
    fn to_ascii(&self) -> (text: AsciiString)
        ensures
            ascii_chars(text) == symbolic(self.spec_mode()),
    {
        pretty_perms(self.mode())
    }

    /// The permission bits as an octal numeral with the `0o` prefix.
    fn to_oct_string(&self) -> (text: String)
        ensures
            text@ == octal_text(perm_bits(self.spec_mode()) as nat),
            is_octal_text(text@),
            octal_text_value(text@) == perm_bits(self.spec_mode()),
    {
        octal_string(self.sugo())
    }

    /// Whether the mode shares a bit with `S_IFREG`.
    fn is_file(&self) -> (yes: bool)
        ensures
            yes == has_bit(self.spec_mode(), S_IFREG),
    {
        self.mode() & S_IFREG > 0
    }

    /// Whether the mode has the directory bit, `S_IFDIR`.
    fn is_dir(&self) -> (yes: bool)
        ensures
            yes == has_bit(self.spec_mode(), S_IFDIR),
    {
        self.mode() & S_IFDIR > 0
    }

    /// Whether the mode shares a bit with `S_IFLNK`.
    fn is_link(&self) -> (yes: bool)
        ensures
            yes == has_bit(self.spec_mode(), S_IFLNK),
    {
        self.mode() & S_IFLNK > 0
    }

    /// Whether the sticky bit is set.
    fn is_sticky(&self) -> (yes: bool)
        ensures
            yes == has_bit(self.spec_mode(), S_ISVTX),
    {
        self.mode() & S_ISVTX > 0
    }

    /// Is the Set Group ID set? If so, the executable will run
    /// under its group as opposed to the executor's group.
    fn is_sgid(&self) -> (yes: bool)
        ensures
            yes == has_bit(self.spec_mode(), S_ISGID),
    {
        self.mode() & S_ISGID > 0
    }

    /// Is the Set owner User ID upon execution set? If true,
    /// the command (if it is a command) will run as the owner's
    /// id instead of the user.
    fn is_suid(&self) -> (yes: bool)
        ensures
            yes == has_bit(self.spec_mode(), S_ISUID),
    {
        self.mode() & S_ISUID > 0
    }
}

impl ExtendedPerms for u32 {
    open spec fn spec_mode(&self) -> u32 {
        *self
    }

    fn mode(&self) -> (mode: u32) {
        *self
    }
}

} // verus!
