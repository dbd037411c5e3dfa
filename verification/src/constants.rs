//! The bit masks of a Unix file mode.

use vstd::prelude::*;

verus! {

/// Mask of the file-type field.
pub const S_IFMT: u32 = 0o0170000;

/// Named pipe (fifo).
pub const S_IFIFO: u32 = 0o0010000;

/// Character special.
pub const S_IFCHR: u32 = 0o0020000;

/// Directory.
pub const S_IFDIR: u32 = 0o0040000;

/// Block special.
pub const S_IFBLK: u32 = 0o0060000;

/// Regular file.
pub const S_IFREG: u32 = 0o0100000;

/// Symbolic link.
pub const S_IFLNK: u32 = 0o0120000;

/// Socket.
pub const S_IFSOCK: u32 = 0o0140000;

/// Whiteout.
pub const S_IFWHT: u32 = 0o0160000;

/// Set user id on execution.
pub const S_ISUID: u32 = 0o0004000;

/// Set group id on execution.
pub const S_ISGID: u32 = 0o0002000;

/// Sticky bit.
pub const S_ISVTX: u32 = 0o0001000;

/// Read permission, owner.
pub const S_IRUSR: u32 = 0o0000400;

/// Write permission, owner.
pub const S_IWUSR: u32 = 0o0000200;

/// Execute/search permission, owner.
pub const S_IXUSR: u32 = 0o0000100;

/// Mask for the group's permissions.
pub const S_IRWXG: u32 = 0o0000070;

/// Read permission, group.
pub const S_IRGRP: u32 = 0o0000040;

/// Write permission, group.
pub const S_IWGRP: u32 = 0o0000020;

/// Execute/search permission, group.
pub const S_IXGRP: u32 = 0o0000010;

/// Mask for the permissions of others.
pub const S_IRWXO: u32 = 0o0000007;

/// Read permission, others.
pub const S_IROTH: u32 = 0o0000004;

/// Write permission, others.
pub const S_IWOTH: u32 = 0o0000002;

/// Execute/search permission, others.
pub const S_IXOTH: u32 = 0o0000001;

/// The owner's three permission bits.
pub const USR_MODE: u32 = S_IRUSR | S_IWUSR | S_IXUSR;

/// The group's three permission bits.
pub const GRP_MODE: u32 = S_IRGRP | S_IWGRP | S_IXGRP;

/// The three permission bits of others.
pub const OTH_MODE: u32 = S_IROTH | S_IWOTH | S_IXOTH;

} // verus!
