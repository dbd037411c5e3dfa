//! Unix file-mode bits, rendered the way a long directory listing shows them.
//!
//! A mode is the raw `u32` that a `stat`-family call hands back. The crate
//! splits it into its file-type and permission fields, answers the usual
//! yes/no questions about it, and renders it as an octal numeral or as the
//! ten-symbol string `drwxr-xr-x`.

pub mod ascii_text;
pub mod constants;
pub mod octal;
pub mod perms;
pub mod symbolic;
pub mod traits;

pub use ascii::{AsciiChar, AsciiStr, AsciiString};
pub use perms::{file_perms, file_type, pretty_perms};
pub use traits::ExtendedPerms;
