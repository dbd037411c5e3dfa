//! The `ascii` crate's growable string, as far as the rendering needs it.
//!
//! Nothing in this file is proved. Each function below makes one call into
//! the `ascii` crate, and its contract is what that crate's source shows of
//! the call.

use vstd::prelude::*;
use vstd::utf8::is_ascii_chars;
use ascii::{AsciiChar, AsciiString};

verus! {

/// `ascii::AsciiString`, opaque: all that is said of a value goes through
/// [`ascii_chars`].
#[verifier::external_type_specification]
#[verifier::external_body]
pub struct ExAsciiString(ascii::AsciiString);

/// The characters that an `AsciiString` holds, first to last, each as
/// `AsciiChar::as_char` gives it.
pub uninterp spec fn ascii_chars(text: AsciiString) -> Seq<char>;

/// `AsciiString::from_ascii` on a string slice, its error dropped.
///
/// The call succeeds exactly when every byte of `text` is below 128, which
/// for a `str` means that every character is ASCII. The bytes are then taken
/// over one for one, so the string holds the characters of `text`.
#[verifier::external_body]
pub(crate) fn from_ascii(text: &str) -> (out: Option<AsciiString>)
    ensures
        out is Some <==> is_ascii_chars(text@),
        out matches Some(made) ==> ascii_chars(made) == text@,
{
    AsciiString::from_ascii(text).ok()
}

/// Indexing an `AsciiString` by position, the character handed out through
/// `AsciiChar::as_char`.
///
/// The index goes to the underlying slice, which panics past its end: the
/// position must be inside the string.
#[verifier::external_body]
pub(crate) fn char_at(text: &AsciiString, index: usize) -> (c: char)
    requires
        index < ascii_chars(*text).len(),
    ensures
        c == ascii_chars(*text)[index as int],
{
    text[index].as_char()
}

/// Assignment through the mutable index of an `AsciiString`, the character
/// made by `AsciiChar::new`.
///
/// `AsciiChar::new` panics on a character that is not ASCII and the index
/// panics past the end of the string, so both are asked of the caller. The
/// one position is overwritten; every other character stays.
#[verifier::external_body]
pub(crate) fn set_char(text: &mut AsciiString, index: usize, c: char)
    requires
        index < ascii_chars(*old(text)).len(),
        c <= '\u{7f}',
    ensures
        ascii_chars(*final(text)) == ascii_chars(*old(text)).update(index as int, c),
{
    text[index] = AsciiChar::new(c);
}

} // verus!
