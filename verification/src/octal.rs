//! Octal numerals with the `0o` prefix, as Rust's `{:#o}` writes them.

use vstd::prelude::*;

verus! {

/// The character for one octal digit.
pub open spec fn octal_digit(digit: nat) -> char
    recommends
        digit < 8,
{
    if digit == 0 {
        '0'
    } else if digit == 1 {
        '1'
    } else if digit == 2 {
        '2'
    } else if digit == 3 {
        '3'
    } else if digit == 4 {
        '4'
    } else if digit == 5 {
        '5'
    } else if digit == 6 {
        '6'
    } else {
        '7'
    }
}

/// Whether `c` is one of `0` to `7`.
pub open spec fn is_octal_digit(c: char) -> bool {
    '0' <= c <= '7'
}

/// The digit that an octal character stands for.
pub open spec fn digit_value(c: char) -> nat
    recommends
        is_octal_digit(c),
{
    (c as nat - '0' as nat) as nat
}

/// The octal digits of `value`, most significant first, without leading
/// zeros; zero is the single digit `0`.
pub open spec fn octal_digits(value: nat) -> Seq<char>
    decreases value,
{
    if value < 8 {
        seq![octal_digit(value)]
    } else {
        octal_digits(value / 8).push(octal_digit(value % 8))
    }
}

/// The octal numeral of `value`: `0o`, then its digits.
pub open spec fn octal_text(value: nat) -> Seq<char> {
    seq!['0', 'o'] + octal_digits(value)
}

/// The number that a sequence of octal digits denotes.
pub open spec fn octal_value(digits: Seq<char>) -> nat
    decreases digits.len(),
{
    if digits.len() == 0 {
        0
    } else {
        8 * octal_value(digits.drop_last()) + digit_value(digits.last())
    }
}

/// Whether `text` is an octal numeral: `0o` and at least one octal digit
/// after it.
pub open spec fn is_octal_text(text: Seq<char>) -> bool {
    &&& text.len() >= 3
    &&& text[0] == '0'
    &&& text[1] == 'o'
    &&& forall|i: int| 2 <= i < text.len() ==> is_octal_digit(#[trigger] text[i])
}

/// The number that an octal numeral denotes.
pub open spec fn octal_text_value(text: Seq<char>) -> nat
    recommends
        is_octal_text(text),
{
    octal_value(text.skip(2))
}

/// The digits written for a number are octal digits, and read back they give
/// the number.
pub proof fn lemma_octal_digits_round_trip(value: nat)
    ensures
        octal_digits(value).len() >= 1,
        forall|i: int| 0 <= i < octal_digits(value).len() ==> is_octal_digit(#[trigger] octal_digits(value)[i]),
        octal_value(octal_digits(value)) == value,
    decreases value,
{
    if value < 8 {
        let digits = octal_digits(value);
        assert(digits.drop_last() =~= Seq::<char>::empty());
        assert(octal_value(digits.drop_last()) == 0);
    } else {
        lemma_octal_digits_round_trip(value / 8);
        let front = octal_digits(value / 8);
        let digits = octal_digits(value);
        assert(digits.drop_last() =~= front);
        assert(digits.last() == octal_digit(value % 8));
    }
}

/// Reading an octal numeral back gives the number it was written for: for
/// every `value`, `octal_text(value)` is a well-formed numeral that denotes
/// `value`.
pub proof fn lemma_octal_text_round_trip(value: nat)
    ensures
        is_octal_text(octal_text(value)),
        octal_text_value(octal_text(value)) == value,
{
    lemma_octal_digits_round_trip(value);
    assert(octal_text(value).skip(2) =~= octal_digits(value));
    assert forall|i: int| 2 <= i < octal_text(value).len() implies is_octal_digit(
        #[trigger] octal_text(value)[i],
    ) by {
        assert(octal_text(value)[i] == octal_digits(value)[i - 2]);
    }
}

/// One octal digit as a string slice.
fn digit_text(digit: u32) -> (text: &'static str)
    requires
        digit < 8,
    ensures
        text@ == seq![octal_digit(digit as nat)],
{
    proof {
        reveal_strlit("0");
        reveal_strlit("1");
        reveal_strlit("2");
        reveal_strlit("3");
        reveal_strlit("4");
        reveal_strlit("5");
        reveal_strlit("6");
        reveal_strlit("7");
    }
    let text = if digit == 0 {
        "0"
    } else if digit == 1 {
        "1"
    } else if digit == 2 {
        "2"
    } else if digit == 3 {
        "3"
    } else if digit == 4 {
        "4"
    } else if digit == 5 {
        "5"
    } else if digit == 6 {
        "6"
    } else {
        "7"
    };
    assert(text@ =~= seq![octal_digit(digit as nat)]);
    text
}

/// Appends the octal digits of `value` to `text`.
fn push_octal_digits(text: &mut String, value: u32)
    ensures
        final(text)@ == old(text)@ + octal_digits(value as nat),
    decreases value,
{
    if value >= 8 {
        push_octal_digits(text, value / 8);
    }
    text.append(digit_text(value % 8));
    proof {
        let before = old(text)@;
        if value >= 8 {
            assert(before + octal_digits(value as nat / 8) + seq![octal_digit(value as nat % 8)]
                =~= before + octal_digits(value as nat));
        } else {
            assert(before + seq![octal_digit(value as nat)] =~= before + octal_digits(
                value as nat,
            ));
        }
    }
}

/// The octal numeral of `value`, with its `0o` prefix: `0o644` for 420 and
/// `0o0` for zero.
pub fn octal_string(value: u32) -> (text: String)
    ensures
        text@ == octal_text(value as nat),
        is_octal_text(text@),
        octal_text_value(text@) == value,
{
    proof {
        reveal_strlit("0o");
        lemma_octal_text_round_trip(value as nat);
    }
    let mut text = String::new();
    text.append("0o");
    assert(text@ =~= seq!['0', 'o']);
    push_octal_digits(&mut text, value);
    text
}

} // verus!
