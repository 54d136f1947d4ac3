//! Building and comparing text: the specifications that `std` comes without,
//! and the decimal numerals that ranges, rows and dates are written with.

use vstd::prelude::*;

verus! {

/// `String::push` appends the given character to the end of the string.
pub assume_specification[ String::push ](s: &mut String, ch: char)
    ensures
        final(s)@ == old(s)@.push(ch),
;

/// `str` equality holds of two slices exactly when they hold the same
/// characters in the same order.
pub assume_specification[ <str as PartialEq>::eq ](a: &str, b: &str) -> (r: bool)
    ensures
        r == (a@ == b@),
;

/// The lower case of a text, as `str::to_lowercase` computes it.
pub uninterp spec fn lowercase(text: Seq<char>) -> Seq<char>;

/// `str::to_lowercase` returns the lower case of the slice as a new string.
pub assume_specification[ str::to_lowercase ](s: &str) -> (lower: String)
    ensures
        lower@ == lowercase(s@),
;

/// `str::split_once` with a character as the delimiter: the text before the
/// first occurrence of the delimiter and the text after it, or `None` where
/// the delimiter does not occur.
#[verifier::external_body]
pub(crate) fn split_once_at<'a>(s: &'a str, delimiter: char) -> (parts: Option<(&'a str, &'a str)>)
    ensures
        match parts {
            Some((before, after)) => s@ == before@ + seq![delimiter] + after@
                && !before@.contains(delimiter),
            None => !s@.contains(delimiter),
        },
{
    s.split_once(delimiter)
}

/// Whether two string slices hold the same text.
pub fn same_text(a: &str, b: &str) -> (same: bool)
    ensures
        same == (a@ == b@),
{
    *a == *b
}

/// The character that writes the decimal digit `d`.
pub open spec fn digit_char(d: nat) -> char
    recommends
        d < 10,
{
    (('0' as nat) + d) as char
}

/// The decimal numeral of `n`, without sign or leading zeros; that of 0 is
/// "0".
pub open spec fn decimal(n: nat) -> Seq<char>
    decreases n,
{
    if n < 10 {
        seq![digit_char(n)]
    } else {
        decimal(n / 10).push(digit_char(n % 10))
    }
}

/// The decimal numeral of `n`, with a minus sign before it where `n` is
/// negative.
pub open spec fn signed_decimal(n: int) -> Seq<char> {
    if n < 0 {
        seq!['-'] + decimal((-n) as nat)
    } else {
        decimal(n as nat)
    }
}

/// The text of a truth value: "true" or "false".
pub open spec fn bool_text(b: bool) -> Seq<char> {
    if b {
        seq!['t', 'r', 'u', 'e']
    } else {
        seq!['f', 'a', 'l', 's', 'e']
    }
}

fn digit(d: u64) -> (c: char)
    requires
        d < 10,
    ensures
        c == digit_char(d as nat),
{
    let b: u8 = 48u8 + (d as u8);
    b as char
}

/// Appends the decimal numeral of `n` to `out`.
pub fn push_decimal_u64(out: &mut String, n: u64)
    ensures
        final(out)@ == old(out)@ + decimal(n as nat),
    decreases n,
{
    if n < 10 {
        out.push(digit(n));
        assert(old(out)@.push(digit_char(n as nat)) =~= old(out)@ + decimal(n as nat));
    } else {
        push_decimal_u64(out, n / 10);
        out.push(digit(n % 10));
        assert((old(out)@ + decimal((n / 10) as nat)).push(digit_char((n % 10) as nat))
            =~= old(out)@ + decimal(n as nat));
    }
}

/// Appends the decimal numeral of `n` to `out`.
pub fn push_decimal(out: &mut String, n: usize)
    ensures
        final(out)@ == old(out)@ + decimal(n as nat),
{
    push_decimal_u64(out, n as u64);
}

/// Appends the decimal numeral of `n` to `out`, with its sign where it is
/// negative.
pub fn push_signed_decimal(out: &mut String, n: i64)
    ensures
        final(out)@ == old(out)@ + signed_decimal(n as int),
{
    if n < 0 {
        out.push('-');
        let magnitude: u64 = ((-(n + 1)) as u64) + 1;
        push_decimal_u64(out, magnitude);
        assert(final(out)@ =~= old(out)@ + signed_decimal(n as int));
    } else {
        push_decimal_u64(out, n as u64);
    }
}

/// The decimal numeral of `n`, with its sign where it is negative.
pub fn signed_decimal_text(n: i64) -> (text: String)
    ensures
        text@ == signed_decimal(n as int),
{
    let mut text = String::new();
    push_signed_decimal(&mut text, n);
    assert(text@ =~= signed_decimal(n as int));
    text
}

/// The text of a truth value.
pub fn bool_to_text(b: bool) -> (text: String)
    ensures
        text@ == bool_text(b),
{
    if b {
        proof {
            reveal_strlit("true");
        }
        assert("true"@ =~= bool_text(true));
        "true".to_owned()
    } else {
        proof {
            reveal_strlit("false");
        }
        assert("false"@ =~= bool_text(false));
        "false".to_owned()
    }
}

/// The text after the first occurrence of `delimiter` in `text`, or `None`
/// where it does not occur.
pub open spec fn text_after_first(text: Seq<char>, delimiter: char) -> Option<Seq<char>>
    decreases text.len(),
{
    if text.len() == 0 {
        None
    } else if text[0] == delimiter {
        Some(text.drop_first())
    } else {
        text_after_first(text.drop_first(), delimiter)
    }
}

/// A text that is split at the first occurrence of a delimiter has the second
/// part after that occurrence.
pub proof fn lemma_text_after_first_split(
    before: Seq<char>,
    delimiter: char,
    after: Seq<char>,
)
    requires
        !before.contains(delimiter),
    ensures
        text_after_first(before + seq![delimiter] + after, delimiter) == Some(after),
    decreases before.len(),
{
    let text = before + seq![delimiter] + after;
    if before.len() == 0 {
        assert(text.drop_first() =~= after);
    } else {
        assert(before.contains(before[0]));
        assert(text[0] == before[0]);
        assert forall|c: char| before.drop_first().contains(c) implies before.contains(c) by {
            let i = choose|i: int| 0 <= i < before.drop_first().len() && before.drop_first()[i] == c;
            assert(before[i + 1] == c);
        }
        assert(text.drop_first() =~= before.drop_first() + seq![delimiter] + after);
        lemma_text_after_first_split(before.drop_first(), delimiter, after);
    }
}

/// A text in which a delimiter does not occur has no part after it.
pub proof fn lemma_text_after_first_none(text: Seq<char>, delimiter: char)
    requires
        !text.contains(delimiter),
    ensures
        text_after_first(text, delimiter) is None,
    decreases text.len(),
{
    if text.len() > 0 {
        assert(text.contains(text[0]));
        assert forall|c: char| text.drop_first().contains(c) implies text.contains(c) by {
            let i = choose|i: int| 0 <= i < text.drop_first().len() && text.drop_first()[i] == c;
            assert(text[i + 1] == c);
        }
        lemma_text_after_first_none(text.drop_first(), delimiter);
    }
}

/// The text after the first occurrence of `delimiter` in `text`, or `None`
/// where it does not occur.
pub fn after_first<'a>(text: &'a str, delimiter: char) -> (rest: Option<&'a str>)
    ensures
        match rest {
            Some(part) => text_after_first(text@, delimiter) == Some(part@),
            None => text_after_first(text@, delimiter) is None,
        },
{
    match split_once_at(text, delimiter) {
        Some((before, after)) => {
            proof {
                lemma_text_after_first_split(before@, delimiter, after@);
            }
            Some(after)
        },
        None => {
            proof {
                lemma_text_after_first_none(text@, delimiter);
            }
            None
        },
    }
}

} // verus!
