//! The JSON text of numbers and strings.

use vstd::prelude::*;

verus! {

/// The decimal digit that stands for `d`.
pub open spec fn digit_char(d: nat) -> char
    recommends
        d < 10,
{
    seq!['0', '1', '2', '3', '4', '5', '6', '7', '8', '9'][d as int]
}

/// The decimal numeral of `n`: most significant digit first, no sign, no
/// leading zero, and the single digit `0` for zero.
pub open spec fn decimal_text(n: nat) -> Seq<char>
    decreases n,
{
    if n < 10 {
        seq![digit_char(n)]
    } else {
        decimal_text(n / 10).push(digit_char(n % 10))
    }
}

/// The one-character string for the digit `d`.
fn digit(d: usize) -> (s: &'static str)
    requires
        d < 10,
    ensures
        s@ == seq![digit_char(d as nat)],
{
    proof {
        reveal_strlit("0");
        reveal_strlit("1");
        reveal_strlit("2");
        reveal_strlit("3");
        reveal_strlit("4");
        reveal_strlit("5");
        reveal_strlit("6");
        reveal_strlit("7");
        reveal_strlit("8");
        reveal_strlit("9");
    }
    let s: &'static str = match d {
        0 => "0",
        1 => "1",
        2 => "2",
        3 => "3",
        4 => "4",
        5 => "5",
        6 => "6",
        7 => "7",
        8 => "8",
        _ => "9",
    };
    assert(s@ =~= seq![digit_char(d as nat)]);
    s
}

/// Writes `n` as a decimal numeral.
pub fn decimal(n: usize) -> (text: String)
    ensures
        text@ == decimal_text(n as nat),
    decreases n,
{
    if n < 10 {
        digit(n).to_owned()
    } else {
        let mut text: String = decimal(n / 10);
        text.append(digit(n % 10));
        text
    }
}

/// The text that `serde_json` writes for the JSON string whose content is `s`:
/// `s` between double quotes, with the double quote, the backslash and the
/// characters below U+0020 replaced by their escapes.
pub uninterp spec fn json_string_text(s: Seq<char>) -> Seq<char>;

/// Whether `s` holds only characters that stand for themselves in a JSON
/// string: no double quote, no backslash, and none below U+0020.
pub open spec fn is_plain(s: Seq<char>) -> bool {
    forall|i: int|
        0 <= i < s.len() ==> (#[trigger] s[i]) != '"' && s[i] != '\\' && s[i] as u32 >= 0x20
}

/// Not verified. Makes `s` a JSON value with `serde_json`'s
/// `From<&str> for Value` and formats it with `serde_json`'s `Display for
/// Value`, which writes the compact JSON text of the value. The contract
/// claims two things of that text. It depends on the characters of `s` alone,
/// and so has a name, [`json_string_text`]. And where `s` is plain it is `s`
/// between two double quotes: `serde_json` escapes the double quote, the
/// backslash and the characters below U+0020, and writes every other
/// character as it is. The formatting fails only where the write into its
/// target does, and the target here is a `String`.
#[verifier::external_body]
pub(crate) fn quote(s: &str) -> (text: String)
    ensures
        text@ == json_string_text(s@),
        is_plain(s@) ==> text@ == seq!['"'] + s@ + seq!['"'],
{
    serde_json::Value::from(s).to_string()
}

} // verus!
