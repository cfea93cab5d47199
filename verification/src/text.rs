//! Canonical text of numbers, byte strings and quoted strings.

use vstd::prelude::*;
use vstd::string::*;

verus! {

/// The sixteen digit characters, in order of their value.
pub open spec fn digit_chars() -> Seq<char> {
    "0123456789abcdef"@
}

/// The decimal numeral of `n`: most significant digit first, no leading zero,
/// `"0"` for zero.
pub open spec fn decimal_text(n: nat) -> Seq<char>
    decreases n,
{
    if n < 10 {
        seq![digit_chars()[n as int]]
    } else {
        decimal_text(n / 10).push(digit_chars()[(n % 10) as int])
    }
}

/// The lowercase hexadecimal text of a byte string: two digits per byte, high
/// half first.
pub open spec fn hex_text(bytes: Seq<u8>) -> Seq<char>
    decreases bytes.len(),
{
    if bytes.len() == 0 {
        Seq::empty()
    } else {
        hex_text(bytes.drop_last()).push(digit_chars()[(bytes.last() / 16) as int]).push(
            digit_chars()[(bytes.last() % 16) as int],
        )
    }
}

/// The text that Rust's `Debug` formatting gives for a string: the string in
/// double quotes, with quotes, backslashes and unprintable characters escaped.
pub uninterp spec fn quoted_text(s: Seq<char>) -> Seq<char>;

/// Appends the digit character of value `d` to `out`.
pub fn append_digit(out: &mut String, d: usize)
    requires
        d < 16,
    ensures
        final(out)@ == old(out)@.push(digit_chars()[d as int]),
{
    let digits = "0123456789abcdef";
    proof {
        reveal_strlit("0123456789abcdef");
    }
    let one = digits.substring_ascii(d, d + 1);
    assert(one@ =~= seq![digit_chars()[d as int]]);
    out.append(one);
    assert(out@ =~= old(out)@.push(digit_chars()[d as int]));
}

/// Appends the decimal numeral of `n` to `out`.
pub fn append_decimal(out: &mut String, n: u64)
    ensures
        final(out)@ == old(out)@ + decimal_text(n as nat),
    decreases n,
{
    if n >= 10 {
        append_decimal(out, n / 10);
    }
    append_digit(out, (n % 10) as usize);
    assert(out@ =~= old(out)@ + decimal_text(n as nat));
}

/// The decimal numeral of `n`.
pub fn to_decimal(n: u64) -> (out: String)
    ensures
        out@ == decimal_text(n as nat),
{
    let mut out = String::new();
    append_decimal(&mut out, n);
    assert(out@ =~= decimal_text(n as nat));
    out
}

/// The lowercase hexadecimal text of `bytes`.
pub fn to_hex(bytes: &[u8]) -> (out: String)
    ensures
        out@ == hex_text(bytes@),
{
    let mut out = String::new();
    let mut i: usize = 0;
    while i < bytes.len()
        invariant
            i <= bytes@.len(),
            out@ == hex_text(bytes@.take(i as int)),
        decreases bytes@.len() - i,
    {
        let b: u8 = bytes[i];
        assert(bytes@.take(i + 1).drop_last() =~= bytes@.take(i as int));
        append_digit(&mut out, (b / 16) as usize);
        append_digit(&mut out, (b % 16) as usize);
        i += 1;
    }
    assert(bytes@.take(i as int) =~= bytes@);
    out
}

/// Rust's `Debug` formatting of a string slice (`format!("{:?}", s)`). The
/// result is known only by its name, `quoted_text`: the escaping rules follow
/// Unicode tables and are not restated here.
#[verifier::external_body]
pub(crate) fn quote(s: &str) -> (out: String)
    ensures
        out@ == quoted_text(s@),
{
    format!("{:?}", s)
}

} // verus!
