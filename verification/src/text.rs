//! Small text-building helpers: appending to a `String`, decimal and
//! hexadecimal rendering of integers.

use vstd::prelude::*;
use vstd::utf8::{valid_utf8, decode_utf8};
use vstd::string::StringExecFns;

verus! {

/// Appends `c` to `s` with `String::push`; the contract claims the new text
/// is the old text followed by `c`.
#[verifier::external_body]
pub(crate) fn push_char(s: &mut String, c: char)
    ensures
        final(s)@ == old(s)@.push(c),
{
    s.push(c);
}

/// Appends `t` to `s`.
pub(crate) fn push_str(s: &mut String, t: &str)
    ensures
        final(s)@ == old(s)@ + t@,
{
    s.append(t);
}

/// What `String::from_utf8_lossy` makes of `bytes`: each maximal invalid
/// sequence becomes U+FFFD.
pub uninterp spec fn utf8_lossy_text(bytes: Seq<u8>) -> Seq<char>;

/// What `String::from_utf16_lossy` makes of `units`: each unpaired
/// surrogate becomes U+FFFD.
pub uninterp spec fn utf16_lossy_text(units: Seq<u16>) -> Seq<char>;

/// Decodes `bytes` as UTF-8 with `String::from_utf8_lossy`. The contract
/// names the result and states, as the documentation does, that valid UTF-8
/// decodes unchanged.
#[verifier::external_body]
pub(crate) fn utf8_lossy(bytes: &[u8]) -> (s: String)
    ensures
        s@ == utf8_lossy_text(bytes@),
        valid_utf8(bytes@) ==> s@ == decode_utf8(bytes@),
{
    String::from_utf8_lossy(bytes).into_owned()
}

/// Decodes `units` as UTF-16 with `String::from_utf16_lossy`. The contract
/// names the result and states that code units outside the surrogate range
/// each decode to the character of that value.
#[verifier::external_body]
pub(crate) fn utf16_lossy(units: &[u16]) -> (s: String)
    ensures
        s@ == utf16_lossy_text(units@),
        (forall|i: int| 0 <= i < units@.len() ==> #[trigger] units@[i] < 0xD800u16 || units@[i] >= 0xE000u16)
            ==> s@ == units@.map_values(|u: u16| u as char),
{
    String::from_utf16_lossy(units)
}

/// The character of decimal digit `d` (`d < 10`).
pub open spec fn digit_char(d: nat) -> char {
    if d == 0 { '0' }
    else if d == 1 { '1' }
    else if d == 2 { '2' }
    else if d == 3 { '3' }
    else if d == 4 { '4' }
    else if d == 5 { '5' }
    else if d == 6 { '6' }
    else if d == 7 { '7' }
    else if d == 8 { '8' }
    else { '9' }
}

/// The lowercase hexadecimal character of digit `d` (`d < 16`).
pub open spec fn hex_char(d: nat) -> char {
    if d < 10 { digit_char(d) }
    else if d == 10 { 'a' }
    else if d == 11 { 'b' }
    else if d == 12 { 'c' }
    else if d == 13 { 'd' }
    else if d == 14 { 'e' }
    else { 'f' }
}

/// Shortest decimal rendering of `n`, as `Display` prints an unsigned integer.
pub open spec fn decimal(n: nat) -> Seq<char>
    decreases n,
{
    if n < 10 {
        seq![digit_char(n)]
    } else {
        decimal(n / 10).push(digit_char(n % 10))
    }
}

/// The low `width` hexadecimal digits of `n`, most significant first and
/// zero-padded: what `{:0width$x}` prints when `n < 16^width`.
pub open spec fn hex_fixed(n: nat, width: nat) -> Seq<char>
    decreases width,
{
    if width == 0 {
        Seq::empty()
    } else {
        hex_fixed(n / 16, (width - 1) as nat).push(hex_char(n % 16))
    }
}

fn digit(d: u64) -> (c: char)
    requires
        d < 16,
    ensures
        c == hex_char(d as nat),
{
    if d == 0 { '0' }
    else if d == 1 { '1' }
    else if d == 2 { '2' }
    else if d == 3 { '3' }
    else if d == 4 { '4' }
    else if d == 5 { '5' }
    else if d == 6 { '6' }
    else if d == 7 { '7' }
    else if d == 8 { '8' }
    else if d == 9 { '9' }
    else if d == 10 { 'a' }
    else if d == 11 { 'b' }
    else if d == 12 { 'c' }
    else if d == 13 { 'd' }
    else if d == 14 { 'e' }
    else { 'f' }
}

/// Appends the decimal rendering of `n` to `s`.
pub fn push_decimal(s: &mut String, n: u64)
    ensures
        final(s)@ == old(s)@ + decimal(n as nat),
    decreases n,
{
    if n >= 10 {
        push_decimal(s, n / 10);
    }
    let c = digit(n % 10);
    push_char(s, c);
    proof {
        assert(old(s)@ + decimal(n as nat) =~= if n < 10 {
            old(s)@.push(digit_char(n as nat))
        } else {
            (old(s)@ + decimal((n / 10) as nat)).push(digit_char((n % 10) as nat))
        });
    }
}

/// Appends `width` lowercase hexadecimal digits of `n` (zero-padded, low
/// digits of `n` only) to `s`.
pub fn push_hex_fixed(s: &mut String, n: u64, width: u32)
    ensures
        final(s)@ == old(s)@ + hex_fixed(n as nat, width as nat),
    decreases width,
{
    if width > 0 {
        push_hex_fixed(s, n / 16, width - 1);
        let c = digit(n % 16);
        push_char(s, c);
        proof {
            assert(old(s)@ + hex_fixed(n as nat, width as nat) =~= (old(s)@ + hex_fixed(
                (n / 16) as nat,
                (width - 1) as nat,
            )).push(hex_char((n % 16) as nat)));
        }
    } else {
        proof {
            assert(old(s)@ + hex_fixed(n as nat, 0) =~= old(s)@);
        }
    }
}

/// Renders `n` in decimal.
pub fn decimal_string(n: u64) -> (s: String)
    ensures
        s@ == decimal(n as nat),
{
    let mut s = String::new();
    push_decimal(&mut s, n);
    proof {
        assert(Seq::<char>::empty() + decimal(n as nat) =~= decimal(n as nat));
    }
    s
}

/// Decimal rendering of a signed integer, as `Display` prints it.
pub open spec fn signed_decimal(i: int) -> Seq<char> {
    if i < 0 {
        seq!['-'] + decimal((-i) as nat)
    } else {
        decimal(i as nat)
    }
}

/// Appends the decimal rendering of `i` to `s`.
pub fn push_signed_decimal(s: &mut String, i: i64)
    ensures
        final(s)@ == old(s)@ + signed_decimal(i as int),
{
    if i < 0 {
        push_char(s, '-');
        let mag: u64 = ((-(i + 1)) as u64) + 1;
        push_decimal(s, mag);
        proof {
            assert(old(s)@.push('-') + decimal(mag as nat) =~= old(s)@ + (seq!['-'] + decimal(mag as nat)));
        }
    } else {
        push_decimal(s, i as u64);
    }
}

} // verus!
