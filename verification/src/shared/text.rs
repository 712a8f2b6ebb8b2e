//! Building human-readable texts: descriptions and error messages that name
//! identifiers, amounts' currencies and the like.
use vstd::prelude::*;

verus! {

/// `String::push`: appends one character.
#[verifier::external_body]
pub(crate) fn push_char(s: &mut String, c: char)
    ensures
        final(s)@ == old(s)@.push(c),
{
    s.push(c)
}

/// Lower-case hexadecimal digit for a value in `0..16`.
pub open spec fn hex_char(d: int) -> char {
    if d < 10 {
        (48 + d) as char
    } else {
        (87 + d) as char
    }
}

/// The `n` lowest hexadecimal digits of `v`, most significant first.
pub open spec fn hex_digits(v: nat, n: nat) -> Seq<char>
    decreases n,
{
    if n == 0 {
        Seq::empty()
    } else {
        hex_digits(v / 16, (n - 1) as nat).push(hex_char((v % 16) as int))
    }
}

/// The usual textual form of a 128-bit identifier: 32 lower-case hex digits
/// in groups of 8, 4, 4, 4 and 12, separated by hyphens.
pub open spec fn uuid_text(v: u128) -> Seq<char> {
    hex_digits((v / 0x1_0000_0000_0000_0000_0000_0000) as nat, 8) + seq!['-'] + hex_digits(
        (v / 0x1_0000_0000_0000_0000_0000) as nat,
        4,
    ) + seq!['-'] + hex_digits((v / 0x1_0000_0000_0000_0000) as nat, 4) + seq!['-'] + hex_digits(
        (v / 0x1_0000_0000_0000) as nat,
        4,
    ) + seq!['-'] + hex_digits(v as nat, 12)
}

/// The hexadecimal digit for `d`.
fn hex_digit_char(d: u128) -> (c: char)
    requires
        d < 16,
    ensures
        c == hex_char(d as int),
{
    let b: u8 = d as u8;
    if b < 10 {
        (48u8 + b) as char
    } else {
        (87u8 + b) as char
    }
}

/// Appends the `n` lowest hexadecimal digits of `v`.
fn push_hex(s: &mut String, v: u128, n: usize)
    ensures
        final(s)@ == old(s)@ + hex_digits(v as nat, n as nat),
    decreases n,
{
    if n > 0 {
        push_hex(s, v / 16, n - 1);
        let c = hex_digit_char(v % 16);
        push_char(s, c);
        proof {
            assert(hex_digits(v as nat, n as nat) == hex_digits((v / 16) as nat, (n - 1) as nat).push(
                hex_char((v % 16) as int),
            ));
        }
    } else {
        proof {
            assert(old(s)@ + Seq::<char>::empty() =~= old(s)@);
        }
    }
}

/// Appends the textual form of the identifier `v`.
pub(crate) fn push_uuid(s: &mut String, v: u128)
    ensures
        final(s)@ == old(s)@ + uuid_text(v),
{
    let ghost s0 = s@;
    push_hex(s, v / 0x1_0000_0000_0000_0000_0000_0000, 8);
    push_char(s, '-');
    push_hex(s, v / 0x1_0000_0000_0000_0000_0000, 4);
    push_char(s, '-');
    push_hex(s, v / 0x1_0000_0000_0000_0000, 4);
    push_char(s, '-');
    push_hex(s, v / 0x1_0000_0000_0000, 4);
    push_char(s, '-');
    push_hex(s, v, 12);
    proof {
        assert(s@ =~= s0 + uuid_text(v));
    }
}

/// The textual form of the identifier `v`.
pub fn uuid_string(v: u128) -> (r: String)
    ensures
        r@ == uuid_text(v),
{
    let mut s = String::new();
    push_uuid(&mut s, v);
    proof {
        assert(Seq::<char>::empty() + uuid_text(v) =~= uuid_text(v));
    }
    s
}

} // verus!
