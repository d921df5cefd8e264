//! Text helpers: hexadecimal rendering and the printed form of a MAC address.

use vstd::prelude::*;
use vstd::string::StrSliceExecFns;
use vstd::string::StringExecFns;

verus! {

/// The lower-case hexadecimal digit for a value below sixteen.
pub open spec fn spec_lower_digit(digit: int) -> char {
    if digit == 0 {
        '0'
    } else if digit == 1 {
        '1'
    } else if digit == 2 {
        '2'
    } else if digit == 3 {
        '3'
    } else if digit == 4 {
        '4'
    } else if digit == 5 {
        '5'
    } else if digit == 6 {
        '6'
    } else if digit == 7 {
        '7'
    } else if digit == 8 {
        '8'
    } else if digit == 9 {
        '9'
    } else if digit == 10 {
        'a'
    } else if digit == 11 {
        'b'
    } else if digit == 12 {
        'c'
    } else if digit == 13 {
        'd'
    } else if digit == 14 {
        'e'
    } else {
        'f'
    }
}

/// The upper-case hexadecimal digit for a value below sixteen.
pub open spec fn spec_upper_digit(digit: int) -> char {
    if digit == 10 {
        'A'
    } else if digit == 11 {
        'B'
    } else if digit == 12 {
        'C'
    } else if digit == 13 {
        'D'
    } else if digit == 14 {
        'E'
    } else if digit == 15 {
        'F'
    } else {
        spec_lower_digit(digit)
    }
}

/// A number in lower-case hexadecimal, without prefix or leading zeros.
pub open spec fn spec_lower_hex(number: nat) -> Seq<char>
    decreases number,
{
    if number < 16 {
        seq![spec_lower_digit(number as int)]
    } else {
        spec_lower_hex(number / 16).push(spec_lower_digit((number % 16) as int))
    }
}

/// A byte in lower-case hexadecimal, padded with a zero to two digits.
pub open spec fn spec_lower_hex2(number: u8) -> Seq<char> {
    seq![spec_lower_digit(number as int / 16), spec_lower_digit(number as int % 16)]
}

/// A byte in upper-case hexadecimal, padded with a zero to two digits.
pub open spec fn spec_upper_hex2(number: u8) -> Seq<char> {
    seq![spec_upper_digit(number as int / 16), spec_upper_digit(number as int % 16)]
}

/// Appends one lower-case hexadecimal digit.
pub fn push_lower_digit(text: &mut String, digit: u8)
    requires
        digit < 16,
    ensures
        final(text)@ == old(text)@.push(spec_lower_digit(digit as int)),
{
    let digits: &'static str = "0123456789abcdef";
    proof {
        reveal_strlit("0123456789abcdef");
    }
    let from: usize = digit as usize;
    let piece: &str = digits.substring_ascii(from, from + 1);
    assert(piece@ =~= seq![spec_lower_digit(digit as int)]);
    text.append(piece);
    assert(text@ =~= old(text)@.push(spec_lower_digit(digit as int)));
}

/// Appends one upper-case hexadecimal digit.
pub fn push_upper_digit(text: &mut String, digit: u8)
    requires
        digit < 16,
    ensures
        final(text)@ == old(text)@.push(spec_upper_digit(digit as int)),
{
    let digits: &'static str = "0123456789ABCDEF";
    proof {
        reveal_strlit("0123456789ABCDEF");
    }
    let from: usize = digit as usize;
    let piece: &str = digits.substring_ascii(from, from + 1);
    assert(piece@ =~= seq![spec_upper_digit(digit as int)]);
    text.append(piece);
    assert(text@ =~= old(text)@.push(spec_upper_digit(digit as int)));
}

/// Appends a number in lower-case hexadecimal, without leading zeros.
pub fn push_lower_hex(text: &mut String, number: u32)
    ensures
        final(text)@ == old(text)@ + spec_lower_hex(number as nat),
    decreases number,
{
    if number >= 16 {
        push_lower_hex(text, number / 16);
    }
    push_lower_digit(text, (number % 16) as u8);
    assert(text@ =~= old(text)@ + spec_lower_hex(number as nat));
}

/// Appends a byte in lower-case hexadecimal, two digits wide.
pub fn push_lower_hex2(text: &mut String, number: u8)
    ensures
        final(text)@ == old(text)@ + spec_lower_hex2(number),
{
    push_lower_digit(text, number / 16);
    push_lower_digit(text, number % 16);
    assert(text@ =~= old(text)@ + spec_lower_hex2(number));
}

/// Appends a byte in upper-case hexadecimal, two digits wide.
pub fn push_upper_hex2(text: &mut String, number: u8)
    ensures
        final(text)@ == old(text)@ + spec_upper_hex2(number),
{
    push_upper_digit(text, number / 16);
    push_upper_digit(text, number % 16);
    assert(text@ =~= old(text)@ + spec_upper_hex2(number));
}

/// The printed form of a MAC address: six bytes in upper-case hexadecimal,
/// two digits each, with colons between them.
pub open spec fn spec_mac_address(mac: Seq<u8>) -> Seq<char>
    recommends
        mac.len() == 6,
{
    spec_upper_hex2(mac[0]) + ":"@ + spec_upper_hex2(mac[1]) + ":"@ + spec_upper_hex2(mac[2]) + ":"@
        + spec_upper_hex2(mac[3]) + ":"@ + spec_upper_hex2(mac[4]) + ":"@ + spec_upper_hex2(mac[5])
}

/// Renders a MAC address for printing.
pub fn format_mac_address(mac: [u8; 6]) -> (text: String)
    ensures
        text@ == spec_mac_address(mac@),
        text@.len() == 17,
{
    let mut text = String::new();
    push_upper_hex2(&mut text, mac[0]);
    text.append(":");
    push_upper_hex2(&mut text, mac[1]);
    text.append(":");
    push_upper_hex2(&mut text, mac[2]);
    text.append(":");
    push_upper_hex2(&mut text, mac[3]);
    text.append(":");
    push_upper_hex2(&mut text, mac[4]);
    text.append(":");
    push_upper_hex2(&mut text, mac[5]);
    proof {
        reveal_strlit(":");
        assert(text@ =~= spec_mac_address(mac@));
    }
    text
}

} // verus!
