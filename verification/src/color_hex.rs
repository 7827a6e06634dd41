use vstd::prelude::*;
use vstd::string::*;
use vstd::utf8::*;

verus! {

/// The value of an ASCII hexadecimal digit (either case).
pub open spec fn hex_digit_value(b: u8) -> Option<u8> {
    if 48 <= b <= 57 {
        Some((b - 48) as u8)
    } else if 97 <= b <= 102 {
        Some((b - 87) as u8)
    } else if 65 <= b <= 70 {
        Some((b - 55) as u8)
    } else {
        None
    }
}

/// What parsing the two bytes `b0 b1` as a base-16 `u8` gives: two digits, or
/// a `+` sign followed by one digit.
pub open spec fn parse_hex_pair(b0: u8, b1: u8) -> Option<u8> {
    if b0 == 43 {
        hex_digit_value(b1)
    } else {
        match (hex_digit_value(b0), hex_digit_value(b1)) {
            (Some(h), Some(l)) => Some((h * 16 + l) as u8),
            _ => None,
        }
    }
}

/// The color that a 7-byte text `?RRGGBB` names; the first byte is not looked at.
pub open spec fn parse_hex_color(bytes: Seq<u8>) -> Option<(u8, u8, u8)> {
    if bytes.len() != 7 {
        None
    } else {
        match (parse_hex_pair(bytes[1], bytes[2]), parse_hex_pair(bytes[3], bytes[4]), parse_hex_pair(bytes[5], bytes[6])) {
            (Some(r), Some(g), Some(b)) => Some((r, g, b)),
            _ => None,
        }
    }
}

/// The upper-case hexadecimal digit of a value below 16.
pub open spec fn hex_char(n: u8) -> char {
    if n < 10 {
        (n + 48) as char
    } else {
        (n + 55) as char
    }
}

/// `#RRGGBB` with upper-case digits.
pub open spec fn hex_text(r: u8, g: u8, b: u8) -> Seq<char> {
    seq!['#', hex_char(r / 16), hex_char(r % 16), hex_char(g / 16), hex_char(g % 16), hex_char(b / 16), hex_char(b % 16)]
}

fn hex_digit(n: u8) -> (r: Option<u8>)
    ensures
        r == hex_digit_value(n),
{
    if 48 <= n && n <= 57 {
        Some(n - 48)
    } else if 97 <= n && n <= 102 {
        Some(n - 87)
    } else if 65 <= n && n <= 70 {
        Some(n - 55)
    } else {
        None
    }
}

fn parse_pair(b0: u8, b1: u8) -> (r: Option<u8>)
    ensures
        r == parse_hex_pair(b0, b1),
{
    if b0 == 43 {
        return hex_digit(b1);
    }
    match (hex_digit(b0), hex_digit(b1)) {
        (Some(h), Some(l)) => Some(h * 16 + l),
        _ => None,
    }
}

/// Reads a color written as `#RRGGBB`. The text must be cut at character
/// boundaries where the digit pairs begin.
pub fn hex_to_color(hex: &str) -> (r: Option<(u8, u8, u8)>)
    requires
        hex.spec_bytes().len() == 7 ==> {
            &&& is_char_boundary(hex.spec_bytes(), 1)
            &&& is_char_boundary(hex.spec_bytes(), 3)
            &&& is_char_boundary(hex.spec_bytes(), 5)
        },
    ensures
        r == parse_hex_color(hex.spec_bytes()),
{
    let bytes = hex.as_bytes();
    if bytes.len() != 7 {
        return None;
    }
    let r = parse_pair(bytes[1], bytes[2]);
    let g = parse_pair(bytes[3], bytes[4]);
    let b = parse_pair(bytes[5], bytes[6]);
    match (r, g, b) {
        (Some(r), Some(g), Some(b)) => Some((r, g, b)),
        _ => None,
    }
}

fn push_hex_digit(text: &mut String, n: u8)
    requires
        n < 16,
    ensures
        final(text)@ == old(text)@.push(hex_char(n)),
{
    let digits = "0123456789ABCDEF";
    proof {
        reveal_strlit("0123456789ABCDEF");
    }
    let idx = n as usize;
    let one = digits.substring_ascii(idx, idx + 1);
    text.append(one);
    assert(one@ =~= seq![hex_char(n)]);
}

/// Writes a color as `#RRGGBB` with upper-case digits.
pub fn color_to_hex(r: u8, g: u8, b: u8) -> (text: String)
    ensures
        text@ == hex_text(r, g, b),
{
    let mut text = String::new();
    let hash = "#";
    proof {
        reveal_strlit("#");
    }
    text.append(hash);
    push_hex_digit(&mut text, r / 16);
    push_hex_digit(&mut text, r % 16);
    push_hex_digit(&mut text, g / 16);
    push_hex_digit(&mut text, g % 16);
    push_hex_digit(&mut text, b / 16);
    push_hex_digit(&mut text, b % 16);
    assert(text@ =~= hex_text(r, g, b));
    text
}

/// Writing a color as hex text and reading the text back gives the color.
pub proof fn lemma_hex_round_trip(r: u8, g: u8, b: u8, bytes: Seq<u8>)
    requires
        bytes.len() == 7,
        forall|i: int| 0 <= i < 7 ==> bytes[i] == hex_text(r, g, b)[i] as u8,
    ensures
        parse_hex_color(bytes) == Some((r, g, b)),
{
    assert forall|n: u8| n < 16 implies hex_digit_value(#[trigger] hex_char(n) as u8) == Some(n) by {
        if n < 10 {
            assert(hex_char(n) as u8 == n + 48);
        } else {
            assert(hex_char(n) as u8 == n + 55);
        }
    }
    assert(bytes[1] == hex_char(r / 16) as u8);
    assert(bytes[2] == hex_char(r % 16) as u8);
    assert(bytes[3] == hex_char(g / 16) as u8);
    assert(bytes[4] == hex_char(g % 16) as u8);
    assert(bytes[5] == hex_char(b / 16) as u8);
    assert(bytes[6] == hex_char(b % 16) as u8);
    assert(hex_digit_value(bytes[1]) == Some((r / 16) as u8));
    assert(hex_digit_value(bytes[2]) == Some((r % 16) as u8));
    assert(hex_digit_value(bytes[3]) == Some((g / 16) as u8));
    assert(hex_digit_value(bytes[4]) == Some((g % 16) as u8));
    assert(hex_digit_value(bytes[5]) == Some((b / 16) as u8));
    assert(hex_digit_value(bytes[6]) == Some((b % 16) as u8));
}

} // verus!
