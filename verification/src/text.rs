//! Numbers and tags as text, for the messages of errors.

use vstd::prelude::*;

verus! {

/// The character of one digit, for bases up to sixteen: `0` to `9`, then `A`
/// to `F`.
pub open spec fn digit_char(d: int) -> char {
    if d < 10 {
        ((48 + d) as u8) as char
    } else {
        ((55 + d) as u8) as char
    }
}

/// A number in decimal, without sign or leading zeros.
pub open spec fn decimal_text(n: nat) -> Seq<char>
    decreases n,
{
    if n < 10 {
        seq![digit_char(n as int)]
    } else {
        decimal_text(n / 10).push(digit_char((n % 10) as int))
    }
}

/// A 16-bit number as four hexadecimal digits, upper case.
pub open spec fn hex4_text(v: u16) -> Seq<char> {
    seq![
        digit_char(v as int / 4096),
        digit_char(v as int / 256 % 16),
        digit_char(v as int / 16 % 16),
        digit_char(v as int % 16),
    ]
}

/// A tag as it is named in messages: `Tag(0xGGGG, 0xEEEE)`, group then
/// element, each as four hexadecimal digits.
pub open spec fn tag_text(group: u16, element: u16) -> Seq<char> {
    "Tag(0x"@ + hex4_text(group) + ", 0x"@ + hex4_text(element) + ")"@
}

/// The text of one digit below sixteen.
fn digit_str(d: u8) -> (text: &'static str)
    requires
        d < 16,
    ensures
        text@ == seq![digit_char(d as int)],
{
    proof {
        reveal_strlit("0");
        reveal_strlit("1");
        reveal_strlit("2");
        reveal_strlit("3");
        reveal_strlit("4");
        reveal_strlit("5");
        reveal_strlit("6");
        reveal_strlit("7");
        reveal_strlit("8");
        reveal_strlit("9");
        reveal_strlit("A");
        reveal_strlit("B");
        reveal_strlit("C");
        reveal_strlit("D");
        reveal_strlit("E");
        reveal_strlit("F");
    }
    let text = if d == 0 {
        "0"
    } else if d == 1 {
        "1"
    } else if d == 2 {
        "2"
    } else if d == 3 {
        "3"
    } else if d == 4 {
        "4"
    } else if d == 5 {
        "5"
    } else if d == 6 {
        "6"
    } else if d == 7 {
        "7"
    } else if d == 8 {
        "8"
    } else if d == 9 {
        "9"
    } else if d == 10 {
        "A"
    } else if d == 11 {
        "B"
    } else if d == 12 {
        "C"
    } else if d == 13 {
        "D"
    } else if d == 14 {
        "E"
    } else {
        "F"
    };
    assert(text@ =~= seq![digit_char(d as int)]);
    text
}

/// Writes a number in decimal.
pub fn decimal(n: u64) -> (text: String)
    ensures
        text@ == decimal_text(n as nat),
    decreases n,
{
    if n < 10 {
        String::from_str(digit_str(n as u8))
    } else {
        let mut text = decimal(n / 10);
        text.append(digit_str((n % 10) as u8));
        assert(text@ =~= decimal_text(n as nat));
        text
    }
}

/// Appends a 16-bit number as four hexadecimal digits.
fn append_hex4(text: &mut String, v: u16)
    ensures
        final(text)@ == old(text)@ + hex4_text(v),
{
    text.append(digit_str((v / 4096) as u8));
    text.append(digit_str((v / 256 % 16) as u8));
    text.append(digit_str((v / 16 % 16) as u8));
    text.append(digit_str((v % 16) as u8));
    assert(text@ =~= old(text)@ + hex4_text(v));
}

/// Names a tag for a message.
pub fn tag_label(group: u16, element: u16) -> (label: String)
    ensures
        label@ == tag_text(group, element),
{
    let mut label = String::from_str("Tag(0x");
    append_hex4(&mut label, group);
    label.append(", 0x");
    append_hex4(&mut label, element);
    label.append(")");
    label
}

} // verus!
