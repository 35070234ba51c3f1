use vstd::prelude::*;
use vstd::string::StringExecFns;

verus! {

/// The hexadecimal digit of `d` (upper case), for `d < 16`.
pub open spec fn hex_digit(d: nat) -> char {
    if d < 10 {
        (('0' as nat) + d) as char
    } else {
        (('A' as nat) + d - 10) as char
    }
}

/// The decimal digit of `d`, for `d < 10`.
pub open spec fn dec_digit(d: nat) -> char {
    (('0' as nat) + d) as char
}

/// `v` in hexadecimal, upper case, padded with zeros to at least `width`
/// digits (what `{:0width$X}` prints).
pub open spec fn hex_pad(v: nat, width: nat) -> Seq<char>
    decreases v + width,
{
    if v < 16 && width <= 1 {
        seq![hex_digit(v)]
    } else {
        hex_pad(v / 16, if width > 0 {
            (width - 1) as nat
        } else {
            0
        }).push(hex_digit(v % 16))
    }
}

/// `v` in decimal, padded with zeros to at least `width` digits (what
/// `{:0width$}` prints).
pub open spec fn dec_pad(v: nat, width: nat) -> Seq<char>
    decreases v + width,
{
    if v < 10 && width <= 1 {
        seq![dec_digit(v)]
    } else {
        dec_pad(v / 10, if width > 0 {
            (width - 1) as nat
        } else {
            0
        }).push(dec_digit(v % 10))
    }
}

/// A byte as two hexadecimal digits.
pub open spec fn hex2(b: u8) -> Seq<char> {
    hex_pad(b as nat, 2)
}

/// A word as four hexadecimal digits.
pub open spec fn hex4(w: u16) -> Seq<char> {
    hex_pad(w as nat, 4)
}

/// Two digits for a byte, four for a word.
pub proof fn lemma_hex_widths(b: u8, w: u16)
    ensures
        hex2(b) == seq![hex_digit(b as nat / 16), hex_digit(b as nat % 16)],
        hex4(w) == seq![
            hex_digit(w as nat / 4096),
            hex_digit(w as nat / 256 % 16),
            hex_digit(w as nat / 16 % 16),
            hex_digit(w as nat % 16),
        ],
{
    let v = w as nat;
    assert(hex_pad(v / 4096, 1) == seq![hex_digit(v / 4096)]);
    assert(v / 256 / 16 == v / 4096);
    assert(v / 16 / 16 == v / 256);
    assert(hex_pad(v / 256, 2) == seq![hex_digit(v / 4096), hex_digit(v / 256 % 16)]);
    assert(hex_pad(v / 16, 3) == seq![
        hex_digit(v / 4096),
        hex_digit(v / 256 % 16),
        hex_digit(v / 16 % 16),
    ]);
    assert(hex_pad(b as nat / 16, 1) == seq![hex_digit(b as nat / 16)]);
}

/// Appends the hexadecimal digit of `d`.
pub fn push_hex_digit(s: &mut String, d: u8)
    requires
        d < 16,
    ensures
        final(s)@ == old(s)@.push(hex_digit(d as nat)),
{
    proof {
        reveal_strlit("0");
        reveal_strlit("1");
        reveal_strlit("2");
        reveal_strlit("3");
        reveal_strlit("4");
        reveal_strlit("5");
        reveal_strlit("6");
        reveal_strlit("7");
        reveal_strlit("8");
        reveal_strlit("9");
        reveal_strlit("A");
        reveal_strlit("B");
        reveal_strlit("C");
        reveal_strlit("D");
        reveal_strlit("E");
        reveal_strlit("F");
    }
    let t = match d {
        0 => "0",
        1 => "1",
        2 => "2",
        3 => "3",
        4 => "4",
        5 => "5",
        6 => "6",
        7 => "7",
        8 => "8",
        9 => "9",
        10 => "A",
        11 => "B",
        12 => "C",
        13 => "D",
        14 => "E",
        _ => "F",
    };
    s.append(t);
}

/// Appends `v` in hexadecimal, padded with zeros to at least `width` digits.
pub fn push_hex(s: &mut String, v: u16, width: u8)
    ensures
        final(s)@ == old(s)@ + hex_pad(v as nat, width as nat),
    decreases v + width,
{
    if v < 16 && width <= 1 {
        push_hex_digit(s, v as u8);
    } else {
        let w: u8 = if width > 0 {
            width - 1
        } else {
            0
        };
        push_hex(s, v / 16, w);
        push_hex_digit(s, (v % 16) as u8);
        assert(s@ =~= old(s)@ + hex_pad(v as nat, width as nat));
    }
}

/// Appends `v` in decimal, padded with zeros to at least `width` digits.
pub fn push_dec(s: &mut String, v: u16, width: u8)
    ensures
        final(s)@ == old(s)@ + dec_pad(v as nat, width as nat),
    decreases v + width,
{
    if v < 10 && width <= 1 {
        push_hex_digit(s, v as u8);
    } else {
        let w: u8 = if width > 0 {
            width - 1
        } else {
            0
        };
        push_dec(s, v / 10, w);
        push_hex_digit(s, (v % 10) as u8);
        assert(s@ =~= old(s)@ + dec_pad(v as nat, width as nat));
    }
}

/// Appends a piece of text.
pub fn push_text(s: &mut String, t: &str)
    ensures
        final(s)@ == old(s)@ + t@,
{
    s.append(t);
}

} // verus!
