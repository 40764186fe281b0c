//! Verified rendering of numbers into display text: fixed-width uppercase
//! hexadecimal for event codes and auxiliary words, and decimal for domain
//! and virtual-CPU numbers.

use vstd::prelude::*;

verus! {

/// The uppercase hexadecimal digit character for a value below 16.
pub open spec fn hex_digit(d: u32) -> char {
    if d == 0 {
        '0'
    } else if d == 1 {
        '1'
    } else if d == 2 {
        '2'
    } else if d == 3 {
        '3'
    } else if d == 4 {
        '4'
    } else if d == 5 {
        '5'
    } else if d == 6 {
        '6'
    } else if d == 7 {
        '7'
    } else if d == 8 {
        '8'
    } else if d == 9 {
        '9'
    } else if d == 10 {
        'A'
    } else if d == 11 {
        'B'
    } else if d == 12 {
        'C'
    } else if d == 13 {
        'D'
    } else if d == 14 {
        'E'
    } else {
        'F'
    }
}

/// A 32-bit value rendered as exactly 8 uppercase hexadecimal digits,
/// left-padded with zeroes.
pub open spec fn spec_hex8(v: u32) -> Seq<char> {
    seq![
        hex_digit((v >> 28) & 0xF),
        hex_digit((v >> 24) & 0xF),
        hex_digit((v >> 20) & 0xF),
        hex_digit((v >> 16) & 0xF),
        hex_digit((v >> 12) & 0xF),
        hex_digit((v >> 8) & 0xF),
        hex_digit((v >> 4) & 0xF),
        hex_digit(v & 0xF),
    ]
}

/// Masking with the low nibble always gives a value below 16.
proof fn lemma_low_nibble(x: u32)
    ensures
        x & 0xF < 16,
{
    assert(x & 0xF < 16) by (bit_vector);
}

/// The one-character string of an uppercase hexadecimal digit.
pub fn hex_digit_str(d: u32) -> (r: &'static str)
    requires
        d < 16,
    ensures
        r@ == seq![hex_digit(d)],
{
    if d == 0 {
        proof {
            reveal_strlit("0");
            assert("0"@ =~= seq![hex_digit(d)]);
        }
        "0"
    } else if d == 1 {
        proof {
            reveal_strlit("1");
            assert("1"@ =~= seq![hex_digit(d)]);
        }
        "1"
    } else if d == 2 {
        proof {
            reveal_strlit("2");
            assert("2"@ =~= seq![hex_digit(d)]);
        }
        "2"
    } else if d == 3 {
        proof {
            reveal_strlit("3");
            assert("3"@ =~= seq![hex_digit(d)]);
        }
        "3"
    } else if d == 4 {
        proof {
            reveal_strlit("4");
            assert("4"@ =~= seq![hex_digit(d)]);
        }
        "4"
    } else if d == 5 {
        proof {
            reveal_strlit("5");
            assert("5"@ =~= seq![hex_digit(d)]);
        }
        "5"
    } else if d == 6 {
        proof {
            reveal_strlit("6");
            assert("6"@ =~= seq![hex_digit(d)]);
        }
        "6"
    } else if d == 7 {
        proof {
            reveal_strlit("7");
            assert("7"@ =~= seq![hex_digit(d)]);
        }
        "7"
    } else if d == 8 {
        proof {
            reveal_strlit("8");
            assert("8"@ =~= seq![hex_digit(d)]);
        }
        "8"
    } else if d == 9 {
        proof {
            reveal_strlit("9");
            assert("9"@ =~= seq![hex_digit(d)]);
        }
        "9"
    } else if d == 10 {
        proof {
            reveal_strlit("A");
            assert("A"@ =~= seq![hex_digit(d)]);
        }
        "A"
    } else if d == 11 {
        proof {
            reveal_strlit("B");
            assert("B"@ =~= seq![hex_digit(d)]);
        }
        "B"
    } else if d == 12 {
        proof {
            reveal_strlit("C");
            assert("C"@ =~= seq![hex_digit(d)]);
        }
        "C"
    } else if d == 13 {
        proof {
            reveal_strlit("D");
            assert("D"@ =~= seq![hex_digit(d)]);
        }
        "D"
    } else if d == 14 {
        proof {
            reveal_strlit("E");
            assert("E"@ =~= seq![hex_digit(d)]);
        }
        "E"
    } else {
        proof {
            reveal_strlit("F");
            assert("F"@ =~= seq![hex_digit(d)]);
        }
        "F"
    }
}

/// Renders a 32-bit value as exactly 8 uppercase hexadecimal digits.
pub fn hex8(v: u32) -> (r: String)
    ensures
        r@ == spec_hex8(v),
{
    proof {
        lemma_low_nibble(v >> 28);
        lemma_low_nibble(v >> 24);
        lemma_low_nibble(v >> 20);
        lemma_low_nibble(v >> 16);
        lemma_low_nibble(v >> 12);
        lemma_low_nibble(v >> 8);
        lemma_low_nibble(v >> 4);
        lemma_low_nibble(v);
    }
    let mut s = String::new();
    s.append(hex_digit_str((v >> 28) & 0xF));
    s.append(hex_digit_str((v >> 24) & 0xF));
    s.append(hex_digit_str((v >> 20) & 0xF));
    s.append(hex_digit_str((v >> 16) & 0xF));
    s.append(hex_digit_str((v >> 12) & 0xF));
    s.append(hex_digit_str((v >> 8) & 0xF));
    s.append(hex_digit_str((v >> 4) & 0xF));
    s.append(hex_digit_str(v & 0xF));
    proof {
        assert(s@ =~= spec_hex8(v));
    }
    s
}

/// An auxiliary word rendered as `0x` followed by 8 uppercase hexadecimal
/// digits.
pub open spec fn spec_hex_word(v: u32) -> Seq<char> {
    "0x"@ + spec_hex8(v)
}

/// Renders an auxiliary word as `0x` followed by 8 uppercase hexadecimal
/// digits.
pub fn hex_word(v: u32) -> (r: String)
    ensures
        r@ == spec_hex_word(v),
{
    let mut s = String::new();
    s.append("0x");
    let digits = hex8(v);
    s.append(digits.as_str());
    proof {
        assert(s@ =~= spec_hex_word(v));
    }
    s
}

/// The decimal digit character for a value below 10.
pub open spec fn dec_digit(d: nat) -> char {
    if d == 0 {
        '0'
    } else if d == 1 {
        '1'
    } else if d == 2 {
        '2'
    } else if d == 3 {
        '3'
    } else if d == 4 {
        '4'
    } else if d == 5 {
        '5'
    } else if d == 6 {
        '6'
    } else if d == 7 {
        '7'
    } else if d == 8 {
        '8'
    } else {
        '9'
    }
}

/// A number rendered in decimal, most significant digit first, with no
/// leading zeroes (a lone zero for the value zero).
pub open spec fn spec_dec(n: nat) -> Seq<char>
    decreases n,
{
    if n < 10 {
        seq![dec_digit(n)]
    } else {
        spec_dec(n / 10).push(dec_digit(n % 10))
    }
}

/// The one-character string of a decimal digit.
pub fn dec_digit_str(d: u16) -> (r: &'static str)
    requires
        d < 10,
    ensures
        r@ == seq![dec_digit(d as nat)],
{
    hex_digit_str(d as u32)
}

/// Renders a 16-bit number in decimal.
pub fn u16_to_dec(n: u16) -> (r: String)
    ensures
        r@ == spec_dec(n as nat),
    decreases n,
{
    if n < 10 {
        let mut s = String::new();
        s.append(dec_digit_str(n));
        proof {
            assert(s@ =~= spec_dec(n as nat));
        }
        s
    } else {
        let mut s = u16_to_dec(n / 10);
        s.append(dec_digit_str(n % 10));
        proof {
            assert(s@ =~= spec_dec(n as nat));
        }
        s
    }
}

} // verus!
