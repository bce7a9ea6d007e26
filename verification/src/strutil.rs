use vstd::prelude::*;

verus! {

// ---------------------------------------------------------------------------
// Equality of string slices.
// ---------------------------------------------------------------------------

/// Exact character-sequence equality of two string slices.
pub fn str_eq(a: &str, b: &str) -> (r: bool)
    ensures
        r == (a@ == b@),
{
    String::from_str(a) == String::from_str(b)
}

// ---------------------------------------------------------------------------
// Decimal formatting.
// ---------------------------------------------------------------------------

/// The character for one decimal digit.
pub open spec fn dec_digit(d: int) -> char {
    if d == 0 {
        '0'
    } else if d == 1 {
        '1'
    } else if d == 2 {
        '2'
    } else if d == 3 {
        '3'
    } else if d == 4 {
        '4'
    } else if d == 5 {
        '5'
    } else if d == 6 {
        '6'
    } else if d == 7 {
        '7'
    } else if d == 8 {
        '8'
    } else {
        '9'
    }
}

/// The decimal digits of a non-negative number, most significant first.
pub open spec fn dec_seq(n: int) -> Seq<char>
    decreases n,
{
    if n < 10 {
        seq![dec_digit(n)]
    } else {
        dec_seq(n / 10).push(dec_digit(n % 10))
    }
}

/// The decimal rendering of a possibly negative number, with a leading '-'.
pub open spec fn dec_seq_signed(n: int) -> Seq<char> {
    if n >= 0 {
        dec_seq(n)
    } else {
        seq!['-'] + dec_seq(-n)
    }
}

fn append_dec_digit(s: &mut String, d: u64)
    requires
        d < 10,
    ensures
        final(s)@ == old(s)@ + seq![dec_digit(d as int)],
{
    if d == 0 {
        s.append("0");
        proof {
            reveal_strlit("0");
            assert(s@ =~= old(s)@ + seq![dec_digit(d as int)]);
        }
    } else if d == 1 {
        s.append("1");
        proof {
            reveal_strlit("1");
            assert(s@ =~= old(s)@ + seq![dec_digit(d as int)]);
        }
    } else if d == 2 {
        s.append("2");
        proof {
            reveal_strlit("2");
            assert(s@ =~= old(s)@ + seq![dec_digit(d as int)]);
        }
    } else if d == 3 {
        s.append("3");
        proof {
            reveal_strlit("3");
            assert(s@ =~= old(s)@ + seq![dec_digit(d as int)]);
        }
    } else if d == 4 {
        s.append("4");
        proof {
            reveal_strlit("4");
            assert(s@ =~= old(s)@ + seq![dec_digit(d as int)]);
        }
    } else if d == 5 {
        s.append("5");
        proof {
            reveal_strlit("5");
            assert(s@ =~= old(s)@ + seq![dec_digit(d as int)]);
        }
    } else if d == 6 {
        s.append("6");
        proof {
            reveal_strlit("6");
            assert(s@ =~= old(s)@ + seq![dec_digit(d as int)]);
        }
    } else if d == 7 {
        s.append("7");
        proof {
            reveal_strlit("7");
            assert(s@ =~= old(s)@ + seq![dec_digit(d as int)]);
        }
    } else if d == 8 {
        s.append("8");
        proof {
            reveal_strlit("8");
            assert(s@ =~= old(s)@ + seq![dec_digit(d as int)]);
        }
    } else {
        s.append("9");
        proof {
            reveal_strlit("9");
            assert(s@ =~= old(s)@ + seq![dec_digit(d as int)]);
        }
    }
}

/// Appends the decimal form of `n` to `s`.
pub fn push_dec_u64(s: &mut String, n: u64)
    ensures
        final(s)@ == old(s)@ + dec_seq(n as int),
    decreases n,
{
    if n < 10 {
        append_dec_digit(s, n);
    } else {
        push_dec_u64(s, n / 10);
        append_dec_digit(s, n % 10);
        proof {
            assert(s@ =~= old(s)@ + dec_seq(n as int));
        }
    }
}

/// Appends the signed decimal form of `n` to `s`.
pub fn push_dec_i32(s: &mut String, n: i32)
    ensures
        final(s)@ == old(s)@ + dec_seq_signed(n as int),
{
    if n < 0 {
        let m: i64 = -(n as i64);
        s.append("-");
        proof {
            reveal_strlit("-");
        }
        push_dec_u64(s, m as u64);
        proof {
            assert(s@ =~= old(s)@ + dec_seq_signed(n as int));
        }
    } else {
        push_dec_u64(s, n as u64);
    }
}

// ---------------------------------------------------------------------------
// Lower-case hexadecimal formatting.
// ---------------------------------------------------------------------------

/// The character for one lower-case hexadecimal digit.
pub open spec fn hex_digit(d: int) -> char {
    if d < 10 {
        dec_digit(d)
    } else if d == 10 {
        'a'
    } else if d == 11 {
        'b'
    } else if d == 12 {
        'c'
    } else if d == 13 {
        'd'
    } else if d == 14 {
        'e'
    } else {
        'f'
    }
}

/// The hexadecimal digits of a non-negative number, most significant first.
pub open spec fn hex_seq(n: int) -> Seq<char>
    decreases n,
{
    if n < 16 {
        seq![hex_digit(n)]
    } else {
        hex_seq(n / 16).push(hex_digit(n % 16))
    }
}

/// The hexadecimal form of `n`, zero-padded on the left to at least four
/// digits.
pub open spec fn hex4_seq(n: int) -> Seq<char> {
    if n < 0x10 {
        seq![dec_digit(0), dec_digit(0), dec_digit(0)] + hex_seq(n)
    } else if n < 0x100 {
        seq![dec_digit(0), dec_digit(0)] + hex_seq(n)
    } else if n < 0x1000 {
        seq![dec_digit(0)] + hex_seq(n)
    } else {
        hex_seq(n)
    }
}

pub(crate) fn append_hex_digit(s: &mut String, d: u64)
    requires
        d < 16,
    ensures
        final(s)@ == old(s)@ + seq![hex_digit(d as int)],
{
    if d < 10 {
        append_dec_digit(s, d);
    } else if d == 10 {
        s.append("a");
        proof {
            reveal_strlit("a");
            assert(s@ =~= old(s)@ + seq![hex_digit(d as int)]);
        }
    } else if d == 11 {
        s.append("b");
        proof {
            reveal_strlit("b");
            assert(s@ =~= old(s)@ + seq![hex_digit(d as int)]);
        }
    } else if d == 12 {
        s.append("c");
        proof {
            reveal_strlit("c");
            assert(s@ =~= old(s)@ + seq![hex_digit(d as int)]);
        }
    } else if d == 13 {
        s.append("d");
        proof {
            reveal_strlit("d");
            assert(s@ =~= old(s)@ + seq![hex_digit(d as int)]);
        }
    } else if d == 14 {
        s.append("e");
        proof {
            reveal_strlit("e");
            assert(s@ =~= old(s)@ + seq![hex_digit(d as int)]);
        }
    } else {
        s.append("f");
        proof {
            reveal_strlit("f");
            assert(s@ =~= old(s)@ + seq![hex_digit(d as int)]);
        }
    }
}

fn push_hex_u64(s: &mut String, n: u64)
    ensures
        final(s)@ == old(s)@ + hex_seq(n as int),
    decreases n,
{
    if n < 16 {
        append_hex_digit(s, n);
    } else {
        push_hex_u64(s, n / 16);
        append_hex_digit(s, n % 16);
        proof {
            assert(s@ =~= old(s)@ + hex_seq(n as int));
        }
    }
}

/// Appends the hexadecimal form of `v`, zero-padded to at least four digits.
pub fn push_hex4_u32(s: &mut String, v: u32)
    ensures
        final(s)@ == old(s)@ + hex4_seq(v as int),
{
    if v < 0x10 {
        s.append("000");
        proof {
            reveal_strlit("000");
        }
        push_hex_u64(s, v as u64);
        proof {
            assert("000"@ =~= seq![dec_digit(0), dec_digit(0), dec_digit(0)]);
            assert(s@ =~= old(s)@ + hex4_seq(v as int));
        }
    } else if v < 0x100 {
        s.append("00");
        proof {
            reveal_strlit("00");
        }
        push_hex_u64(s, v as u64);
        proof {
            assert("00"@ =~= seq![dec_digit(0), dec_digit(0)]);
            assert(s@ =~= old(s)@ + hex4_seq(v as int));
        }
    } else if v < 0x1000 {
        s.append("0");
        proof {
            reveal_strlit("0");
        }
        push_hex_u64(s, v as u64);
        proof {
            assert("0"@ =~= seq![dec_digit(0)]);
            assert(s@ =~= old(s)@ + hex4_seq(v as int));
        }
    } else {
        push_hex_u64(s, v as u64);
    }
}

/// The bit pattern of an `i32`, read as an unsigned number.
pub open spec fn u32_bits_of_i32(n: int) -> int {
    if n >= 0 {
        n
    } else {
        n + 0x1_0000_0000
    }
}

/// The bit pattern of `n` as a `u32`, as `{:x}` formatting reads it.
pub fn i32_bits_to_u32(n: i32) -> (v: u32)
    ensures
        v as int == u32_bits_of_i32(n as int),
{
    if n >= 0 {
        n as u32
    } else {
        let wide: i64 = 0x1_0000_0000i64 + (n as i64);
        wide as u32
    }
}

} // verus!
