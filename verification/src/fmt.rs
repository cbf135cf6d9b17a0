//! Text rendering of numbers and flags, as `{}` / `{:x}` print them.

use vstd::prelude::*;
use vstd::string::*;

verus! {

/// The character of a digit value below 16 (lower-case hex letters).
pub open spec fn digit_char(d: nat) -> char {
    if d < 10 {
        ((48 + d) as u32) as char
    } else {
        ((87 + d) as u32) as char
    }
}

/// The digits of `v` in base `base`, most significant first, without
/// leading zeros (`0` is a single digit).
pub open spec fn spec_digits(v: nat, base: nat) -> Seq<char>
    recommends
        base >= 2,
    decreases v,
    when base >= 2
{
    if v < base {
        seq![digit_char(v)]
    } else {
        proof {
            assert(v / base < v) by (nonlinear_arith)
                requires
                    base >= 2,
                    v >= base,
            ;
        }
        spec_digits(v / base, base) + seq![digit_char(v % base)]
    }
}

/// `true` / `false`.
pub open spec fn spec_bool_text(b: bool) -> Seq<char> {
    if b {
        "true"@
    } else {
        "false"@
    }
}

fn digit_str(d: u64) -> (s: &'static str)
    requires
        d < 16,
    ensures
        s@ == seq![digit_char(d as nat)],
{
    proof {
        reveal_strlit("0");
        reveal_strlit("1");
        reveal_strlit("2");
        reveal_strlit("3");
        reveal_strlit("4");
        reveal_strlit("5");
        reveal_strlit("6");
        reveal_strlit("7");
        reveal_strlit("8");
        reveal_strlit("9");
        reveal_strlit("a");
        reveal_strlit("b");
        reveal_strlit("c");
        reveal_strlit("d");
        reveal_strlit("e");
        reveal_strlit("f");
    }
    let s = match d {
        0 => "0",
        1 => "1",
        2 => "2",
        3 => "3",
        4 => "4",
        5 => "5",
        6 => "6",
        7 => "7",
        8 => "8",
        9 => "9",
        10 => "a",
        11 => "b",
        12 => "c",
        13 => "d",
        14 => "e",
        _ => "f",
    };
    assert(s@ =~= seq![digit_char(d as nat)]);
    s
}

/// Append the digits of `v` in base `base` (10 or 16) to `out`.
pub fn push_digits(out: &mut String, v: u64, base: u64)
    requires
        base == 10 || base == 16,
    ensures
        final(out)@ == old(out)@ + spec_digits(v as nat, base as nat),
    decreases v,
{
    if v < base {
        out.append(digit_str(v));
    } else {
        push_digits(out, v / base, base);
        out.append(digit_str(v % base));
        assert(final(out)@ =~= old(out)@ + spec_digits(v as nat, base as nat));
    }
}

/// `v` in decimal.
pub fn decimal_string(v: u64) -> (s: String)
    ensures
        s@ == spec_digits(v as nat, 10),
{
    let mut s = String::new();
    push_digits(&mut s, v, 10);
    assert(s@ =~= spec_digits(v as nat, 10));
    s
}

/// `v` in lower-case hexadecimal, without prefix.
pub fn hex_string(v: u64) -> (s: String)
    ensures
        s@ == spec_digits(v as nat, 16),
{
    let mut s = String::new();
    push_digits(&mut s, v, 16);
    assert(s@ =~= spec_digits(v as nat, 16));
    s
}

/// Append `true` or `false` to `out`.
pub fn push_bool(out: &mut String, b: bool)
    ensures
        final(out)@ == old(out)@ + spec_bool_text(b),
{
    if b {
        out.append("true");
    } else {
        out.append("false");
    }
}

/// `digits` left-padded with `0` to `width` characters.
pub open spec fn spec_zero_pad(digits: Seq<char>, width: nat) -> Seq<char> {
    if digits.len() < width {
        Seq::new((width - digits.len()) as nat, |i: int| '0') + digits
    } else {
        digits
    }
}

/// Append `v` in lower-case hexadecimal, zero-padded to `width` digits
/// (as `{:0width$x}` prints it).
pub fn push_hex_padded(out: &mut String, v: u64, width: usize)
    ensures
        final(out)@ == old(out)@ + spec_zero_pad(spec_digits(v as nat, 16), width as nat),
{
    let digits = hex_string(v);
    let n = digits.as_str().unicode_len();
    proof {
        reveal_strlit("0");
    }
    let mut i: usize = n;
    while i < width
        invariant
            n == digits@.len(),
            n <= i <= width || (width < n && i == n),
            zeros_appended(out@, old(out)@, (i - n) as nat),
        decreases width - i,
    {
        proof {
            reveal_strlit("0");
        }
        let ghost before = out@;
        out.append("0");
        assert(out@ =~= old(out)@ + Seq::new((i + 1 - n) as nat, |k: int| '0')) by {
            assert(before == old(out)@ + Seq::new((i - n) as nat, |k: int| '0'));
        }
        i = i + 1;
    }
    out.append(digits.as_str());
    proof {
        let pad = if n < width { (width - n) as nat } else { 0nat };
        assert(Seq::new(pad, |k: int| '0') =~= Seq::new(pad, |k: int| '0'));
        if n < width {
            assert(out@ =~= old(out)@ + (Seq::new(pad, |k: int| '0') + digits@));
        } else {
            assert(out@ =~= old(out)@ + digits@);
        }
    }
}

/// `out` is `before` followed by `k` zeros.
pub open spec fn zeros_appended(out: Seq<char>, before: Seq<char>, k: nat) -> bool {
    out == before + Seq::new(k, |i: int| '0')
}

/// A signed value in decimal, with a leading `-` when negative.
pub open spec fn spec_signed(v: int) -> Seq<char> {
    if v < 0 {
        seq!['-'] + spec_digits((-v) as nat, 10)
    } else {
        spec_digits(v as nat, 10)
    }
}

/// Append `v` in decimal (as `{}` prints an `i64`).
pub fn push_signed(out: &mut String, v: i64)
    ensures
        final(out)@ == old(out)@ + spec_signed(v as int),
{
    if v < 0 {
        proof {
            reveal_strlit("-");
        }
        out.append("-");
        let mag: i128 = 0i128 - (v as i128);
        push_digits(out, mag as u64, 10);
        assert(final(out)@ =~= old(out)@ + spec_signed(v as int));
    } else {
        push_digits(out, v as u64, 10);
    }
}

} // verus!
