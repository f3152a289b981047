use vstd::prelude::*;

verus! {

use vstd::arithmetic::power2::pow2;
use vstd::arithmetic::power2::lemma_pow2_adds;
use vstd::arithmetic::power2::lemma_pow2_pos;
use vstd::arithmetic::power2::lemma2_to64;
use vstd::string::StringExecFns;
use crate::num::{exp32, exp64, frac32, frac64, is_nan32, is_nan64, mag32, mag64, sign32, sign64};

// Textual forms used by the value display protocol. Integers render as
// their usual decimal digits. A number (an IEEE-754 bit pattern) renders
// as "NaN", "inf" or "-inf" for the special patterns, as exact decimal
// digits whenever its value is an integer that fits in 64 bits, and
// otherwise in the exact scaled form "<m>*2^<p>" with m odd, so that every
// finite value has one deterministic, information-preserving form.

/// The character for one decimal digit.
pub open spec fn dec_digit(d: int) -> char {
    if d == 0 {
        '0'
    } else if d == 1 {
        '1'
    } else if d == 2 {
        '2'
    } else if d == 3 {
        '3'
    } else if d == 4 {
        '4'
    } else if d == 5 {
        '5'
    } else if d == 6 {
        '6'
    } else if d == 7 {
        '7'
    } else if d == 8 {
        '8'
    } else {
        '9'
    }
}

/// The decimal digits of a natural number, most significant first.
pub open spec fn dec_digits(n: nat) -> Seq<char>
    decreases n,
{
    if n < 10 {
        seq![dec_digit(n as int)]
    } else {
        dec_digits(n / 10) + seq![dec_digit((n % 10) as int)]
    }
}

/// The decimal form of an integer: a minus sign before the digits of the
/// magnitude when it is negative.
pub open spec fn int_text(v: int) -> Seq<char> {
    if v < 0 {
        seq!['-'] + dec_digits((-v) as nat)
    } else {
        dec_digits(v as nat)
    }
}

fn digit_str(d: u64) -> (r: &'static str)
    requires
        d < 10,
    ensures
        r@ == seq![dec_digit(d as int)],
{
    if d == 0 {
        proof {
            reveal_strlit("0");
        }
        "0"
    } else if d == 1 {
        proof {
            reveal_strlit("1");
        }
        "1"
    } else if d == 2 {
        proof {
            reveal_strlit("2");
        }
        "2"
    } else if d == 3 {
        proof {
            reveal_strlit("3");
        }
        "3"
    } else if d == 4 {
        proof {
            reveal_strlit("4");
        }
        "4"
    } else if d == 5 {
        proof {
            reveal_strlit("5");
        }
        "5"
    } else if d == 6 {
        proof {
            reveal_strlit("6");
        }
        "6"
    } else if d == 7 {
        proof {
            reveal_strlit("7");
        }
        "7"
    } else if d == 8 {
        proof {
            reveal_strlit("8");
        }
        "8"
    } else {
        proof {
            reveal_strlit("9");
        }
        "9"
    }
}

/// Appends the decimal digits of `n` to `s`.
pub fn push_digits(s: &mut String, n: u64)
    ensures
        final(s)@ == old(s)@ + dec_digits(n as nat),
    decreases n,
{
    if n < 10 {
        s.append(digit_str(n));
    } else {
        push_digits(s, n / 10);
        s.append(digit_str(n % 10));
    }
}

/// The decimal form of an unsigned 64-bit integer.
pub fn u64_to_text(n: u64) -> (r: String)
    ensures
        r@ == dec_digits(n as nat),
{
    let mut s = String::new();
    push_digits(&mut s, n);
    s
}

/// Appends the decimal form of a signed integer to `s`.
pub fn push_i64(s: &mut String, v: i64)
    ensures
        final(s)@ == old(s)@ + int_text(v as int),
{
    if v < 0 {
        s.append("-");
        proof {
            reveal_strlit("-");
        }
        let mag: u64 = (-(v as i128)) as u64;
        push_digits(s, mag);
    } else {
        push_digits(s, v as u64);
    }
}

/// The decimal form of a signed 64-bit integer.
pub fn i64_to_text(v: i64) -> (r: String)
    ensures
        r@ == int_text(v as int),
{
    let mut s = String::new();
    push_i64(&mut s, v);
    s
}

/// The normalized scaled pair: factors of two move from the significand
/// into the exponent while the exponent is negative.
pub open spec fn norm_scaled(m: nat, p: int) -> (nat, int)
    decreases (if p < 0 { -p } else { 0 }),
{
    if p < 0 && m % 2 == 0 && m > 0 {
        norm_scaled(m / 2, p + 1)
    } else {
        (m, p)
    }
}

/// The text of a nonzero value m * 2^p (m > 0), after normalization:
/// plain decimal digits when the value is an integer below 2^64, and the
/// exact scaled form "<m>*2^<p>" otherwise.
pub open spec fn scaled_text(neg: bool, m: nat, p: int) -> Seq<char> {
    let mp = norm_scaled(m, p);
    let sign_txt: Seq<char> = if neg {
        seq!['-']
    } else {
        Seq::empty()
    };
    if mp.1 >= 0 && mp.0 * pow2(mp.1 as nat) < 0x1_0000_0000_0000_0000 {
        sign_txt + dec_digits(mp.0 * pow2(mp.1 as nat))
    } else {
        sign_txt + dec_digits(mp.0) + seq!['*', '2', '^'] + int_text(mp.1)
    }
}

/// The significand of a finite 64-bit pattern, with the hidden bit made
/// explicit for normal values.
pub open spec fn sig64(b: u64) -> nat {
    if exp64(b) == 0 {
        frac64(b) as nat
    } else {
        frac64(b) as nat + 0x10_0000_0000_0000
    }
}

/// The power-of-two exponent of a finite 64-bit pattern, such that its
/// value is sig64(b) * 2^pexp64(b).
pub open spec fn pexp64(b: u64) -> int {
    if exp64(b) == 0 {
        -1074
    } else {
        exp64(b) - 1075
    }
}

/// The significand of a finite 32-bit pattern.
pub open spec fn sig32(b: u32) -> nat {
    if exp32(b) == 0 {
        frac32(b) as nat
    } else {
        frac32(b) as nat + 0x80_0000
    }
}

/// The power-of-two exponent of a finite 32-bit pattern.
pub open spec fn pexp32(b: u32) -> int {
    if exp32(b) == 0 {
        -149
    } else {
        exp32(b) - 150
    }
}

/// The textual form of a number carried as a 64-bit pattern.
pub open spec fn number_text(b: u64) -> Seq<char> {
    if is_nan64(b) {
        "NaN"@
    } else if exp64(b) == 0x7FF {
        if sign64(b) {
            "-inf"@
        } else {
            "inf"@
        }
    } else if mag64(b) == 0 {
        if sign64(b) {
            "-0"@
        } else {
            "0"@
        }
    } else {
        scaled_text(sign64(b), sig64(b), pexp64(b))
    }
}

/// The textual form of a Vec4 component carried as a 32-bit pattern.
pub open spec fn component_text(b: u32) -> Seq<char> {
    if is_nan32(b) {
        "NaN"@
    } else if exp32(b) == 0xFF {
        if sign32(b) {
            "-inf"@
        } else {
            "inf"@
        }
    } else if mag32(b) == 0 {
        if sign32(b) {
            "-0"@
        } else {
            "0"@
        }
    } else {
        scaled_text(sign32(b), sig32(b), pexp32(b))
    }
}

fn push_scaled(s: &mut String, neg: bool, m0: u64, p0: i32)
    requires
        m0 > 0,
        -1100 <= p0 <= 1100,
    ensures
        final(s)@ == old(s)@ + scaled_text(neg, m0 as nat, p0 as int),
{
    let mut m: u64 = m0;
    let mut p: i32 = p0;
    while p < 0 && m % 2 == 0
        invariant
            m > 0,
            -1100 <= p <= 1100,
            norm_scaled(m0 as nat, p0 as int) == norm_scaled(m as nat, p as int),
        decreases 0 - p,
    {
        m = m / 2;
        p = p + 1;
    }
    proof {
        assert(norm_scaled(m as nat, p as int) == (m as nat, p as int));
    }
    if neg {
        s.append("-");
        proof {
            reveal_strlit("-");
        }
    }
    if p >= 0 {
        // Try to take the factor 2^p into the significand without overflow.
        let mut acc: u64 = m;
        let mut q: i32 = p;
        while q > 0 && acc <= 0x7FFF_FFFF_FFFF_FFFF
            invariant
                0 <= q <= p,
                acc > 0,
                acc as nat * pow2(q as nat) == m as nat * pow2(p as nat),
            decreases q,
        {
            proof {
                lemma_pow2_adds(1, (q - 1) as nat);
                lemma2_to64();
                assert((2 * acc) as nat * pow2((q - 1) as nat) == acc as nat * pow2(q as nat))
                    by (nonlinear_arith)
                    requires
                        pow2(q as nat) == 2 * pow2((q - 1) as nat),
                        acc > 0,
                ;
            }
            acc = acc * 2;
            q = q - 1;
        }
        if q == 0 {
            proof {
                lemma2_to64();
                assert(acc as nat * 1 == acc as nat) by (nonlinear_arith);
            }
            push_digits(s, acc);
            return ;
        }
        // The doubled significand already exceeds the 64-bit range, so the
        // value cannot be shown as a plain integer.
        proof {
            lemma_pow2_adds(1, (q - 1) as nat);
            lemma2_to64();
            lemma_pow2_pos((q - 1) as nat);
            assert(acc as nat * pow2(q as nat) >= 0x1_0000_0000_0000_0000) by (nonlinear_arith)
                requires
                    acc > 0x7FFF_FFFF_FFFF_FFFF,
                    pow2(q as nat) == 2 * pow2((q - 1) as nat),
                    pow2((q - 1) as nat) >= 1,
            ;
        }
        push_digits(s, m);
        s.append("*2^");
        proof {
            reveal_strlit("*2^");
            assert(seq!['*', '2', '^'] =~= "*2^"@);
        }
        push_i64(s, p as i64);
    } else {
        push_digits(s, m);
        s.append("*2^");
        proof {
            reveal_strlit("*2^");
            assert(seq!['*', '2', '^'] =~= "*2^"@);
        }
        push_i64(s, p as i64);
    }
}

/// The textual form of a number, built from its 64-bit pattern.
pub fn number_to_text(b: u64) -> (r: String)
    ensures
        r@ == number_text(b),
{
    let mut s = String::new();
    let mag: u64 = b % 0x8000_0000_0000_0000;
    let exp: u64 = mag / 0x10_0000_0000_0000;
    let frac: u64 = b % 0x10_0000_0000_0000;
    let neg: bool = b / 0x8000_0000_0000_0000 == 1;
    if exp == 0x7FF && frac != 0 {
        s.append("NaN");
        return s;
    }
    if exp == 0x7FF {
        if neg {
            s.append("-inf");
        } else {
            s.append("inf");
        }
        return s;
    }
    if mag == 0 {
        if neg {
            s.append("-0");
        } else {
            s.append("0");
        }
        return s;
    }
    let m: u64 = if exp == 0 {
        frac
    } else {
        frac + 0x10_0000_0000_0000
    };
    let p: i32 = if exp == 0 {
        -1074
    } else {
        (exp as i32) - 1075
    };
    push_scaled(&mut s, neg, m, p);
    s
}

/// The textual form of a Vec4 component, built from its 32-bit pattern.
pub fn component_to_text(b: u32) -> (r: String)
    ensures
        r@ == component_text(b),
{
    let mut s = String::new();
    let mag: u32 = b % 0x8000_0000;
    let exp: u32 = mag / 0x80_0000;
    let frac: u32 = b % 0x80_0000;
    let neg: bool = b / 0x8000_0000 == 1;
    if exp == 0xFF && frac != 0 {
        s.append("NaN");
        return s;
    }
    if exp == 0xFF {
        if neg {
            s.append("-inf");
        } else {
            s.append("inf");
        }
        return s;
    }
    if mag == 0 {
        if neg {
            s.append("-0");
        } else {
            s.append("0");
        }
        return s;
    }
    let m: u32 = if exp == 0 {
        frac
    } else {
        frac + 0x80_0000
    };
    let p: i32 = if exp == 0 {
        -149
    } else {
        (exp as i32) - 150
    };
    push_scaled(&mut s, neg, m as u64, p);
    s
}


/// A decimal form has at least one digit, and at least two for a number of
/// ten or more.
pub proof fn lemma_dec_digits_len(n: nat)
    ensures
        dec_digits(n).len() >= 1,
        n >= 10 ==> dec_digits(n).len() >= 2,
    decreases n,
{
    if n >= 10 {
        lemma_dec_digits_len(n / 10);
    }
}

/// Two different numbers have different decimal forms.
pub proof fn lemma_dec_digits_injective(m: nat, n: nat)
    requires
        dec_digits(m) == dec_digits(n),
    ensures
        m == n,
    decreases m,
{
    lemma_dec_digits_len(m);
    lemma_dec_digits_len(n);
    if m < 10 && n < 10 {
        assert(dec_digits(m) == seq![dec_digit(m as int)]);
        assert(dec_digits(n) == seq![dec_digit(n as int)]);
        assert(dec_digit(m as int) == dec_digits(m)[0]);
        assert(dec_digit(n as int) == dec_digits(n)[0]);
        assert(dec_digit(m as int) == dec_digit(n as int));
    } else if m < 10 || n < 10 {
        // One form has one digit, the other at least two.
        assert(dec_digits(m).len() == dec_digits(n).len());
        assert(m < 10 ==> dec_digits(m).len() == 1);
        assert(n < 10 ==> dec_digits(n).len() == 1);
        assert(m >= 10 ==> dec_digits(m).len() >= 2);
        assert(n >= 10 ==> dec_digits(n).len() >= 2);
        assert(false);
    } else {
        let fore_m = dec_digits(m / 10);
        let fore_n = dec_digits(n / 10);
        assert(dec_digits(m).len() == fore_m.len() + 1);
        assert(dec_digits(n).len() == fore_n.len() + 1);
        assert forall|i: int| 0 <= i < fore_m.len() implies fore_m[i] == fore_n[i] by {
            assert(fore_m[i] == dec_digits(m)[i]);
            assert(fore_n[i] == dec_digits(n)[i]);
        }
        assert(fore_m =~= fore_n);
        lemma_dec_digits_injective(m / 10, n / 10);
        assert(dec_digits(m)[fore_m.len() as int] == dec_digit((m % 10) as int));
        assert(dec_digits(n)[fore_n.len() as int] == dec_digit((n % 10) as int));
    }
}

} // verus!
