use vstd::prelude::*;
use vstd::arithmetic::div_mod::{
    lemma_basic_div, lemma_div_denominator, lemma_div_multiples_vanish,
};
use vstd::arithmetic::power2::{
    lemma2_to64, lemma_pow2_adds, lemma_pow2_pos, lemma_pow2_strictly_increases, pow2,
};
use vstd::bits::{lemma_u64_shl_is_mul, lemma_u64_shr_is_div};

use crate::fit::round_div;
use crate::hexfmt::{hex_char, push_byte_hex, spec_byte_hex};

verus! {

/// Bit patterns of binary32 values in the closed unit interval [0, 1]: the
/// sign bit clear and the magnitude at most one, or negative zero.
pub open spec fn unit_bits(bits: u32) -> bool {
    ||| bits == 0x8000_0000u32
    ||| {
        let exp = (bits >> 23) & 0xff;
        let frac = bits & 0x7f_ffff;
        bits < 0x8000_0000u32 && (exp < 127 || (exp == 127 && frac == 0))
    }
}

/// round(256 * x), saturated into a byte, where x is the binary32 value the
/// bits encode. Scaling a binary float by 256 only raises the exponent, so
/// the scaled value is exactly mantissa / 2^(exponent_field - 142) and the
/// rounding (half away from zero) is exact integer arithmetic. Zero and the
/// subnormals scale to well below one half and quantize to zero.
pub open spec fn quantize_bits(bits: u32) -> u8
    recommends
        unit_bits(bits),
{
    let exp = ((bits >> 23) & 0xff) as int;
    let frac = (bits & 0x7f_ffff) as int;
    if bits == 0x8000_0000u32 || exp == 0 {
        0u8
    } else {
        let m = 0x80_0000 + frac;
        let n = round_div(m, pow2((142 - exp) as nat) as int);
        if n > 255 {
            255u8
        } else {
            n as u8
        }
    }
}

/// Quantizes one colour channel, handed over as the bit pattern of a
/// binary32 value in [0, 1], to the byte round(256 * channel), saturated
/// at 255.
pub fn quantize_channel(bits: u32) -> (r: u8)
    requires
        unit_bits(bits),
    ensures
        r == quantize_bits(bits),
{
    if bits == 0x8000_0000u32 {
        return 0;
    }
    let exp: u32 = (bits >> 23) & 0xff;
    let frac: u32 = bits & 0x7f_ffff;
    proof {
        assert((bits >> 23) & 0xff < 256 && (bits & 0x7f_ffff) < 0x80_0000) by (bit_vector);
    }
    if exp == 0 {
        return 0;
    }
    let m: u64 = 0x80_0000u64 + (frac as u64);
    if exp < 118 {
        proof {
            lemma_small_scaled_value_rounds_to_zero(m as int, (142 - exp) as nat);
        }
        return 0;
    }
    // exp is in [118, 127]: the scaled value is m / 2^shift with a shift
    // small enough to compute with machine words.
    let shift: u32 = 142 - exp;
    proof {
        lemma2_to64();
        lemma_pow2_strictly_increases((shift - 1) as nat, 24);
        lemma_pow2_pos((shift - 1) as nat);
    }
    let half: u64 = 1u64 << ((shift - 1) as u64);
    proof {
        lemma_u64_shl_is_mul(1u64, (shift - 1) as u64);
        lemma_pow2_adds(1, (shift - 1) as nat);
    }
    let n: u64 = (m + half) >> (shift as u64);
    proof {
        lemma_u64_shr_is_div((m + half) as u64, shift as u64);
        lemma_round_div_as_shifted(m as int, half as int, pow2(shift as nat) as int);
    }
    if n > 255 {
        255
    } else {
        n as u8
    }
}

/// A positive value below 2^25, divided by 2^shift for shift of at least 25,
/// rounds to zero.
proof fn lemma_small_scaled_value_rounds_to_zero(m: int, shift: nat)
    requires
        0 < m < 0x100_0000,
        25 <= shift,
    ensures
        round_div(m, pow2(shift) as int) == 0,
{
    lemma_pow2_adds(25, (shift - 25) as nat);
    lemma_pow2_pos((shift - 25) as nat);
    lemma2_to64();
    let q = pow2(shift) as int;
    assert(q >= 0x200_0000) by (nonlinear_arith)
        requires
            q == 0x200_0000 * pow2((shift - 25) as nat),
            pow2((shift - 25) as nat) >= 1,
    ;
    lemma_basic_div(2 * m + q, 2 * q);
}

/// Rounding m / q half away from zero, for q a positive even number, equals
/// (m + q / 2) / q.
proof fn lemma_round_div_as_shifted(m: int, half: int, q: int)
    requires
        0 <= m,
        1 <= half,
        q == 2 * half,
    ensures
        round_div(m, q) == (m + half) / q,
{
    assert(2 * m + q == 2 * (m + half));
    lemma_div_denominator(2 * (m + half), 2, q);
    lemma_div_multiples_vanish(m + half, 2);
}

/// The average-colour hex string: '#', then two lowercase digits for each of
/// the R, G, B and A bytes in that order.
pub open spec fn spec_rgba_hex(r: u8, g: u8, b: u8, a: u8) -> Seq<char> {
    seq!['#'] + spec_byte_hex(r) + spec_byte_hex(g) + spec_byte_hex(b) + spec_byte_hex(a)
}

/// Formats a normalized RGBA colour, each channel handed over as the bit
/// pattern of a binary32 value in [0, 1], as a lowercase "#rrggbbaa" string.
/// Each channel byte is round(256 * channel), saturated at 255; the result
/// is always exactly nine characters.
pub fn rgba_to_hex(r: u32, g: u32, b: u32, a: u32) -> (res: String)
    requires
        unit_bits(r),
        unit_bits(g),
        unit_bits(b),
        unit_bits(a),
    ensures
        res@ == spec_rgba_hex(
            quantize_bits(r),
            quantize_bits(g),
            quantize_bits(b),
            quantize_bits(a),
        ),
        res@.len() == 9,
{
    let mut s = "#".to_owned();
    proof {
        reveal_strlit("#");
    }
    push_byte_hex(&mut s, quantize_channel(r));
    push_byte_hex(&mut s, quantize_channel(g));
    push_byte_hex(&mut s, quantize_channel(b));
    push_byte_hex(&mut s, quantize_channel(a));
    proof {
        assert(s@ =~= spec_rgba_hex(
            quantize_bits(r),
            quantize_bits(g),
            quantize_bits(b),
            quantize_bits(a),
        ));
    }
    s
}

} // verus!
