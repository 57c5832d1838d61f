use vstd::prelude::*;
use vstd::arithmetic::div_mod::{lemma_div_multiples_vanish_fancy, lemma_fundamental_div_mod};
use vstd::string::StrSliceExecFns;

verus! {

/// Policy for fitting an image into a target box when both a target width and
/// a target height are given.
#[derive(Clone, Copy, Debug, PartialEq, Eq, Structural)]
pub enum FitMode {
    /// Fill the whole box exactly; the calculator returns the box dimensions.
    /// This is the default, and what the token "clip" also selects.
    Cover,
    /// Largest size that fits entirely inside the box, keeping the aspect ratio.
    Contain,
    /// Exactly the box dimensions, distortion permitted.
    Fill,
    /// Like Contain, but never upscales beyond the input's own size.
    ScaleDown,
}

/// Rounds the rational p / q half away from zero, for q >= 1 and p >= 0.
pub open spec fn round_div(p: int, q: int) -> int
    recommends
        1 <= q,
        0 <= p,
{
    (2 * p + q) / (2 * q)
}

/// Pins a computed dimension into the representable range: never zero, and
/// saturating at the largest expressible pixel count.
pub open spec fn clamp_dim(x: int) -> int {
    if x < 1 {
        1
    } else if x > u32::MAX {
        u32::MAX as int
    } else {
        x
    }
}

/// The dimension derived from a set target by preserving the input aspect
/// ratio: round(target * input_other / input_this), floored at one pixel.
pub open spec fn derived_dim(target: int, other_in: int, this_in: int) -> int
    recommends
        1 <= this_in,
        0 <= target,
        0 <= other_in,
{
    clamp_dim(round_div(target * other_in, this_in))
}

/// Dimensions of the largest image with the input's aspect ratio that fits
/// inside the target box.
pub open spec fn spec_contain(iw: int, ih: int, tw: int, th: int) -> (int, int)
    recommends
        1 <= iw,
        1 <= ih,
{
    if tw * ih <= th * iw {
        (clamp_dim(tw), derived_dim(tw, ih, iw))
    } else {
        (derived_dim(th, iw, ih), clamp_dim(th))
    }
}

/// The output dimensions of the fit calculator, as a function of the input
/// size, the optional targets, and the fit mode.
pub open spec fn spec_dimensions(
    iw: int,
    ih: int,
    tw: Option<u32>,
    th: Option<u32>,
    fit: FitMode,
) -> (int, int)
    recommends
        1 <= iw,
        1 <= ih,
{
    match (tw, th) {
        (None, None) => (iw, ih),
        (Some(w), None) => (clamp_dim(w as int), derived_dim(w as int, ih, iw)),
        (None, Some(h)) => (derived_dim(h as int, iw, ih), clamp_dim(h as int)),
        (Some(w), Some(h)) => match fit {
            FitMode::Cover => (clamp_dim(w as int), clamp_dim(h as int)),
            FitMode::Fill => (clamp_dim(w as int), clamp_dim(h as int)),
            FitMode::Contain => spec_contain(iw, ih, w as int, h as int),
            FitMode::ScaleDown => if iw <= w as int && ih <= h as int {
                (iw, ih)
            } else {
                spec_contain(iw, ih, w as int, h as int)
            },
        },
    }
}

/// round(target * num / den) with the round-half-away-from-zero convention,
/// clamped into the representable dimension range.
fn derived_dimension(target: u32, num: u32, den: u32) -> (r: u32)
    requires
        1 <= den,
    ensures
        r as int == derived_dim(target as int, num as int, den as int),
{
    proof {
        lemma_u32_mul_fits_u64(target as int, num as int);
    }
    let p: u64 = (target as u64) * (num as u64);
    let d: u64 = den as u64;
    let q: u64 = p / d;
    let rem: u64 = p % d;
    proof {
        lemma_fundamental_div_mod(p as int, d as int);
        vstd::arithmetic::div_mod::lemma_div_nonincreasing(p as int, d as int);
    }
    let rounded: u64 = if 2 * rem >= d {
        q + 1
    } else {
        q
    };
    proof {
        lemma_round_div_from_quot_rem(p as int, d as int, q as int, rem as int);
    }
    if rounded == 0 {
        1
    } else if rounded > 0xffff_ffff {
        u32::MAX
    } else {
        rounded as u32
    }
}

/// The product of two values below 2^32 fits in a u64.
proof fn lemma_u32_mul_fits_u64(a: int, b: int)
    requires
        0 <= a <= u32::MAX,
        0 <= b <= u32::MAX,
    ensures
        0 <= a * b < u64::MAX,
{
    assert(a * b <= 0xffff_ffff * 0xffff_ffff) by (nonlinear_arith)
        requires
            0 <= a <= 0xffff_ffff,
            0 <= b <= 0xffff_ffff,
    ;
}

/// round_div agrees with the quotient-and-remainder computation the exec code
/// performs: the quotient, plus one when twice the remainder reaches the
/// divisor.
proof fn lemma_round_div_from_quot_rem(p: int, d: int, q: int, rem: int)
    requires
        1 <= d,
        0 <= p,
        p == d * q + rem,
        0 <= rem < d,
    ensures
        round_div(p, d) == if 2 * rem >= d {
            q + 1
        } else {
            q
        },
{
    if 2 * rem >= d {
        assert(2 * p + d == (2 * d) * (q + 1) + (2 * rem - d)) by (nonlinear_arith)
            requires
                p == d * q + rem,
        ;
        lemma_div_multiples_vanish_fancy(q + 1, 2 * rem - d, 2 * d);
    } else {
        assert(2 * p + d == (2 * d) * q + (2 * rem + d)) by (nonlinear_arith)
            requires
                p == d * q + rem,
        ;
        lemma_div_multiples_vanish_fancy(q, 2 * rem + d, 2 * d);
    }
}

/// Contain placement: the side whose scale factor is the smaller one takes the
/// target value, the other side is derived from the aspect ratio.
fn contain_dimensions(iw: u32, ih: u32, tw: u32, th: u32) -> (r: (u32, u32))
    requires
        1 <= iw,
        1 <= ih,
    ensures
        (r.0 as int, r.1 as int) == spec_contain(iw as int, ih as int, tw as int, th as int),
{
    proof {
        lemma_u32_mul_fits_u64(tw as int, ih as int);
        lemma_u32_mul_fits_u64(th as int, iw as int);
    }
    let a: u64 = (tw as u64) * (ih as u64);
    let b: u64 = (th as u64) * (iw as u64);
    if a <= b {
        let w: u32 = if tw == 0 {
            1
        } else {
            tw
        };
        (w, derived_dimension(tw, ih, iw))
    } else {
        let h: u32 = if th == 0 {
            1
        } else {
            th
        };
        (derived_dimension(th, iw, ih), h)
    }
}

/// Maps an input image size and an optional target box with a fit mode to the
/// concrete output dimensions. Pure and total: there is no error case, and the
/// output is never zero in either dimension.
pub fn compute_dimensions(
    input_width: u32,
    input_height: u32,
    target_width: Option<u32>,
    target_height: Option<u32>,
    fit: FitMode,
) -> (r: (u32, u32))
    requires
        1 <= input_width,
        1 <= input_height,
    ensures
        (r.0 as int, r.1 as int) == spec_dimensions(
            input_width as int,
            input_height as int,
            target_width,
            target_height,
            fit,
        ),
        1 <= r.0,
        1 <= r.1,
{
    match (target_width, target_height) {
        (None, None) => (input_width, input_height),
        (Some(w), None) => {
            let out_w: u32 = if w == 0 {
                1
            } else {
                w
            };
            (out_w, derived_dimension(w, input_height, input_width))
        },
        (None, Some(h)) => {
            let out_h: u32 = if h == 0 {
                1
            } else {
                h
            };
            (derived_dimension(h, input_width, input_height), out_h)
        },
        (Some(w), Some(h)) => {
            match fit {
                FitMode::Cover | FitMode::Fill => {
                    let out_w: u32 = if w == 0 {
                        1
                    } else {
                        w
                    };
                    let out_h: u32 = if h == 0 {
                        1
                    } else {
                        h
                    };
                    (out_w, out_h)
                },
                FitMode::Contain => contain_dimensions(input_width, input_height, w, h),
                FitMode::ScaleDown => {
                    if input_width <= w && input_height <= h {
                        (input_width, input_height)
                    } else {
                        contain_dimensions(input_width, input_height, w, h)
                    }
                },
            }
        },
    }
}

/// Character-for-character string equality, decided against the string views.
pub fn str_eq(a: &str, b: &str) -> (r: bool)
    ensures
        r == (a@ == b@),
{
    let a_len = a.unicode_len();
    let b_len = b.unicode_len();
    if a_len != b_len {
        return false;
    }
    let mut i: usize = 0;
    while i < a_len
        invariant
            0 <= i <= a_len,
            a_len == a@.len(),
            a_len == b@.len(),
            forall|j: int| 0 <= j < i ==> a@[j] == b@[j],
        decreases a_len - i,
    {
        if a.get_char(i) != b.get_char(i) {
            return false;
        }
        i += 1;
    }
    proof {
        assert(a@ =~= b@);
    }
    true
}

/// The view of an optional token.
pub open spec fn option_str_view(fit: Option<&str>) -> Option<Seq<char>> {
    match fit {
        None => None,
        Some(s) => Some(s@),
    }
}

/// The fit mode a token selects. Absent or unrecognised tokens fall back to
/// the default, Cover.
pub open spec fn spec_fit_mode(fit: Option<Seq<char>>) -> FitMode {
    match fit {
        None => FitMode::Cover,
        Some(t) => if t == "cover"@ || t == "clip"@ {
            FitMode::Cover
        } else if t == "contain"@ {
            FitMode::Contain
        } else if t == "fill"@ {
            FitMode::Fill
        } else if t == "scale-down"@ {
            FitMode::ScaleDown
        } else {
            FitMode::Cover
        },
    }
}

/// Turns an optional fit-mode token into the closed mode set. Malformed
/// tokens degrade to the default rather than failing.
pub fn parse_fit_mode(fit: Option<&str>) -> (r: FitMode)
    ensures
        r == spec_fit_mode(option_str_view(fit)),
{
    match fit {
        None => FitMode::Cover,
        Some(s) => {
            if str_eq(s, "cover") || str_eq(s, "clip") {
                FitMode::Cover
            } else if str_eq(s, "contain") {
                FitMode::Contain
            } else if str_eq(s, "fill") {
                FitMode::Fill
            } else if str_eq(s, "scale-down") {
                FitMode::ScaleDown
            } else {
                FitMode::Cover
            }
        },
    }
}

/// Law: when only the width target is set, the derived height keeps the input
/// aspect ratio to within half a pixel: |out_h - tw * ih / iw| <= 1/2, stated
/// without fractions. The clamp cases are excluded: a derived value that
/// rounds below one pixel or above the representable range is pinned instead.
pub proof fn lemma_width_target_preserves_aspect(iw: u32, ih: u32, tw: u32, fit: FitMode)
    requires
        1 <= iw,
        1 <= ih,
        1 <= tw,
        1 <= round_div(tw as int * ih as int, iw as int) <= u32::MAX,
    ensures
        ({
            let dims = spec_dimensions(iw as int, ih as int, Some(tw), None, fit);
            &&& dims.0 == tw as int
            &&& -(iw as int) < 2 * (dims.1 * iw - tw * ih) <= iw as int
        }),
{
    lemma_round_div_close(tw as int * ih as int, iw as int);
    assert(2 * (round_div(tw as int * ih as int, iw as int) * iw - tw as int * ih) == 2 * (
    round_div(tw as int * ih as int, iw as int) * iw) - 2 * (tw as int * ih as int))
        by (nonlinear_arith);
}

/// Law: when only the height target is set, the derived width keeps the input
/// aspect ratio to within half a pixel, under the same clamp exclusions.
pub proof fn lemma_height_target_preserves_aspect(iw: u32, ih: u32, th: u32, fit: FitMode)
    requires
        1 <= iw,
        1 <= ih,
        1 <= th,
        1 <= round_div(th as int * iw as int, ih as int) <= u32::MAX,
    ensures
        ({
            let dims = spec_dimensions(iw as int, ih as int, None, Some(th), fit);
            &&& dims.1 == th as int
            &&& -(ih as int) < 2 * (dims.0 * ih - th * iw) <= ih as int
        }),
{
    lemma_round_div_close(th as int * iw as int, ih as int);
    assert(2 * (round_div(th as int * iw as int, ih as int) * ih - th as int * iw) == 2 * (
    round_div(th as int * iw as int, ih as int) * ih) - 2 * (th as int * iw as int))
        by (nonlinear_arith);
}

/// round_div(p, q) differs from the exact rational p / q by at most one half:
/// -q < 2 * (round_div(p, q) * q - p) <= q.
proof fn lemma_round_div_close(p: int, q: int)
    requires
        1 <= q,
        0 <= p,
    ensures
        -q < 2 * (round_div(p, q) * q) - 2 * p <= q,
{
    let r = round_div(p, q);
    lemma_fundamental_div_mod(2 * p + q, 2 * q);
    let rr = (2 * p + q) % (2 * q);
    assert(0 <= rr < 2 * q) by {
        vstd::arithmetic::div_mod::lemma_mod_bound(2 * p + q, 2 * q);
    }
    assert(2 * p + q == (2 * q) * r + rr);
    assert(2 * (r * q) == (2 * q) * r) by (nonlinear_arith);
}

/// Law: with both targets set and the contain mode, the output fits inside
/// the target box in both dimensions, as far as the one-pixel floor allows:
/// a box side of zero is floored at one pixel.
pub proof fn lemma_contain_fits_box(iw: u32, ih: u32, tw: u32, th: u32)
    requires
        1 <= iw,
        1 <= ih,
        1 <= tw,
        1 <= th,
    ensures
        ({
            let dims = spec_dimensions(iw as int, ih as int, Some(tw), Some(th), FitMode::Contain);
            dims.0 <= tw && dims.1 <= th
        }),
{
    if tw as int * ih as int <= th as int * iw as int {
        lemma_round_div_bounded_by_ratio(tw as int * ih as int, iw as int, th as int);
    } else {
        lemma_round_div_bounded_by_ratio(th as int * iw as int, ih as int, tw as int);
    }
}

/// When p is at most b * q, rounding p / q half away from zero stays at or
/// below b.
proof fn lemma_round_div_bounded_by_ratio(p: int, q: int, b: int)
    requires
        1 <= q,
        0 <= p,
        p <= b * q,
    ensures
        round_div(p, q) <= b,
{
    assert(2 * p + q <= (2 * q) * b + q) by (nonlinear_arith)
        requires
            p <= b * q,
    ;
    lemma_div_multiples_vanish_fancy(b, q, 2 * q);
    vstd::arithmetic::div_mod::lemma_div_is_ordered(2 * p + q, (2 * q) * b + q, 2 * q);
}

/// Law: with both targets set and the cover (clip) mode, the output is exactly
/// the target box. Targets of zero are excluded: a zero dimension is floored
/// at one pixel instead.
pub proof fn lemma_cover_returns_target_box(iw: u32, ih: u32, tw: u32, th: u32)
    requires
        1 <= iw,
        1 <= ih,
        1 <= tw,
        1 <= th,
    ensures
        spec_dimensions(iw as int, ih as int, Some(tw), Some(th), FitMode::Cover) == (
            tw as int,
            th as int,
        ),
{
}

} // verus!
