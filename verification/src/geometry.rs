//! Target-dimension arithmetic for the resize engine: aspect-ratio
//! preserving downscale under a "longest side is at most the cap"
//! constraint, with no upscaling.
use vstd::prelude::*;
use vstd::arithmetic::div_mod::lemma_div_is_ordered;
use vstd::arithmetic::div_mod::lemma_div_multiples_vanish;
use vstd::arithmetic::mul::lemma_mul_inequality;

verus! {

/// An image with these dimensions already satisfies the cap: no
/// geometric transform is applied to it.
pub open spec fn fits_within(w: u32, h: u32, max_dim: u32) -> bool {
    w <= max_dim && h <= max_dim
}

/// The shorter side scaled by `max_dim / long`, truncated toward zero,
/// and clamped to at least one pixel so that a valid image remains.
pub open spec fn spec_scaled_side(side: u32, long: u32, max_dim: u32) -> int {
    let t = (side * max_dim) / (long as int);
    if t < 1 {
        1
    } else {
        t
    }
}

/// Dimensions of the derivative: unchanged when the image fits within
/// the cap; otherwise the longer side becomes the cap and the shorter
/// side shrinks by the same ratio, truncated toward zero (and clamped
/// to one pixel, as is the cap itself, so the result stays a drawable
/// image even for a degenerate cap of zero).
pub open spec fn spec_target_dims(w: u32, h: u32, max_dim: u32) -> (int, int) {
    if fits_within(w, h, max_dim) {
        (w as int, h as int)
    } else if w > h {
        (if max_dim < 1 { 1int } else { max_dim as int }, spec_scaled_side(h, w, max_dim))
    } else {
        (spec_scaled_side(w, h, max_dim), if max_dim < 1 { 1int } else { max_dim as int })
    }
}

proof fn lemma_scaled_side_bounds(side: u32, long: u32, max_dim: u32)
    requires
        side <= long,
        0 < long,
    ensures
        1 <= spec_scaled_side(side, long, max_dim),
        max_dim >= 1 ==> spec_scaled_side(side, long, max_dim) <= max_dim,
{
    let t = (side * max_dim) / (long as int);
    lemma_mul_inequality(side as int, long as int, max_dim as int);
    lemma_div_is_ordered(side * max_dim, long * max_dim, long as int);
    lemma_div_multiples_vanish(max_dim as int, long as int);
    assert(t <= max_dim);
}

/// Computes the derivative's dimensions for an image of `w` by `h`
/// under the cap `max_dim`, exactly as `spec_target_dims` states them.
pub fn target_dimensions(w: u32, h: u32, max_dim: u32) -> (r: (u32, u32))
    ensures
        (r.0 as int, r.1 as int) == spec_target_dims(w, h, max_dim),
        fits_within(w, h, max_dim) ==> r == (w, h),
        !fits_within(w, h, max_dim) && max_dim >= 1 ==> r.0 <= max_dim && r.1 <= max_dim,
{
    if w <= max_dim && h <= max_dim {
        (w, h)
    } else if w > h {
        proof {
            lemma_scaled_side_bounds(h, w, max_dim);
            lemma_mul_inequality(h as int, 0xffff_ffff, max_dim as int);
        }
        let t: u64 = (h as u64) * (max_dim as u64) / (w as u64);
        let short: u32 = if t < 1 {
            1
        } else {
            t as u32
        };
        let long: u32 = if max_dim < 1 {
            1
        } else {
            max_dim
        };
        (long, short)
    } else {
        proof {
            lemma_scaled_side_bounds(w, h, max_dim);
            lemma_mul_inequality(w as int, 0xffff_ffff, max_dim as int);
        }
        let t: u64 = (w as u64) * (max_dim as u64) / (h as u64);
        let short: u32 = if t < 1 {
            1
        } else {
            t as u32
        };
        let long: u32 = if max_dim < 1 {
            1
        } else {
            max_dim
        };
        (short, long)
    }
}

/// No-upscale law: whenever both sides already satisfy the cap, the
/// derivative keeps the input dimensions exactly.
pub proof fn lemma_no_upscale(w: u32, h: u32, max_dim: u32)
    requires
        w <= max_dim,
        h <= max_dim,
    ensures
        spec_target_dims(w, h, max_dim) == (w as int, h as int),
{
}

/// Cap-correctness law: in every downscale case with a positive cap,
/// the larger output side equals the cap exactly, and neither side
/// exceeds it.
pub proof fn lemma_cap_exact(w: u32, h: u32, max_dim: u32)
    requires
        !fits_within(w, h, max_dim),
        max_dim >= 1,
    ensures
        ({
            let (ow, oh) = spec_target_dims(w, h, max_dim);
            (if ow >= oh { ow } else { oh }) == max_dim && ow <= max_dim && oh <= max_dim
        }),
{
    if w > h {
        lemma_scaled_side_bounds(h, w, max_dim);
    } else {
        lemma_scaled_side_bounds(w, h, max_dim);
    }
}

/// Aspect-ratio law, stated exactly over the integers: in a downscale
/// where the truncated shorter side is still at least one pixel (so no
/// clamping takes place), the output pair is within one rounding step
/// of the input ratio: the cross products `h * ow` and `w * oh` differ
/// by less than the longer input side.
pub proof fn lemma_aspect_ratio(w: u32, h: u32, max_dim: u32)
    requires
        !fits_within(w, h, max_dim),
        w > h ==> h * max_dim >= w,
        w <= h ==> w * max_dim >= h,
    ensures
        ({
            let (ow, oh) = spec_target_dims(w, h, max_dim);
            if w > h {
                w * oh <= h * ow < w * (oh + 1)
            } else {
                h * ow <= w * oh < h * (ow + 1)
            }
        }),
{
    if w > h {
        if max_dim == 0 {
            vstd::arithmetic::mul::lemma_mul_basics(h as int);
            assert(false);
        }
        let t = (h * max_dim) / (w as int);
        assert(t >= 1) by {
            lemma_div_is_ordered(w as int, h * max_dim, w as int);
            lemma_div_multiples_vanish(1int, w as int);
        }
        assert(w * t <= h * max_dim < w * (t + 1)) by {
            vstd::arithmetic::div_mod::lemma_fundamental_div_mod(h * max_dim, w as int);
            vstd::arithmetic::div_mod::lemma_mod_bound(h * max_dim, w as int);
            vstd::arithmetic::mul::lemma_mul_is_distributive_add(w as int, t, 1);
        }
    } else {
        if max_dim == 0 {
            vstd::arithmetic::mul::lemma_mul_basics(w as int);
            assert(false);
        }
        let t = (w * max_dim) / (h as int);
        assert(t >= 1) by {
            lemma_div_is_ordered(h as int, w * max_dim, h as int);
            lemma_div_multiples_vanish(1int, h as int);
        }
        assert(h * t <= w * max_dim < h * (t + 1)) by {
            vstd::arithmetic::div_mod::lemma_fundamental_div_mod(w * max_dim, h as int);
            vstd::arithmetic::div_mod::lemma_mod_bound(w * max_dim, h as int);
            vstd::arithmetic::mul::lemma_mul_is_distributive_add(h as int, t, 1);
        }
    }
}

} // verus!
