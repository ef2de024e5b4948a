//! Fitting a decoded image into the viewport. The scale is applied as two
//! sequential one-axis clamps: first the height is clamped to the viewport
//! height and the width scaled along, then the already-scaled width is
//! clamped to the viewport width and the height scaled along. The second
//! clamp is computed against the height-scaled width, not the original
//! width, so the order matters. The image is never upscaled.

use vstd::prelude::*;
use vstd::arithmetic::div_mod::{lemma_div_is_ordered, lemma_div_multiples_vanish};
use vstd::arithmetic::mul::{lemma_mul_inequality, lemma_mul_upper_bound};

verus! {

/// The first clamp: a height over the viewport height is reduced to it,
/// and the width is scaled by the same factor, rounding down.
pub open spec fn height_clamped(image_w: nat, image_h: nat, frame_h: nat) -> (nat, nat) {
    if frame_h < image_h {
        ((image_w * frame_h) / image_h, frame_h)
    } else {
        (image_w, image_h)
    }
}

/// The second clamp: a width over the viewport width is reduced to it,
/// and the height is scaled by the same factor, rounding down.
pub open spec fn width_clamped(w: nat, h: nat, frame_w: nat) -> (nat, nat) {
    if frame_w < w {
        (frame_w, (h * frame_w) / w)
    } else {
        (w, h)
    }
}

/// The target dimensions for an image in a viewport: the height clamp,
/// then the width clamp on its result.
pub open spec fn fitted(image_w: nat, image_h: nat, frame_w: nat, frame_h: nat) -> (nat, nat) {
    let (w1, h1) = height_clamped(image_w, image_h, frame_h);
    width_clamped(w1, h1, frame_w)
}

/// Scaling a length by a factor at most one, rounding down, never grows
/// it: `(a * b) / c <= a` when `b <= c`.
proof fn lemma_scale_down(a: nat, b: nat, c: nat)
    requires
        b <= c,
        0 < c,
    ensures
        (a * b) / c <= a,
{
    lemma_mul_inequality(b as int, c as int, a as int);
    lemma_div_is_ordered((a * b) as int, (a * c) as int, c as int);
    lemma_div_multiples_vanish(a as int, c as int);
}

/// Computes the integer target dimensions that fit an image of
/// `image_w` by `image_h` pixels into a viewport of `frame_w` by
/// `frame_h`: never upscaled, never over the viewport in either axis,
/// and untouched exactly when the image already fits.
pub fn fit_to_viewport(image_w: u32, image_h: u32, frame_w: u32, frame_h: u32) -> (r: (u32, u32))
    ensures
        (r.0 as nat, r.1 as nat) == fitted(
            image_w as nat,
            image_h as nat,
            frame_w as nat,
            frame_h as nat,
        ),
        r.0 <= image_w && r.1 <= image_h,
        r.0 <= frame_w && r.1 <= frame_h,
        image_w <= frame_w && image_h <= frame_h ==> r == (image_w, image_h),
{
    let (w1, h1): (u32, u32) = if frame_h < image_h {
        proof {
            lemma_mul_upper_bound(image_w as int, u32::MAX as int, frame_h as int, u32::MAX as int);
            lemma_scale_down(image_w as nat, frame_h as nat, image_h as nat);
        }
        let w = (image_w as u64) * (frame_h as u64) / (image_h as u64);
        (w as u32, frame_h)
    } else {
        (image_w, image_h)
    };
    if frame_w < w1 {
        proof {
            lemma_mul_upper_bound(h1 as int, u32::MAX as int, frame_w as int, u32::MAX as int);
            lemma_scale_down(h1 as nat, frame_w as nat, w1 as nat);
        }
        let h = (h1 as u64) * (frame_w as u64) / (w1 as u64);
        (frame_w, h as u32)
    } else {
        (w1, h1)
    }
}

} // verus!
