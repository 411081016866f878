use vstd::prelude::*;

verus! {

/// A size fits when each axis with a nonzero bound is within that bound.
pub open spec fn fits(w: int, h: int, mw: int, mh: int) -> bool {
    (mw == 0 || w <= mw) && (mh == 0 || h <= mh)
}

/// The vertical scale factor h/mh exceeds the horizontal one w/mw, where an
/// axis without a bound counts as scale 1.  Stated over cross products so the
/// comparison is exact.
pub open spec fn yscale_gt_xscale(w: int, h: int, mw: int, mh: int) -> bool {
    (if mh == 0 { 1int } else { h }) * (if mw == 0 { 1int } else { mw })
        > (if mw == 0 { 1int } else { w }) * (if mh == 0 { 1int } else { mh })
}

/// The size an image is scaled down to under the bounds: unchanged when it
/// already fits, otherwise the limiting axis is clamped to its bound and the
/// other axis divided by the same factor, rounding down.
pub open spec fn scale_to_fit(w: int, h: int, mw: int, mh: int) -> (int, int) {
    if fits(w, h, mw, mh) {
        (w, h)
    } else if yscale_gt_xscale(w, h, mw, mh) {
        (w * mh / h, mh)
    } else {
        (mw, h * mw / w)
    }
}

/// When the height bound limits, that bound is positive and exceeded.
proof fn lemma_limit_y(w: int, h: int, mw: int, mh: int)
    requires
        0 <= w,
        0 <= h,
        0 <= mw,
        0 <= mh,
        !fits(w, h, mw, mh),
        yscale_gt_xscale(w, h, mw, mh),
    ensures
        0 < mh < h,
{
    if mh == 0 {
        // the vertical factor is 1, so the horizontal one is below 1
        assert(fits(w, h, mw, mh));
    } else if h <= mh {
        // then the width bound must be the one exceeded
        assert(0 < mw < w);
        assert(h * mw <= w * mh) by (nonlinear_arith)
            requires
                0 <= h,
                h <= mh,
                0 <= mw,
                mw <= w,
        ;
        assert(false);
    }
}

/// When the width bound limits, that bound is positive and exceeded.
proof fn lemma_limit_x(w: int, h: int, mw: int, mh: int)
    requires
        0 <= w,
        0 <= h,
        0 <= mw,
        0 <= mh,
        !fits(w, h, mw, mh),
        !yscale_gt_xscale(w, h, mw, mh),
    ensures
        0 < mw < w,
{
    if mw == 0 {
        assert(fits(w, h, mw, mh));
    } else if w <= mw {
        assert(0 < mh < h);
        assert(w * mh < h * mw) by (nonlinear_arith)
            requires
                0 <= w,
                w <= mw,
                0 <= mh,
                mh < h,
                0 < mw,
        ;
        assert(false);
    }
}

/// Scaling never grows an axis.
pub proof fn lemma_scale_to_fit_shrinks(w: int, h: int, mw: int, mh: int)
    requires
        0 <= w,
        0 <= h,
        0 <= mw,
        0 <= mh,
    ensures
        scale_to_fit(w, h, mw, mh).0 <= w,
        scale_to_fit(w, h, mw, mh).1 <= h,
{
    if !fits(w, h, mw, mh) {
        if yscale_gt_xscale(w, h, mw, mh) {
            lemma_limit_y(w, h, mw, mh);
            assert(w * mh / h <= w) by (nonlinear_arith)
                requires
                    0 <= w && 0 < mh && mh < h,
            ;
        } else {
            lemma_limit_x(w, h, mw, mh);
            assert(h * mw / w <= h) by (nonlinear_arith)
                requires
                    0 <= h && 0 < mw && mw < w,
            ;
        }
    }
}

/// The scaled size observes both bounds.
pub proof fn lemma_scale_to_fit_bounded(w: int, h: int, mw: int, mh: int)
    requires
        0 <= w,
        0 <= h,
        0 <= mw,
        0 <= mh,
    ensures
        mw > 0 ==> scale_to_fit(w, h, mw, mh).0 <= mw,
        mh > 0 ==> scale_to_fit(w, h, mw, mh).1 <= mh,
{
    if !fits(w, h, mw, mh) {
        if yscale_gt_xscale(w, h, mw, mh) {
            lemma_limit_y(w, h, mw, mh);
            if mw > 0 {
                assert(h * mw > w * mh);
                assert(w * mh / h < mw) by (nonlinear_arith)
                    requires
                        0 < h && 0 <= w && 0 <= mh && 0 < mw,
                        h * mw > w * mh,
                ;
            }
        } else {
            lemma_limit_x(w, h, mw, mh);
            if mh > 0 {
                assert(h * mw <= w * mh);
                assert(h * mw / w <= mh) by (nonlinear_arith)
                    requires
                        0 < w && 0 <= h && 0 < mh && 0 <= mw,
                        h * mw <= w * mh,
                ;
            }
        }
    }
}

/// The product of two values that each fit in 64 bits fits in 128 bits.
proof fn lemma_u128_product(a: u128, b: u128)
    requires
        a <= 0xffff_ffff_ffff_ffff,
        b <= 0xffff_ffff_ffff_ffff,
    ensures
        a * b <= 0xffff_ffff_ffff_ffff * 0xffff_ffff_ffff_ffff,
{
    assert(a * b <= 0xffff_ffff_ffff_ffff * 0xffff_ffff_ffff_ffff) by (nonlinear_arith)
        requires
            0 <= a <= 0xffff_ffff_ffff_ffff,
            0 <= b <= 0xffff_ffff_ffff_ffff,
    ;
}

/// The size the image is scaled down to so that it fits the given bounds,
/// where a bound of zero leaves that axis free.
pub fn scaling_size(width: usize, height: usize, maxwidth: usize, maxheight: usize) -> (r: (
    usize,
    usize,
))
    ensures
        r.0 == scale_to_fit(width as int, height as int, maxwidth as int, maxheight as int).0,
        r.1 == scale_to_fit(width as int, height as int, maxwidth as int, maxheight as int).1,
{
    proof {
        lemma_scale_to_fit_shrinks(width as int, height as int, maxwidth as int, maxheight as int);
    }
    let fits_x = maxwidth == 0 || width <= maxwidth;
    let fits_y = maxheight == 0 || height <= maxheight;
    if fits_x && fits_y {
        return (width, height);
    }
    let xn: u128 = if maxwidth == 0 { 1 } else { width as u128 };
    let xd: u128 = if maxwidth == 0 { 1 } else { maxwidth as u128 };
    let yn: u128 = if maxheight == 0 { 1 } else { height as u128 };
    let yd: u128 = if maxheight == 0 { 1 } else { maxheight as u128 };
    proof {
        lemma_u128_product(yn, xd);
        lemma_u128_product(xn, yd);
        lemma_u128_product(width as u128, maxheight as u128);
        lemma_u128_product(height as u128, maxwidth as u128);
    }
    if yn * xd > xn * yd {
        proof {
            lemma_limit_y(width as int, height as int, maxwidth as int, maxheight as int);
        }
        let nw = (width as u128 * maxheight as u128) / (height as u128);
        (nw as usize, maxheight)
    } else {
        proof {
            lemma_limit_x(width as int, height as int, maxwidth as int, maxheight as int);
        }
        let nh = (height as u128 * maxwidth as u128) / (width as u128);
        (maxwidth, nh as usize)
    }
}

} // verus!
