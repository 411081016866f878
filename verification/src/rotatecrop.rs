use vstd::prelude::*;
use vstd::string::StringSliceAdditionalSpecFns;
use crate::serial::{Serial, push_bytes, push_u32, push_u64, le32, le64};
use crate::sources::ImageSource;

verus! {

/// Aspect ratios are capped at a million to one in either direction.
pub const RATIO_CAP: u64 = 1_000_000_000_000;

/// Division rounded to nearest, ties up.
pub open spec fn div_round_spec(n: int, d: int) -> int {
    (n + d / 2) / d
}

/// An approximation of the sine of p millionths of a quarter turn, in
/// millionths, exact at both ends of the range.
pub open spec fn sine_ppm_spec(p: int) -> int {
    let q = if p > 1_000_000 { 1_000_000int } else { p };
    let t = q * (2_000_000 - q) / 1_000_000;
    4 * t * 1_000_000 / (5_000_000 - t)
}

/// The matching cosine approximation.
pub open spec fn cosine_ppm_spec(p: int) -> int {
    let q = if p > 1_000_000 { 1_000_000int } else { p };
    sine_ppm_spec(1_000_000 - q)
}

fn sine_ppm(p: u64) -> (r: u64)
    ensures
        r == sine_ppm_spec(p as int),
        r <= 1_000_000,
{
    let q: u64 = if p > 1_000_000 { 1_000_000 } else { p };
    proof {
        assert(q * (2_000_000 - q) <= 1_000_000_000_000) by (nonlinear_arith)
            requires
                0 <= q <= 1_000_000,
        ;
    }
    let t: u64 = q * (2_000_000 - q) / 1_000_000;
    let r = 4 * t * 1_000_000 / (5_000_000 - t);
    proof {
        assert(4 * t * 1_000_000 / (5_000_000 - t) <= 1_000_000) by (nonlinear_arith)
            requires
                0 <= t <= 1_000_000,
        ;
    }
    r
}

fn cosine_ppm(p: u64) -> (r: u64)
    ensures
        r == cosine_ppm_spec(p as int),
        r <= 1_000_000,
{
    let q: u64 = if p > 1_000_000 { 1_000_000 } else { p };
    sine_ppm(1_000_000 - q)
}

/// The rotate-and-crop stage: crop fractions and a rotation of up to a
/// quarter turn, all in millionths.  Between a reverse and a forward size
/// pass the op stays committed to the output size it was asked for.
#[derive(Clone, Copy, Debug)]
pub struct OpRotateCrop {
    pub crop_top: u32,
    pub crop_right: u32,
    pub crop_bottom: u32,
    pub crop_left: u32,
    pub rotation: u32,
    input_ratio: u64,
    output_size: Option<(usize, usize)>,
}

impl OpRotateCrop {
    /// The width-to-height ratio recorded by the last fresh forward pass,
    /// in millionths.
    pub closed spec fn ratio_spec(self) -> int {
        self.input_ratio as int
    }

    /// The output size recorded by a reverse pass, which a later forward
    /// pass is committed to.
    pub closed spec fn recorded_size_spec(self) -> Option<(usize, usize)> {
        self.output_size
    }

    /// All parameters are below one millionth: nothing to do.
    pub closed spec fn noop_spec(self) -> bool {
        self.crop_top == 0 && self.crop_right == 0 && self.crop_bottom == 0 && self.crop_left
            == 0 && self.rotation == 0
    }

    pub fn new(_img: &ImageSource) -> (r: OpRotateCrop)
        ensures
            r == OpRotateCrop::empty_spec(),
    {
        Self::empty()
    }

    /// The neutral op: no crop, no rotation, a square recorded ratio and no
    /// committed output size.
    pub closed spec fn empty_spec() -> OpRotateCrop {
        OpRotateCrop {
            crop_top: 0,
            crop_right: 0,
            crop_bottom: 0,
            crop_left: 0,
            rotation: 0,
            input_ratio: 1_000_000u64,
            output_size: None,
        }
    }

    pub fn empty() -> (r: OpRotateCrop)
        ensures
            r == OpRotateCrop::empty_spec(),
    {
        OpRotateCrop {
            crop_top: 0,
            crop_right: 0,
            crop_bottom: 0,
            crop_left: 0,
            rotation: 0,
            input_ratio: 1_000_000,
            output_size: None,
        }
    }

    pub fn noop(&self) -> (r: bool)
        ensures
            r == self.noop_spec(),
    {
        self.rotation == 0 && self.crop_top == 0 && self.crop_right == 0 && self.crop_bottom == 0
            && self.crop_left == 0
    }

    /// The size the op maps a size to.  Forward applies the rotation's
    /// bounding box and then the crops; reverse undoes the crops and then
    /// solves the bounding box back with the recorded aspect ratio.  Any
    /// degenerate step leaves the size unchanged.
    pub closed spec fn calc_size_spec(self, ow: int, oh: int, reverse: bool) -> (int, int) {
        if self.noop_spec() {
            (ow, oh)
        } else {
            let sinp = sine_ppm_spec(self.rotation as int);
            let cosp = cosine_ppm_spec(self.rotation as int);
            let w1 = if !reverse && self.rotation > 0 {
                div_round_spec(ow * cosp + oh * sinp, 1_000_000)
            } else {
                ow
            };
            let h1 = if !reverse && self.rotation > 0 {
                div_round_spec(ow * sinp + oh * cosp, 1_000_000)
            } else {
                oh
            };
            let rw = 1_000_000 - self.crop_left - self.crop_right;
            let rh = 1_000_000 - self.crop_top - self.crop_bottom;
            if rw < 1 || rh < 1 {
                (ow, oh)
            } else {
                let w2 = if reverse {
                    div_round_spec(w1 * 1_000_000, rw)
                } else {
                    div_round_spec(w1 * rw, 1_000_000)
                };
                let h2 = if reverse {
                    div_round_spec(h1 * 1_000_000, rh)
                } else {
                    div_round_spec(h1 * rh, 1_000_000)
                };
                if w2 < 1 || h2 < 1 || w2 > usize::MAX || h2 > usize::MAX {
                    (ow, oh)
                } else {
                    if reverse && self.rotation > 0 {
                        let q0 = self.ratio_spec();
                        let q = if q0 > RATIO_CAP { RATIO_CAP as int } else { q0 };
                        let denom = sinp * q + cosp * 1_000_000;
                        if q < 1 || denom < 1 {
                            (ow, oh)
                        } else {
                            let w3 = div_round_spec(h2 * q * 1_000_000, denom);
                            if w3 < 1 || w3 > usize::MAX {
                                (ow, oh)
                            } else {
                                let h3 = div_round_spec(w3 * 1_000_000, q);
                                if h3 < 1 || h3 > usize::MAX {
                                    (ow, oh)
                                } else {
                                    (w3, h3)
                                }
                            }
                        }
                    } else {
                        (w2, h2)
                    }
                }
            }
        }
    }

    pub fn calc_size(&self, owidth: usize, oheight: usize, reverse: bool) -> (r: (usize, usize))
        ensures
            (r.0 as int, r.1 as int) == self.calc_size_spec(owidth as int, oheight as int, reverse),
    {
        if self.noop() {
            return (owidth, oheight);
        }
        let sinp: u64 = sine_ppm(self.rotation as u64);
        let cosp: u64 = cosine_ppm(self.rotation as u64);
        let ow = owidth as u128;
        let oh = oheight as u128;
        proof {
            lemma_rotated_bound(ow as int, oh as int, sinp as int, cosp as int);
        }
        let w1: u128 = if !reverse && self.rotation > 0 {
            (ow * (cosp as u128) + oh * (sinp as u128) + 500_000) / 1_000_000
        } else {
            ow
        };
        let h1: u128 = if !reverse && self.rotation > 0 {
            (ow * (sinp as u128) + oh * (cosp as u128) + 500_000) / 1_000_000
        } else {
            oh
        };
        proof {
            lemma_mul_le(w1 as int, 1_000_000, usize::MAX * 2 + 2_000_000, 1_000_000);
            lemma_mul_le(h1 as int, 1_000_000, usize::MAX * 2 + 2_000_000, 1_000_000);
        }
        let crop_lr = self.crop_left as u64 + self.crop_right as u64;
        let crop_tb = self.crop_top as u64 + self.crop_bottom as u64;
        if crop_lr >= 1_000_000 || crop_tb >= 1_000_000 {
            return (owidth, oheight);
        }
        let rw = (1_000_000 - crop_lr) as u128;
        let rh = (1_000_000 - crop_tb) as u128;
        proof {
            lemma_mul_le(w1 as int, rw as int, usize::MAX * 2 + 2_000_000, 1_000_000);
            lemma_mul_le(h1 as int, rh as int, usize::MAX * 2 + 2_000_000, 1_000_000);
        }
        let w2: u128 = if reverse {
            (w1 * 1_000_000 + rw / 2) / rw
        } else {
            (w1 * rw + 500_000) / 1_000_000
        };
        let h2: u128 = if reverse {
            (h1 * 1_000_000 + rh / 2) / rh
        } else {
            (h1 * rh + 500_000) / 1_000_000
        };
        if w2 < 1 || h2 < 1 || w2 > usize::MAX as u128 || h2 > usize::MAX as u128 {
            return (owidth, oheight);
        }
        if reverse && self.rotation > 0 {
            let q0 = self.input_ratio as u128;
            let q = if q0 > RATIO_CAP as u128 { RATIO_CAP as u128 } else { q0 };
            proof {
                lemma_mul_le(sinp as int, q as int, 1_000_000, RATIO_CAP as int);
            }
            let denom = (sinp as u128) * q + (cosp as u128) * 1_000_000;
            if q < 1 || denom < 1 {
                return (owidth, oheight);
            }
            proof {
                lemma_reverse_bound(h2 as int, q as int);
                lemma_mul_le(
                    (h2 * q) as int,
                    1_000_000,
                    usize::MAX * (RATIO_CAP as int),
                    1_000_000,
                );
            }
            let w3 = (h2 * q * 1_000_000 + denom / 2) / denom;
            if w3 < 1 || w3 > usize::MAX as u128 {
                return (owidth, oheight);
            }
            let h3 = (w3 * 1_000_000 + q / 2) / q;
            if h3 < 1 || h3 > usize::MAX as u128 {
                return (owidth, oheight);
            }
            (w3 as usize, h3 as usize)
        } else {
            (w2 as usize, h2 as usize)
        }
    }

    /// The place the crop window starts at in a buffer of the given size.
    pub closed spec fn crop_origin_spec(self, w: int, h: int) -> (int, int) {
        (w * (self.crop_left as int) / 1_000_000, h * (self.crop_top as int) / 1_000_000)
    }

    /// Where the crop window starts in a buffer of the given size, or
    /// nothing when a crop fraction beyond the whole image pushes the
    /// origin outside it.
    pub fn crop_origin(&self, width: usize, height: usize) -> (r: Option<(usize, usize)>)
        ensures
            match r {
                Some(p) => {
                    &&& (p.0 as int, p.1 as int) == self.crop_origin_spec(
                        width as int,
                        height as int,
                    )
                    &&& p.0 <= width
                    &&& p.1 <= height
                },
                None => self.crop_origin_spec(width as int, height as int).0 > width
                    || self.crop_origin_spec(width as int, height as int).1 > height,
            },
    {
        proof {
            lemma_mul_le(width as int, self.crop_left as int, usize::MAX as int, u32::MAX as int);
            lemma_mul_le(height as int, self.crop_top as int, usize::MAX as int, u32::MAX as int);
        }
        let x = (width as u128) * (self.crop_left as u128) / 1_000_000;
        let y = (height as u128) * (self.crop_top as u128) / 1_000_000;
        if x > width as u128 || y > height as u128 {
            None
        } else {
            Some((x as usize, y as usize))
        }
    }

    /// The state after a reverse pass: committed to the given output size.
    pub closed spec fn committed_spec(self, width: usize, height: usize) -> OpRotateCrop {
        OpRotateCrop { output_size: Some((width, height)), ..self }
    }

    /// The size a forward pass returns: the committed size when one is
    /// recorded, the computed one otherwise.
    pub closed spec fn forward_size_spec(self, w: int, h: int) -> (int, int) {
        match self.recorded_size_spec() {
            Some(s) => (s.0 as int, s.1 as int),
            None => self.calc_size_spec(w, h, false),
        }
    }

    /// The state after a fresh forward pass: the input's aspect ratio is
    /// recorded, everything else stays.
    pub closed spec fn with_ratio_spec(self, w: int, h: int) -> OpRotateCrop {
        OpRotateCrop { input_ratio: OpRotateCrop::ratio_of_spec(w, h) as u64, ..self }
    }

    /// The aspect ratio a fresh forward pass records, in millionths,
    /// capped on both sides.
    pub open spec fn ratio_of_spec(w: int, h: int) -> int {
        if h == 0 {
            1_000_000int
        } else {
            let q = div_round_spec(w * 1_000_000, h);
            if q < 1 {
                1int
            } else if q > RATIO_CAP {
                RATIO_CAP as int
            } else {
                q
            }
        }
    }

    /// The output size the op produces from a given input size.  After a
    /// reverse pass this is the recorded size, whatever it is asked about.
    pub fn transform_forward(&mut self, width: usize, height: usize) -> (r: (usize, usize))
        ensures
            (r.0 as int, r.1 as int) == old(self).forward_size_spec(width as int, height as int),
            (old(self).recorded_size_spec() is Some) ==> *final(self) == *old(self),
            (old(self).recorded_size_spec() is None) ==> *final(self) == old(self).with_ratio_spec(
                width as int,
                height as int,
            ),
    {
        match self.output_size {
            Some(size) => size,
            None => {
                let q: u64 = if height == 0 {
                    1_000_000
                } else {
                    let raw = ((width as u128) * 1_000_000 + (height as u128) / 2)
                        / (height as u128);
                    if raw < 1 {
                        1
                    } else if raw > RATIO_CAP as u128 {
                        RATIO_CAP
                    } else {
                        raw as u64
                    }
                };
                self.input_ratio = q;
                self.calc_size(width, height, false)
            },
        }
    }

    /// The input size the op needs to produce a given output size; the op
    /// commits to that output size for later forward passes.
    pub fn transform_reverse(&mut self, width: usize, height: usize) -> (r: (usize, usize))
        ensures
            (r.0 as int, r.1 as int) == old(self).calc_size_spec(width as int, height as int, true),
            *final(self) == old(self).committed_spec(width, height),
    {
        self.output_size = Some((width, height));
        self.calc_size(width, height, true)
    }
}

/// A reverse pass followed by a forward pass is the identity on sizes: the
/// reverse pass commits the op to the output size it was asked for, and a
/// forward pass returns a committed size no matter what crops, rotation or
/// intermediate size it sees.
pub proof fn lemma_size_round_trip(op: OpRotateCrop, width: usize, height: usize, iw: int, ih: int)
    ensures
        op.committed_spec(width, height).forward_size_spec(iw, ih) == (width as int, height as int),
{
}

/// Multiplication is monotone on bounds.
pub proof fn lemma_mul_le(a: int, b: int, ca: int, cb: int)
    requires
        0 <= a <= ca,
        0 <= b <= cb,
    ensures
        a * b <= ca * cb,
{
    assert(a * b <= ca * cb) by (nonlinear_arith)
        requires
            0 <= a <= ca,
            0 <= b <= cb,
    ;
}

/// The rotated bounding box of a size fits well inside 128 bits.
proof fn lemma_rotated_bound(ow: int, oh: int, sinp: int, cosp: int)
    requires
        0 <= ow <= usize::MAX,
        0 <= oh <= usize::MAX,
        0 <= sinp <= 1_000_000,
        0 <= cosp <= 1_000_000,
    ensures
        ow * cosp + oh * sinp <= usize::MAX * 2_000_000,
        ow * sinp + oh * cosp <= usize::MAX * 2_000_000,
{
    assert(ow * cosp <= usize::MAX * 1_000_000 && oh * sinp <= usize::MAX * 1_000_000 && ow * sinp
        <= usize::MAX * 1_000_000 && oh * cosp <= usize::MAX * 1_000_000) by (nonlinear_arith)
        requires
            0 <= ow <= usize::MAX,
            0 <= oh <= usize::MAX,
            0 <= sinp <= 1_000_000,
            0 <= cosp <= 1_000_000,
    ;
}

/// The reverse rotation product fits well inside 128 bits.
proof fn lemma_reverse_bound(h2: int, q: int)
    requires
        0 <= h2 <= usize::MAX,
        0 <= q <= RATIO_CAP,
    ensures
        h2 * q <= usize::MAX * (RATIO_CAP as int),
{
    assert(h2 * q <= usize::MAX * (RATIO_CAP as int)) by (nonlinear_arith)
        requires
            0 <= h2 <= usize::MAX,
            0 <= q <= RATIO_CAP,
    ;
}

impl Serial for OpRotateCrop {
    closed spec fn serial_spec(&self) -> Seq<u8> {
        "rotatecrop".spec_bytes() + le32(self.crop_top) + le32(self.crop_right) + le32(
            self.crop_bottom,
        ) + le32(self.crop_left) + le32(self.rotation) + le64(self.input_ratio)
    }

    fn serial_bytes(&self) -> (r: Vec<u8>)
        ensures
            r@ == self.serial_spec(),
    {
        let mut out: Vec<u8> = Vec::new();
        push_bytes(&mut out, "rotatecrop".as_bytes());
        push_u32(&mut out, self.crop_top);
        push_u32(&mut out, self.crop_right);
        push_u32(&mut out, self.crop_bottom);
        push_u32(&mut out, self.crop_left);
        push_u32(&mut out, self.rotation);
        push_u64(&mut out, self.input_ratio);
        assert(out@ =~= self.serial_spec());
        out
    }
}

} // verus!
