use vstd::prelude::*;
use vstd::string::StringSliceAdditionalSpecFns;
use crate::serial::{Serial, bool_byte, push_bool, push_bytes};
use crate::sources::ImageSource;

verus! {

/// The eight EXIF orientations, plus the unknown one.
#[derive(Clone, Copy, Debug, PartialEq, Eq, Structural)]
pub enum Orientation {
    Normal,
    HorizontalFlip,
    Rotate180,
    VerticalFlip,
    Transpose,
    Rotate90,
    Transverse,
    Rotate270,
    Unknown,
}

impl Orientation {
    /// The (transpose, flip x, flip y) triple the orientation stands for.
    pub open spec fn flips_spec(self) -> (bool, bool, bool) {
        match self {
            Orientation::Normal => (false, false, false),
            Orientation::Unknown => (false, false, false),
            Orientation::VerticalFlip => (false, false, true),
            Orientation::HorizontalFlip => (false, true, false),
            Orientation::Rotate180 => (false, true, true),
            Orientation::Transpose => (true, false, false),
            Orientation::Rotate90 => (true, false, true),
            Orientation::Rotate270 => (true, true, false),
            Orientation::Transverse => (true, true, true),
        }
    }

    /// The orientation a (transpose, flip x, flip y) triple stands for.
    pub open spec fn from_flips_spec(flips: (bool, bool, bool)) -> Orientation {
        match flips {
            (false, false, false) => Orientation::Normal,
            (false, false, true) => Orientation::VerticalFlip,
            (false, true, false) => Orientation::HorizontalFlip,
            (false, true, true) => Orientation::Rotate180,
            (true, false, false) => Orientation::Transpose,
            (true, false, true) => Orientation::Rotate90,
            (true, true, false) => Orientation::Rotate270,
            (true, true, true) => Orientation::Transverse,
        }
    }

    pub fn to_flips(&self) -> (r: (bool, bool, bool))
        ensures
            r == self.flips_spec(),
    {
        match self {
            Orientation::Normal => (false, false, false),
            Orientation::Unknown => (false, false, false),
            Orientation::VerticalFlip => (false, false, true),
            Orientation::HorizontalFlip => (false, true, false),
            Orientation::Rotate180 => (false, true, true),
            Orientation::Transpose => (true, false, false),
            Orientation::Rotate90 => (true, false, true),
            Orientation::Rotate270 => (true, true, false),
            Orientation::Transverse => (true, true, true),
        }
    }

    pub fn from_flips(flips: (bool, bool, bool)) -> (r: Orientation)
        ensures
            r == Orientation::from_flips_spec(flips),
    {
        match flips {
            (false, false, false) => Orientation::Normal,
            (false, false, true) => Orientation::VerticalFlip,
            (false, true, false) => Orientation::HorizontalFlip,
            (false, true, true) => Orientation::Rotate180,
            (true, false, false) => Orientation::Transpose,
            (true, false, true) => Orientation::Rotate90,
            (true, true, false) => Orientation::Rotate270,
            (true, true, true) => Orientation::Transverse,
        }
    }
}

/// The quarter-turn a transform op applies.
#[derive(Clone, Copy, Debug, PartialEq, Eq, Structural)]
pub enum Rotation {
    Normal,
    Rotate90,
    Rotate180,
    Rotate270,
}

/// The byte that encodes a rotation in the stable serialization.
pub open spec fn rotation_code(r: Rotation) -> u8 {
    match r {
        Rotation::Normal => 0u8,
        Rotation::Rotate90 => 1u8,
        Rotation::Rotate180 => 2u8,
        Rotation::Rotate270 => 3u8,
    }
}

/// The rotate-and-flip stage, derived from the source's EXIF orientation.
#[derive(Clone, Copy, Debug, PartialEq, Eq, Structural)]
pub struct OpTransform {
    pub rotation: Rotation,
    pub fliph: bool,
    pub flipv: bool,
}

/// The transform parameters an EXIF orientation maps to.
pub open spec fn transform_of_orientation(o: Orientation) -> OpTransform {
    match o {
        Orientation::Normal => OpTransform { rotation: Rotation::Normal, fliph: false, flipv: false },
        Orientation::Unknown => OpTransform { rotation: Rotation::Normal, fliph: false, flipv: false },
        Orientation::VerticalFlip => OpTransform { rotation: Rotation::Normal, fliph: false, flipv: true },
        Orientation::HorizontalFlip => OpTransform { rotation: Rotation::Normal, fliph: true, flipv: false },
        Orientation::Rotate180 => OpTransform { rotation: Rotation::Rotate180, fliph: false, flipv: false },
        Orientation::Transpose => OpTransform { rotation: Rotation::Rotate90, fliph: false, flipv: true },
        Orientation::Rotate90 => OpTransform { rotation: Rotation::Rotate90, fliph: false, flipv: false },
        Orientation::Rotate270 => OpTransform { rotation: Rotation::Rotate270, fliph: false, flipv: false },
        Orientation::Transverse => OpTransform { rotation: Rotation::Rotate270, fliph: true, flipv: false },
    }
}

/// The orientation of the source image, or the neutral one for rasters.
pub open spec fn source_orientation(img: &ImageSource) -> Orientation {
    match img {
        ImageSource::Raw(raw) => raw.orientation,
        ImageSource::Other(_) => Orientation::Normal,
    }
}

impl OpTransform {
    pub fn new(img: &ImageSource) -> (r: OpTransform)
        ensures
            r == transform_of_orientation(source_orientation(img)),
    {
        let orientation = match img {
            ImageSource::Raw(raw) => raw.orientation,
            ImageSource::Other(_) => Orientation::Normal,
        };
        let (rotation, fliph, flipv) = match orientation {
            Orientation::Normal => (Rotation::Normal, false, false),
            Orientation::Unknown => (Rotation::Normal, false, false),
            Orientation::VerticalFlip => (Rotation::Normal, false, true),
            Orientation::HorizontalFlip => (Rotation::Normal, true, false),
            Orientation::Rotate180 => (Rotation::Rotate180, false, false),
            Orientation::Transpose => (Rotation::Rotate90, false, true),
            Orientation::Rotate90 => (Rotation::Rotate90, false, false),
            Orientation::Rotate270 => (Rotation::Rotate270, false, false),
            Orientation::Transverse => (Rotation::Rotate270, true, false),
        };
        OpTransform { rotation, fliph, flipv }
    }

    /// The base orientation of the rotation alone.
    pub open spec fn base_orientation(self) -> Orientation {
        match self.rotation {
            Rotation::Normal => Orientation::Normal,
            Rotation::Rotate90 => Orientation::Rotate90,
            Rotation::Rotate180 => Orientation::Rotate180,
            Rotation::Rotate270 => Orientation::Rotate270,
        }
    }

    /// The orientation the op applies: the rotation's flips with the extra
    /// horizontal and vertical flips mixed in.
    pub open spec fn orientation_spec(self) -> Orientation {
        let flips = self.base_orientation().flips_spec();
        Orientation::from_flips_spec((flips.0, flips.1 ^ self.fliph, flips.2 ^ self.flipv))
    }

    pub fn combined_orientation(&self) -> (r: Orientation)
        ensures
            r == self.orientation_spec(),
    {
        let base = match self.rotation {
            Rotation::Normal => Orientation::Normal,
            Rotation::Rotate90 => Orientation::Rotate90,
            Rotation::Rotate180 => Orientation::Rotate180,
            Rotation::Rotate270 => Orientation::Rotate270,
        };
        let (f1, f2, f3) = base.to_flips();
        Orientation::from_flips((f1, f2 ^ self.fliph, f3 ^ self.flipv))
    }

    /// Whether the op swaps the two image axes.
    pub open spec fn swaps_dims(self) -> bool {
        self.rotation == Rotation::Rotate90 || self.rotation == Rotation::Rotate270
    }

    /// The size the op turns a given size into; its own inverse.
    pub open spec fn size_spec(self, w: int, h: int) -> (int, int) {
        if self.swaps_dims() {
            (h, w)
        } else {
            (w, h)
        }
    }

    /// The output size for a given input size.
    pub fn transform_forward(&mut self, width: usize, height: usize) -> (r: (usize, usize))
        ensures
            *final(self) == *old(self),
            (r.0 as int, r.1 as int) == old(self).size_spec(width as int, height as int),
    {
        match self.rotation {
            Rotation::Rotate90 => (height, width),
            Rotation::Rotate270 => (height, width),
            _ => (width, height),
        }
    }

    /// The input size needed for a given output size.
    pub fn transform_reverse(&mut self, width: usize, height: usize) -> (r: (usize, usize))
        ensures
            *final(self) == *old(self),
            (r.0 as int, r.1 as int) == old(self).size_spec(width as int, height as int),
    {
        match self.rotation {
            Rotation::Rotate90 => (height, width),
            Rotation::Rotate270 => (height, width),
            _ => (width, height),
        }
    }
}

impl Serial for OpTransform {
    open spec fn serial_spec(&self) -> Seq<u8> {
        "transform".spec_bytes() + seq![rotation_code(self.rotation)] + bool_byte(self.fliph)
            + bool_byte(self.flipv)
    }

    fn serial_bytes(&self) -> (r: Vec<u8>)
        ensures
            r@ == self.serial_spec(),
    {
        let mut out: Vec<u8> = Vec::new();
        push_bytes(&mut out, "transform".as_bytes());
        let code: u8 = match self.rotation {
            Rotation::Normal => 0,
            Rotation::Rotate90 => 1,
            Rotation::Rotate180 => 2,
            Rotation::Rotate270 => 3,
        };
        out.push(code);
        push_bool(&mut out, self.fliph);
        push_bool(&mut out, self.flipv);
        assert(out@ =~= self.serial_spec());
        out
    }
}

/// Row-major position of a cell in a grid.
pub proof fn lemma_grid_index(r: int, c: int, rows: int, cols: int)
    requires
        0 <= r < rows,
        0 <= c < cols,
    ensures
        0 <= r * cols + c < rows * cols,
{
    assert(r * cols + c < rows * cols) by (nonlinear_arith)
        requires
            0 <= r < rows,
            0 <= c < cols,
    ;
    assert(0 <= r * cols) by (nonlinear_arith)
        requires
            0 <= r,
            0 <= cols,
    ;
}

/// The source sample index an output pixel of the rotated image reads, for a
/// three-channel row-major buffer of the given source size.
pub open spec fn rotate_src_index(
    w: int,
    h: int,
    transpose: bool,
    flip_x: bool,
    flip_y: bool,
    r: int,
    c: int,
) -> int {
    let sr = if transpose {
        if flip_y { h - 1 - c } else { c }
    } else {
        if flip_y { h - 1 - r } else { r }
    };
    let sc = if transpose {
        if flip_x { w - 1 - r } else { r }
    } else {
        if flip_x { w - 1 - c } else { c }
    };
    (sr * w + sc) * 3
}

/// Reorder a three-channel row-major pixel buffer by an orientation: the
/// output pixel at (row, col) holds the source pixel the orientation maps it
/// to; the neutral orientations copy the buffer unchanged.
pub fn rotate_buffer<T: Copy>(
    data: &Vec<T>,
    width: usize,
    height: usize,
    orientation: Orientation,
) -> (out: Vec<T>)
    requires
        data@.len() == width * height * 3,
    ensures
        out@.len() == data@.len(),
        orientation == Orientation::Normal || orientation == Orientation::Unknown ==> out@
            == data@,
        ({
            let flips = orientation.flips_spec();
            let ow = if flips.0 { height as int } else { width as int };
            let oh = if flips.0 { width as int } else { height as int };
            forall|r: int, c: int, ch: int|
                0 <= r < oh && 0 <= c < ow && 0 <= ch < 3 ==> #[trigger] out@[(r * ow + c) * 3
                    + ch] == data@[rotate_src_index(
                    width as int,
                    height as int,
                    flips.0,
                    flips.1,
                    flips.2,
                    r,
                    c,
                ) + ch]
        }),
{
    let (transpose, flip_x, flip_y) = orientation.to_flips();
    let ow = if transpose { height } else { width };
    let oh = if transpose { width } else { height };
    proof {
        assert(ow * oh == width * height) by (nonlinear_arith)
            requires
                ow == if transpose { height as int } else { width as int },
                oh == if transpose { width as int } else { height as int },
        ;
    }
    let total = data.len();
    let mut out: Vec<T> = Vec::new();
    let mut r: usize = 0;
    while r < oh
        invariant
            r <= oh,
            data@.len() == width * height * 3,
            width * height * 3 <= usize::MAX,
            ow == if transpose { height as int } else { width as int },
            oh == if transpose { width as int } else { height as int },
            ow * oh == width * height,
            (transpose, flip_x, flip_y) == orientation.flips_spec(),
            out@.len() == r * ow * 3,
            forall|rr: int, cc: int, ch: int|
                0 <= rr < r && 0 <= cc < ow && 0 <= ch < 3 ==> #[trigger] out@[(rr * ow + cc) * 3
                    + ch] == data@[rotate_src_index(width as int, height as int, transpose, flip_x, flip_y, rr, cc)
                    + ch],
        decreases oh - r,
    {
        let mut c: usize = 0;
        while c < ow
            invariant
                r < oh,
                c <= ow,
                data@.len() == width * height * 3,
                width * height * 3 <= usize::MAX,
                ow == if transpose { height as int } else { width as int },
                oh == if transpose { width as int } else { height as int },
                ow * oh == width * height,
                (transpose, flip_x, flip_y) == orientation.flips_spec(),
                out@.len() == (r * ow + c) * 3,
                forall|rr: int, cc: int, ch: int|
                    0 <= rr <= r && 0 <= cc < ow && 0 <= ch < 3 && (rr < r || cc < c)
                        ==> #[trigger] out@[(rr * ow + cc) * 3 + ch] == data@[rotate_src_index(
                        width as int,
                        height as int,
                        transpose,
                        flip_x,
                        flip_y,
                        rr,
                        cc,
                    ) + ch],
            decreases ow - c,
        {
            let sr = if transpose {
                if flip_y { height - 1 - c } else { c }
            } else {
                if flip_y { height - 1 - r } else { r }
            };
            let sc = if transpose {
                if flip_x { width - 1 - r } else { r }
            } else {
                if flip_x { width - 1 - c } else { c }
            };
            proof {
                if transpose {
                    assert(c < height && r < width);
                } else {
                    assert(r < height && c < width);
                }
                assert(sr < height && sc < width);
                lemma_grid_index(sr as int, sc as int, height as int, width as int);
                assert(height as int * (width as int) == width as int * (height as int)) by (nonlinear_arith);
                assert((sr * (width as int) + sc) * 3 + 2 < width as int * (height as int) * 3);
            }
            let base = (sr * width + sc) * 3;
            let ghost pre = out@;
            out.push(data[base]);
            out.push(data[base + 1]);
            out.push(data[base + 2]);
            c = c + 1;
            proof {
                assert(out@ =~= pre + seq![
                    data@[base as int],
                    data@[base + 1],
                    data@[base + 2],
                ]);
                assert(out@.len() == (r * ow + c) * 3) by (nonlinear_arith)
                    requires
                        out@.len() == (r * ow + (c - 1)) * 3 + 3,
                ;
                assert forall|rr: int, cc: int, ch: int|
                    0 <= rr <= r && 0 <= cc < ow && 0 <= ch < 3 && (rr < r || cc < c)
                        implies #[trigger] out@[(rr * ow + cc) * 3 + ch] == data@[rotate_src_index(
                    width as int,
                    height as int,
                    transpose,
                    flip_x,
                    flip_y,
                    rr,
                    cc,
                ) + ch] by {
                    let idx = (rr * ow + cc) * 3 + ch;
                    assert(0 <= rr * ow + cc) by (nonlinear_arith)
                        requires
                            0 <= rr,
                            0 <= cc,
                            0 <= ow,
                    ;
                    if rr == r && cc == c - 1 {
                        assert(idx == pre.len() + ch);
                        assert(out@[idx] == data@[base + ch]);
                        assert(rotate_src_index(
                            width as int,
                            height as int,
                            transpose,
                            flip_x,
                            flip_y,
                            rr,
                            cc,
                        ) == base as int);
                    } else {
                        assert(rr * ow + cc < r * ow + (c - 1)) by (nonlinear_arith)
                            requires
                                0 <= rr <= r,
                                0 <= cc < ow,
                                0 < c,
                                (rr < r || cc < c - 1),
                                !(rr == r && cc == c - 1),
                        ;
                        assert(idx < pre.len());
                        assert(out@[idx] == pre[idx]);
                    }
                }
            }
        }
        r = r + 1;
        proof {
            assert(out@.len() == r * ow * 3) by (nonlinear_arith)
                requires
                    out@.len() == ((r - 1) * ow + ow) * 3,
            ;
        }
    }
    proof {
        assert(out@.len() == oh * ow * 3);
        assert(oh * ow * 3 == width * height * 3) by (nonlinear_arith)
            requires
                ow * oh == width * height,
        ;
        if orientation == Orientation::Normal || orientation == Orientation::Unknown {
            assert forall|i: int| 0 <= i < out@.len() implies out@[i] == data@[i] by {
                assert(0 < ow && 0 < oh) by (nonlinear_arith)
                    requires
                        0 <= ow,
                        0 <= oh,
                        0 < oh * ow * 3,
                ;
                let rr = i / (ow * 3);
                let cc = (i % (ow * 3)) / 3;
                let ch = i % 3;
                assert((rr * ow + cc) * 3 + ch == i && 0 <= rr < oh && 0 <= cc < ow && 0 <= ch
                    < 3) by (nonlinear_arith)
                    requires
                        0 <= i < oh * ow * 3,
                        0 < ow,
                        0 < oh,
                        rr == i / (ow * 3),
                        cc == (i % (ow * 3)) / 3,
                        ch == i % 3,
                ;
                assert(rotate_src_index(width as int, height as int, transpose, flip_x, flip_y, rr, cc) + ch == i)
                    by (nonlinear_arith)
                    requires
                        !transpose && !flip_x && !flip_y,
                        ow == width as int,
                        0 <= rr && 0 <= cc < ow && 0 <= ch < 3,
                        (rr * ow + cc) * 3 + ch == i,
                ;
            }
            assert(out@ =~= data@);
        }
    }
    out
}

} // verus!
