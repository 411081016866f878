use vstd::prelude::*;
use vstd::string::StringSliceAdditionalSpecFns;
use vstd::arithmetic::div_mod::{lemma_fundamental_div_mod, lemma_mod_multiples_vanish};
use crate::serial::{Serial, push_bytes, push_u64, le64};
use crate::sources::ImageSource;
use crate::scaling::fits;
use crate::transform::lemma_grid_index;

verus! {

/// The color index a pattern letter stands for, or a negative value for a
/// letter that is not part of any pattern.
pub open spec fn code_of_byte(b: u8) -> int {
    if b == 82 {  // R
        0
    } else if b == 71 {  // G
        1
    } else if b == 66 {  // B
        2
    } else if b == 69 {  // E
        3
    } else if b == 77 {  // M
        1
    } else if b == 89 {  // Y
        3
    } else {
        -1
    }
}

/// The pattern block size a pattern string of the given length describes.
pub open spec fn cfa_dims(n: int) -> Option<(int, int)> {
    if n == 0 {
        Some((0int, 0int))
    } else if n == 4 {
        Some((2int, 2int))
    } else if n == 36 {
        Some((6int, 6int))
    } else if n == 16 {
        Some((2int, 8int))
    } else if n == 144 {
        Some((12int, 12int))
    } else {
        None
    }
}

/// A color filter array: the periodic grid that assigns each sensor pixel
/// one of four color indices.
#[derive(Clone, Debug)]
pub struct Cfa {
    pub width: usize,
    pub height: usize,
    pub pattern: Vec<u8>,
}

impl Cfa {
    /// The pattern covers one block and holds only color indices.
    pub open spec fn wf(&self) -> bool {
        &&& self.pattern@.len() == self.width * self.height
        &&& forall|i: int| 0 <= i < self.pattern@.len() ==> self.pattern@[i] < 4
        &&& (self.width == 0) == (self.height == 0)
    }

    /// The color index at a grid position, by periodic extension.
    pub open spec fn color_at_spec(&self, row: int, col: int) -> int {
        self.pattern@[(row % (self.height as int)) * (self.width as int) + (col % (
        self.width as int))] as int
    }

    /// Parse a pattern string; the length picks the block size and every
    /// letter must name a color.
    pub fn new(pattern: &str) -> (r: Option<Cfa>)
        ensures
            match r {
                Some(cfa) => {
                    &&& cfa.wf()
                    &&& cfa_dims(pattern.spec_bytes().len() as int) == Some(
                        (cfa.width as int, cfa.height as int),
                    )
                    &&& cfa.pattern@.len() == pattern.spec_bytes().len()
                    &&& forall|i: int|
                        0 <= i < cfa.pattern@.len() ==> cfa.pattern@[i] as int == code_of_byte(
                            pattern.spec_bytes()[i],
                        )
                },
                None => {
                    cfa_dims(pattern.spec_bytes().len() as int) is None || exists|i: int|
                        0 <= i < pattern.spec_bytes().len() && code_of_byte(
                            #[trigger] pattern.spec_bytes()[i],
                        ) < 0
                },
            },
    {
        let bytes = pattern.as_bytes();
        let n = bytes.len();
        let (width, height): (usize, usize) = if n == 0 {
            (0, 0)
        } else if n == 4 {
            (2, 2)
        } else if n == 36 {
            (6, 6)
        } else if n == 16 {
            (2, 8)
        } else if n == 144 {
            (12, 12)
        } else {
            return None;
        };
        let mut out: Vec<u8> = Vec::new();
        let mut i: usize = 0;
        while i < n
            invariant
                i <= n,
                n == bytes@.len(),
                bytes@ == pattern.spec_bytes(),
                out@.len() == i,
                forall|j: int|
                    0 <= j < i ==> out@[j] as int == code_of_byte(bytes@[j]) && out@[j] < 4,
            decreases n - i,
        {
            let b = bytes[i];
            let code: u8 = if b == 82 {
                0
            } else if b == 71 {
                1
            } else if b == 66 {
                2
            } else if b == 69 {
                3
            } else if b == 77 {
                1
            } else if b == 89 {
                3
            } else {
                proof {
                    assert(code_of_byte(pattern.spec_bytes()[i as int]) < 0);
                }
                return None;
            };
            out.push(code);
            i = i + 1;
        }
        Some(Cfa { width, height, pattern: out })
    }

    /// The color index at a position, extending the block periodically.
    pub fn color_at(&self, row: usize, col: usize) -> (r: u8)
        requires
            self.wf(),
            0 < self.width,
        ensures
            r as int == self.color_at_spec(row as int, col as int),
            r < 4,
    {
        let plen = self.pattern.len();
        proof {
            lemma_grid_index(
                (row % self.height) as int,
                (col % self.width) as int,
                self.height as int,
                self.width as int,
            );
            assert(plen == self.width * self.height);
        }
        self.pattern[(row % self.height) * self.width + (col % self.width)]
    }
}

/// One entry of the demosaic neighborhood table: for the pixel at (row, col)
/// and neighbor offset index i in the three-by-three window, the color
/// channel the neighbor's sample feeds, or four for a neighbor that shares
/// the center's color without being the center.
pub open spec fn lookup_entry_spec(cfa: &Cfa, row: int, col: int, i: int) -> int {
    let dy = i / 3 - 1;
    let dx = i % 3 - 1;
    let pix = cfa.color_at_spec(row, col);
    let oc = cfa.color_at_spec(row + 48 + dy, col + 48 + dx);
    if oc != pix || (dx == 0 && dy == 0) {
        oc
    } else {
        4
    }
}

/// Adding a full period does not change the assigned color.
proof fn lemma_period_shift(cfa: &Cfa, a: int, m: int)
    requires
        0 < m,
        48int % m == 0,
    ensures
        (a + 48) % m == a % m,
{
    lemma_fundamental_div_mod(48, m);
    lemma_mod_multiples_vanish(48int / m, a, m);
    assert(m * (48int / m) + a == a + 48);
}

/// Only the center entry of a neighborhood routes a sample to the center's
/// own color: every other entry is either a different color or the spare
/// channel index four.
pub proof fn lemma_lookup_center_only(cfa: &Cfa, row: int, col: int, i: int)
    requires
        cfa.wf(),
        0 < cfa.width,
        48int % (cfa.width as int) == 0,
        48int % (cfa.height as int) == 0,
        0 <= row,
        0 <= col,
        0 <= i < 9,
    ensures
        (lookup_entry_spec(cfa, row, col, i) == cfa.color_at_spec(row, col)) <==> (i == 4),
{
    let h = cfa.height as int;
    let w = cfa.width as int;
    let pix = cfa.color_at_spec(row, col);
    assert(0 <= row % h < h && 0 <= col % w < w);
    lemma_grid_index(row % h, col % w, h, w);
    assert(pix < 4);
    if i == 4 {
        lemma_period_shift(cfa, row, h);
        lemma_period_shift(cfa, col, w);
        assert(cfa.color_at_spec(row + 48, col + 48) == pix);
    }
}

/// The precomputed three-by-three color routing table for a 48 by 48 tile,
/// as one row-major vector: entry ((row * 48) + col) * 9 + i is the routing
/// of neighbor i of pixel (row, col).
pub fn demosaic_lookup(cfa: &Cfa) -> (table: Vec<u8>)
    requires
        cfa.wf(),
        0 < cfa.width,
        48int % (cfa.width as int) == 0,
        48int % (cfa.height as int) == 0,
    ensures
        table@.len() == 48 * 48 * 9,
        forall|row: int, col: int, i: int|
            0 <= row < 48 && 0 <= col < 48 && 0 <= i < 9 ==> #[trigger] table@[(row * 48 + col) * 9
                + i] == lookup_entry_spec(cfa, row, col, i),
{
    let mut table: Vec<u8> = Vec::new();
    let mut row: usize = 0;
    while row < 48
        invariant
            row <= 48,
            cfa.wf(),
            0 < cfa.width,
            48int % (cfa.width as int) == 0,
            48int % (cfa.height as int) == 0,
            table@.len() == row * 48 * 9,
            forall|rr: int, cc: int, i: int|
                0 <= rr < row && 0 <= cc < 48 && 0 <= i < 9 ==> #[trigger] table@[(rr * 48 + cc) * 9
                    + i] == lookup_entry_spec(cfa, rr, cc, i),
        decreases 48 - row,
    {
        let mut col: usize = 0;
        while col < 48
            invariant
                row < 48,
                col <= 48,
                cfa.wf(),
                0 < cfa.width,
                48int % (cfa.width as int) == 0,
                48int % (cfa.height as int) == 0,
                table@.len() == (row * 48 + col) * 9,
                forall|rr: int, cc: int, i: int|
                    0 <= rr <= row && 0 <= cc < 48 && 0 <= i < 9 && (rr < row || cc < col)
                        ==> #[trigger] table@[(rr * 48 + cc) * 9 + i] == lookup_entry_spec(
                        cfa,
                        rr,
                        cc,
                        i,
                    ),
            decreases 48 - col,
        {
            let pix = cfa.color_at(row, col);
            let ghost pre = table@;
            let mut i: usize = 0;
            while i < 9
                invariant
                    row < 48,
                    col < 48,
                    i <= 9,
                    cfa.wf(),
                    0 < cfa.width,
                    pix as int == cfa.color_at_spec(row as int, col as int),
                    table@.len() == pre.len() + i,
                    table@ == pre + table@.subrange(pre.len() as int, table@.len() as int),
                    forall|k: int|
                        0 <= k < i ==> #[trigger] table@[pre.len() + k] == lookup_entry_spec(
                            cfa,
                            row as int,
                            col as int,
                            k,
                        ),
                decreases 9 - i,
            {
                let oc = cfa.color_at(row + 47 + i / 3, col + 47 + i % 3);
                let entry: u8 = if oc != pix || i == 4 {
                    oc
                } else {
                    4
                };
                proof {
                    let gi = i as int;
                    assert(row + 47 + gi / 3 == row + 48 + (gi / 3 - 1));
                    assert(col + 47 + gi % 3 == col + 48 + (gi % 3 - 1));
                    assert((gi / 3 - 1 == 0 && gi % 3 - 1 == 0) <==> gi == 4);
                    assert(entry as int == lookup_entry_spec(cfa, row as int, col as int, gi));
                }
                table.push(entry);
                i = i + 1;
                proof {
                    assert(table@ =~= pre + table@.subrange(pre.len() as int, table@.len() as int));
                }
            }
            col = col + 1;
            proof {
                assert(table@.len() == (row * 48 + col) * 9);
                assert forall|rr: int, cc: int, i: int|
                    0 <= rr <= row && 0 <= cc < 48 && 0 <= i < 9 && (rr < row || cc < col)
                        implies #[trigger] table@[(rr * 48 + cc) * 9 + i] == lookup_entry_spec(
                    cfa,
                    rr,
                    cc,
                    i,
                ) by {
                    if rr == row && cc == col - 1 {
                        assert((rr * 48 + cc) * 9 + i == pre.len() + i);
                        assert(table@[pre.len() + i] == lookup_entry_spec(cfa, rr, cc, i));
                    } else {
                        assert((rr * 48 + cc) * 9 + i < pre.len());
                        assert(table@[(rr * 48 + cc) * 9 + i] == pre[(rr * 48 + cc) * 9 + i]);
                    }
                }
            }
        }
        row = row + 1;
    }
    table
}

/// The demosaic stage: holds the CFA pattern string of the source, empty
/// for a source that is not mosaiced.
#[derive(Clone, Debug)]
pub struct OpDemosaic {
    pub cfa: String,
}

impl OpDemosaic {
    pub fn new(img: &ImageSource) -> (r: OpDemosaic)
        ensures
            match img {
                ImageSource::Raw(raw) => r.cfa@ == raw.cfa@,
                ImageSource::Other(_) => r.cfa@.len() == 0,
            },
    {
        match img {
            ImageSource::Raw(raw) => OpDemosaic { cfa: raw.cfa.as_str().to_owned() },
            ImageSource::Other(_) => OpDemosaic { cfa: String::new() },
        }
    }
}

impl Serial for OpDemosaic {
    open spec fn serial_spec(&self) -> Seq<u8> {
        "demosaic".spec_bytes() + le64(vstd::utf8::encode_utf8(self.cfa@).len() as u64)
            + vstd::utf8::encode_utf8(self.cfa@)
    }

    fn serial_bytes(&self) -> (r: Vec<u8>)
        ensures
            r@ == self.serial_spec(),
    {
        let mut out: Vec<u8> = Vec::new();
        push_bytes(&mut out, "demosaic".as_bytes());
        let bytes = self.cfa.as_str().as_bytes();
        push_u64(&mut out, bytes.len() as u64);
        push_bytes(&mut out, bytes);
        assert(out@ =~= self.serial_spec());
        out
    }
}

/// Which of the four ways the demosaic stage runs.
#[derive(Clone, Copy, Debug, PartialEq, Eq, Structural)]
pub enum DemosaicPath {
    /// Four channels already and no downscale asked: hand the buffer on.
    Passthrough,
    /// Four channels already: plain scale-down.
    ScaleDown,
    /// Heavy downscale: demosaic and scale in one resampling pass.
    ScaledDemosaic,
    /// Full three-by-three demosaic at source size.
    Full,
    /// Full demosaic, then a mild scale-down.
    FullThenScale,
}

/// The least downscale factor at which a single resampling window is sure
/// to cover every color of the pattern, by pattern width.
pub open spec fn min_scale_of(cfa_width: int) -> int {
    if cfa_width == 6 {
        3
    } else if cfa_width == 12 {
        12
    } else {
        2
    }
}

/// The downscale factor from (w, h) to the bounds reaches m, comparing the
/// larger of the two axis ratios exactly.
pub open spec fn scale_at_least(w: int, h: int, nw: int, nh: int, m: int) -> bool {
    (nw > 0 && w >= m * nw) || (nh > 0 && h >= m * nh)
}

/// The path the demosaic stage takes for a buffer of the given channel
/// count and size, scaling towards the given planned size.
pub open spec fn demosaic_path_spec(
    colors: int,
    w: int,
    h: int,
    nw: int,
    nh: int,
    cfa_width: int,
) -> DemosaicPath {
    let scaling_down = !fits(w, h, nw, nh);
    if colors == 4 && !scaling_down {
        DemosaicPath::Passthrough
    } else if colors == 4 {
        DemosaicPath::ScaleDown
    } else if scale_at_least(w, h, nw, nh, min_scale_of(cfa_width)) {
        DemosaicPath::ScaledDemosaic
    } else if scaling_down {
        DemosaicPath::FullThenScale
    } else {
        DemosaicPath::Full
    }
}

/// Decide how the demosaic stage runs; pure in all its inputs.
pub fn demosaic_path(
    colors: usize,
    width: usize,
    height: usize,
    nwidth: usize,
    nheight: usize,
    cfa_width: usize,
) -> (r: DemosaicPath)
    ensures
        r == demosaic_path_spec(
            colors as int,
            width as int,
            height as int,
            nwidth as int,
            nheight as int,
            cfa_width as int,
        ),
{
    let scaling_down = !((nwidth == 0 || width <= nwidth) && (nheight == 0 || height <= nheight));
    let m: u128 = if cfa_width == 6 {
        3
    } else if cfa_width == 12 {
        12
    } else {
        2
    };
    if colors == 4 && !scaling_down {
        DemosaicPath::Passthrough
    } else if colors == 4 {
        DemosaicPath::ScaleDown
    } else if (nwidth > 0 && width as u128 >= m * nwidth as u128) || (nheight > 0
        && height as u128 >= m * nheight as u128) {
        DemosaicPath::ScaledDemosaic
    } else if scaling_down {
        DemosaicPath::FullThenScale
    } else {
        DemosaicPath::Full
    }
}

} // verus!
