use vstd::prelude::*;
use vstd::string::StringSliceAdditionalSpecFns;
use crate::serial::{Serial, push_bytes, push_bool, push_u64, push_u16, bool_byte, le16, le64};
use crate::sources::ImageSource;

verus! {

/// The first stage: crop the source and normalize its integer levels into
/// floating point.  For raster sources the crops are zero and the levels
/// unused.
#[derive(Clone, Copy, Debug, PartialEq, Eq)]
pub struct OpGoFloat {
    pub crop_top: usize,
    pub crop_right: usize,
    pub crop_bottom: usize,
    pub crop_left: usize,
    pub is_cfa: bool,
    pub blacklevels: [u16; 4],
    pub whitelevels: [u16; 4],
}

/// The descriptor a source starts with.
pub open spec fn gofloat_of_source(img: &ImageSource) -> OpGoFloat {
    match img {
        ImageSource::Raw(raw) => OpGoFloat {
            crop_top: raw.crops[0],
            crop_right: raw.crops[1],
            crop_bottom: raw.crops[2],
            crop_left: raw.crops[3],
            is_cfa: raw.is_cfa,
            blacklevels: raw.blacklevels,
            whitelevels: raw.whitelevels,
        },
        ImageSource::Other(_) => OpGoFloat {
            crop_top: 0,
            crop_right: 0,
            crop_bottom: 0,
            crop_left: 0,
            is_cfa: false,
            blacklevels: [0u16, 0u16, 0u16, 0u16],
            whitelevels: [0u16, 0u16, 0u16, 0u16],
        },
    }
}

/// The crop window: origin and size, clamped so at least a ten by ten
/// image remains.
pub open spec fn crop_window_spec(o: OpGoFloat, ow: int, oh: int) -> (int, int, int, int) {
    let x = if o.crop_left as int <= ow - 10 { o.crop_left as int } else { ow - 10 };
    let y = if o.crop_top as int <= oh - 10 { o.crop_top as int } else { oh - 10 };
    let cw = if o.crop_left + o.crop_right <= ow - 10 { o.crop_left + o.crop_right } else {
        ow - 10
    };
    let ch = if o.crop_top + o.crop_bottom <= oh - 10 { o.crop_top + o.crop_bottom } else {
        oh - 10
    };
    (x, y, ow - cw, oh - ch)
}

/// The channel count and monochrome flag of the buffer the stage builds
/// from a raw payload with the given samples per pixel.
pub open spec fn gofloat_channels_spec(cpp: int, is_cfa: bool) -> (int, bool) {
    if cpp == 1 && !is_cfa {
        (4int, true)
    } else if cpp == 3 {
        (4int, false)
    } else {
        (cpp, false)
    }
}

pub fn gofloat_channels(cpp: usize, is_cfa: bool) -> (r: (usize, bool))
    ensures
        (r.0 as int, r.1) == gofloat_channels_spec(cpp as int, is_cfa),
{
    if cpp == 1 && !is_cfa {
        (4, true)
    } else if cpp == 3 {
        (4, false)
    } else {
        (cpp, false)
    }
}

impl OpGoFloat {
    pub fn new(img: &ImageSource) -> (r: OpGoFloat)
        ensures
            r == gofloat_of_source(img),
    {
        match img {
            ImageSource::Raw(raw) => OpGoFloat {
                crop_top: raw.crops[0],
                crop_right: raw.crops[1],
                crop_bottom: raw.crops[2],
                crop_left: raw.crops[3],
                is_cfa: raw.is_cfa,
                blacklevels: raw.blacklevels,
                whitelevels: raw.whitelevels,
            },
            ImageSource::Other(_) => OpGoFloat {
                crop_top: 0,
                crop_right: 0,
                crop_bottom: 0,
                crop_left: 0,
                is_cfa: false,
                blacklevels: [0, 0, 0, 0],
                whitelevels: [0, 0, 0, 0],
            },
        }
    }

    /// The crop window inside a source of the given size: x, y, width,
    /// height.  At least ten pixels stay on each axis, and the window lies
    /// inside the source.
    pub fn size_image(&self, owidth: usize, oheight: usize) -> (r: (usize, usize, usize, usize))
        requires
            owidth >= 10,
            oheight >= 10,
        ensures
            (r.0 as int, r.1 as int, r.2 as int, r.3 as int) == crop_window_spec(
                *self,
                owidth as int,
                oheight as int,
            ),
            r.2 >= 10,
            r.3 >= 10,
            r.0 + r.2 <= owidth,
            r.1 + r.3 <= oheight,
    {
        let x = if self.crop_left <= owidth - 10 { self.crop_left } else { owidth - 10 };
        let y = if self.crop_top <= oheight - 10 { self.crop_top } else { oheight - 10 };
        let cl = self.crop_left as u128 + self.crop_right as u128;
        let ct = self.crop_top as u128 + self.crop_bottom as u128;
        let cw: usize = if cl <= (owidth - 10) as u128 { (cl as usize) } else { owidth - 10 };
        let ch: usize = if ct <= (oheight - 10) as u128 { (ct as usize) } else { oheight - 10 };
        (x, y, owidth - cw, oheight - ch)
    }

    /// The output size: the cropped window.
    pub fn transform_forward(&mut self, width: usize, height: usize) -> (r: (usize, usize))
        requires
            width >= 10,
            height >= 10,
        ensures
            *final(self) == *old(self),
            (r.0 as int, r.1 as int) == (
                crop_window_spec(*old(self), width as int, height as int).2,
                crop_window_spec(*old(self), width as int, height as int).3,
            ),
    {
        let (_, _, w, h) = self.size_image(width, height);
        (w, h)
    }

    /// Sizing below this stage is relative to the cropped input, so the
    /// reverse pass is the identity.
    pub fn transform_reverse(&mut self, width: usize, height: usize) -> (r: (usize, usize))
        ensures
            *final(self) == *old(self),
            r == (width, height),
    {
        (width, height)
    }
}

impl Serial for OpGoFloat {
    open spec fn serial_spec(&self) -> Seq<u8> {
        "gofloat".spec_bytes() + le64(self.crop_top as u64) + le64(self.crop_right as u64) + le64(
            self.crop_bottom as u64,
        ) + le64(self.crop_left as u64) + bool_byte(self.is_cfa) + le16(self.blacklevels@[0])
            + le16(self.blacklevels@[1]) + le16(self.blacklevels@[2]) + le16(self.blacklevels@[3])
            + le16(self.whitelevels@[0]) + le16(self.whitelevels@[1]) + le16(self.whitelevels@[2])
            + le16(self.whitelevels@[3])
    }

    fn serial_bytes(&self) -> (r: Vec<u8>)
        ensures
            r@ == self.serial_spec(),
    {
        let mut out: Vec<u8> = Vec::new();
        push_bytes(&mut out, "gofloat".as_bytes());
        push_u64(&mut out, self.crop_top as u64);
        push_u64(&mut out, self.crop_right as u64);
        push_u64(&mut out, self.crop_bottom as u64);
        push_u64(&mut out, self.crop_left as u64);
        push_bool(&mut out, self.is_cfa);
        push_u16(&mut out, self.blacklevels[0]);
        push_u16(&mut out, self.blacklevels[1]);
        push_u16(&mut out, self.blacklevels[2]);
        push_u16(&mut out, self.blacklevels[3]);
        push_u16(&mut out, self.whitelevels[0]);
        push_u16(&mut out, self.whitelevels[1]);
        push_u16(&mut out, self.whitelevels[2]);
        push_u16(&mut out, self.whitelevels[3]);
        assert(out@ =~= self.serial_spec());
        out
    }
}

} // verus!
