use vstd::prelude::*;
use crate::transform::Orientation;

verus! {

/// The metadata of a decoded raw sensor capture that the pipeline reads.
/// Matrix and multiplier entries are IEEE-754 single-precision bit patterns;
/// the pixel payload itself never enters the planning logic and stays with
/// the caller.  The white-balance multipliers are already normalized: every
/// non-finite entry replaced by one and all entries divided by the green one.
#[derive(Clone, Debug)]
pub struct RawSpec {
    pub width: usize,
    pub height: usize,
    /// Components per pixel: 1 for CFA or monochrome data, 3 for RGB.
    pub cpp: usize,
    /// Whether the payload is a mosaiced single-channel grid.
    pub is_cfa: bool,
    /// Per-channel black levels.
    pub blacklevels: [u16; 4],
    /// Per-channel white levels.
    pub whitelevels: [u16; 4],
    /// Normalized white-balance multipliers, as f32 bit patterns.
    pub wb_coeffs: [u32; 4],
    /// Camera-to-XYZ matrix, as f32 bit patterns.
    pub cam_to_xyz: [[u32; 4]; 3],
    /// Camera-to-XYZ matrix normalized for D65 white, as f32 bit patterns.
    pub cam_to_xyz_normalized: [[u32; 4]; 3],
    /// XYZ-to-camera matrix, as f32 bit patterns.
    pub xyz_to_cam: [[u32; 3]; 4],
    /// The CFA pattern of the crop window, one letter per pattern cell.
    pub cfa: String,
    pub orientation: Orientation,
    /// Crop insets in pixels: top, right, bottom, left.
    pub crops: [usize; 4],
}

/// The metadata of a conventional raster image: the pipeline only plans over
/// its dimensions and sample width; the samples stay with the caller.
#[derive(Clone, Copy, Debug)]
pub struct RasterSpec {
    pub width: usize,
    pub height: usize,
    /// Bits per sample, 8 or 16.
    pub bits: usize,
}

/// What the pipeline was built from.
#[derive(Clone, Debug)]
pub enum ImageSource {
    Raw(RawSpec),
    Other(RasterSpec),
}

impl ImageSource {
    pub open spec fn width_spec(&self) -> usize {
        match self {
            ImageSource::Raw(raw) => raw.width,
            ImageSource::Other(img) => img.width,
        }
    }

    pub open spec fn height_spec(&self) -> usize {
        match self {
            ImageSource::Raw(raw) => raw.height,
            ImageSource::Other(img) => img.height,
        }
    }

    pub fn width(&self) -> (r: usize)
        ensures
            r == self.width_spec(),
    {
        match self {
            ImageSource::Raw(raw) => raw.width,
            ImageSource::Other(img) => img.width,
        }
    }

    pub fn height(&self) -> (r: usize)
        ensures
            r == self.height_spec(),
    {
        match self {
            ImageSource::Raw(raw) => raw.height,
            ImageSource::Other(img) => img.height,
        }
    }
}

} // verus!
