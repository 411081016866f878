use vstd::prelude::*;
use vstd::string::StringSliceAdditionalSpecFns;
use crate::serial::{Serial, push_bytes, push_u32, le32};
use crate::sources::ImageSource;

verus! {

/// The camera-to-Lab stage: white balance, camera matrix, Lab encoding.
/// All entries are IEEE-754 single-precision bit patterns; the arithmetic
/// itself runs on the samples outside the planning logic.
#[derive(Clone, Copy, Debug, PartialEq, Eq)]
pub struct OpToLab {
    pub cam_to_xyz: [[u32; 4]; 3],
    pub cam_to_xyz_normalized: [[u32; 4]; 3],
    pub xyz_to_cam: [[u32; 3]; 4],
    pub wb_coeffs: [u32; 4],
}

/// The sRGB D65 primaries matrix, bit patterns of its single-precision
/// entries, with a zero fourth column.
pub open spec fn srgb_d65_bits() -> [[u32; 4]; 3] {
    [
        [0x3ed32d7cu32, 0x3eb71437u32, 0x3e38c49cu32, 0u32],
        [0x3e59c6edu32, 0x3f371437u32, 0x3d93d07du32, 0u32],
        [0x3c9e6221u32, 0x3df41aefu32, 0x3f734721u32, 0u32],
    ]
}

/// The inverse of the sRGB D65 matrix, bit patterns of its single-precision
/// entries, with a zero fourth row.
pub open spec fn xyz_d65_bits() -> [[u32; 3]; 4] {
    [
        [0x404f639du32, 0xbfc4c0f7u32, 0xbeff3f87u32],
        [0xbf7821d8u32, 0x3ff02120u32, 0x3d2a36b6u32],
        [0x3d63ea5bu32, 0xbe50ec27u32, 0x3f875327u32],
        [0u32, 0u32, 0u32],
    ]
}

/// The neutral descriptor a raster source gets: the camera is treated as
/// sRGB D65 itself, with unit white balance.
pub open spec fn tolab_raster_spec() -> OpToLab {
    OpToLab {
        cam_to_xyz: srgb_d65_bits(),
        cam_to_xyz_normalized: srgb_d65_bits(),
        xyz_to_cam: xyz_d65_bits(),
        wb_coeffs: [0x3f800000u32, 0x3f800000u32, 0x3f800000u32, 0u32],
    }
}

/// The descriptor a source starts with.
pub open spec fn tolab_of_source(img: &ImageSource) -> OpToLab {
    match img {
        ImageSource::Raw(raw) => OpToLab {
            cam_to_xyz: raw.cam_to_xyz,
            cam_to_xyz_normalized: raw.cam_to_xyz_normalized,
            xyz_to_cam: raw.xyz_to_cam,
            wb_coeffs: raw.wb_coeffs,
        },
        ImageSource::Other(_) => tolab_raster_spec(),
    }
}

impl OpToLab {
    pub fn new(img: &ImageSource) -> (r: OpToLab)
        ensures
            r == tolab_of_source(img),
    {
        match img {
            ImageSource::Raw(raw) => OpToLab {
                cam_to_xyz: raw.cam_to_xyz,
                cam_to_xyz_normalized: raw.cam_to_xyz_normalized,
                xyz_to_cam: raw.xyz_to_cam,
                wb_coeffs: raw.wb_coeffs,
            },
            ImageSource::Other(_) => OpToLab {
                cam_to_xyz: [
                    [0x3ed32d7c, 0x3eb71437, 0x3e38c49c, 0],
                    [0x3e59c6ed, 0x3f371437, 0x3d93d07d, 0],
                    [0x3c9e6221, 0x3df41aef, 0x3f734721, 0],
                ],
                cam_to_xyz_normalized: [
                    [0x3ed32d7c, 0x3eb71437, 0x3e38c49c, 0],
                    [0x3e59c6ed, 0x3f371437, 0x3d93d07d, 0],
                    [0x3c9e6221, 0x3df41aef, 0x3f734721, 0],
                ],
                xyz_to_cam: [
                    [0x404f639d, 0xbfc4c0f7, 0xbeff3f87],
                    [0xbf7821d8, 0x3ff02120, 0x3d2a36b6],
                    [0x3d63ea5b, 0xbe50ec27, 0x3f875327],
                    [0, 0, 0],
                ],
                wb_coeffs: [0x3f800000, 0x3f800000, 0x3f800000, 0],
            },
        }
    }
}

/// The byte image of a four-entry matrix row.
pub open spec fn row4_bytes(row: [u32; 4]) -> Seq<u8> {
    le32(row@[0]) + le32(row@[1]) + le32(row@[2]) + le32(row@[3])
}

/// The byte image of a three-entry matrix row.
pub open spec fn row3_bytes(row: [u32; 3]) -> Seq<u8> {
    le32(row@[0]) + le32(row@[1]) + le32(row@[2])
}

fn push_row4(out: &mut Vec<u8>, row: &[u32; 4])
    ensures
        final(out)@ == old(out)@ + row4_bytes(*row),
{
    push_u32(out, row[0]);
    push_u32(out, row[1]);
    push_u32(out, row[2]);
    push_u32(out, row[3]);
    assert(out@ =~= old(out)@ + row4_bytes(*row));
}

fn push_row3(out: &mut Vec<u8>, row: &[u32; 3])
    ensures
        final(out)@ == old(out)@ + row3_bytes(*row),
{
    push_u32(out, row[0]);
    push_u32(out, row[1]);
    push_u32(out, row[2]);
    assert(out@ =~= old(out)@ + row3_bytes(*row));
}

impl Serial for OpToLab {
    open spec fn serial_spec(&self) -> Seq<u8> {
        "to_lab".spec_bytes() + row4_bytes(self.cam_to_xyz@[0]) + row4_bytes(self.cam_to_xyz@[1])
            + row4_bytes(self.cam_to_xyz@[2]) + row4_bytes(self.cam_to_xyz_normalized@[0])
            + row4_bytes(self.cam_to_xyz_normalized@[1]) + row4_bytes(
            self.cam_to_xyz_normalized@[2],
        ) + row3_bytes(self.xyz_to_cam@[0]) + row3_bytes(self.xyz_to_cam@[1]) + row3_bytes(
            self.xyz_to_cam@[2],
        ) + row3_bytes(self.xyz_to_cam@[3]) + row4_bytes(self.wb_coeffs)
    }

    fn serial_bytes(&self) -> (r: Vec<u8>)
        ensures
            r@ == self.serial_spec(),
    {
        let mut out: Vec<u8> = Vec::new();
        push_bytes(&mut out, "to_lab".as_bytes());
        push_row4(&mut out, &self.cam_to_xyz[0]);
        push_row4(&mut out, &self.cam_to_xyz[1]);
        push_row4(&mut out, &self.cam_to_xyz[2]);
        push_row4(&mut out, &self.cam_to_xyz_normalized[0]);
        push_row4(&mut out, &self.cam_to_xyz_normalized[1]);
        push_row4(&mut out, &self.cam_to_xyz_normalized[2]);
        push_row3(&mut out, &self.xyz_to_cam[0]);
        push_row3(&mut out, &self.xyz_to_cam[1]);
        push_row3(&mut out, &self.xyz_to_cam[2]);
        push_row3(&mut out, &self.xyz_to_cam[3]);
        push_row4(&mut out, &self.wb_coeffs);
        assert(out@ =~= self.serial_spec());
        out
    }
}

/// The Lab-to-linear-sRGB stage; it has no parameters.
#[derive(Clone, Copy, Debug, PartialEq, Eq, Structural)]
pub struct OpFromLab {
}

impl OpFromLab {
    pub fn new(_img: &ImageSource) -> (r: OpFromLab)
        ensures
            r == (OpFromLab {  }),
    {
        OpFromLab {  }
    }
}

impl Serial for OpFromLab {
    open spec fn serial_spec(&self) -> Seq<u8> {
        "from_lab".spec_bytes()
    }

    fn serial_bytes(&self) -> (r: Vec<u8>)
        ensures
            r@ == self.serial_spec(),
    {
        let mut out: Vec<u8> = Vec::new();
        push_bytes(&mut out, "from_lab".as_bytes());
        assert(out@ =~= self.serial_spec());
        out
    }
}

} // verus!
