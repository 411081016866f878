use imagepipe::{
    ImageSource, Orientation, Pipeline, RasterSpec, RawSpec, Rotation, Serial, start_index,
    buffer_weight, OpGoFloat, OpTransform,
};

fn raster_source() -> ImageSource {
    ImageSource::Other(RasterSpec { width: 128, height: 64, bits: 8 })
}

fn raw_source() -> ImageSource {
    ImageSource::Raw(RawSpec {
        width: 4032,
        height: 3024,
        cpp: 1,
        is_cfa: true,
        blacklevels: [512, 512, 512, 512],
        whitelevels: [16383, 16383, 16383, 16383],
        wb_coeffs: [0x40133333, 0x3f800000, 0x3fc00000, 0x3f800000],
        cam_to_xyz: [[0x3f000000, 0, 0, 0], [0, 0x3f000000, 0, 0], [0, 0, 0x3f000000, 0]],
        cam_to_xyz_normalized: [[0x3f000000, 0, 0, 0], [0, 0x3f000000, 0, 0], [
            0,
            0,
            0x3f000000,
            0,
        ]],
        xyz_to_cam: [[0x40000000, 0, 0], [0, 0x40000000, 0], [0, 0, 0x40000000], [0, 0, 0]],
        cfa: "RGGB".to_string(),
        orientation: Orientation::Rotate90,
        crops: [8, 8, 8, 8],
    })
}

#[test]
fn default_ops_detects_changes() {
    let mut pipeline = Pipeline::new_from_source(raster_source()).unwrap();
    assert!(pipeline.default_ops());
    pipeline.ops.transform.rotation = Rotation::Rotate90;
    assert!(!pipeline.default_ops());
    pipeline.ops.transform.rotation = Rotation::Normal;
    assert!(pipeline.default_ops());
}

#[test]
fn op_hashes_change_from_edit_onwards() {
    let pipeline = Pipeline::new_from_source(raster_source()).unwrap();
    let before = pipeline.op_hashes();
    let mut edited = Pipeline::new_from_source(raster_source()).unwrap();
    edited.ops.gamma = imagepipe::OpGamma {};
    let unchanged = edited.op_hashes();
    assert_eq!(before, unchanged);
    edited.ops.transform.fliph = true;
    let after = edited.op_hashes();
    // only the last stage changed, so only its key moves
    assert_eq!(before[..6], after[..6]);
    assert_ne!(before[6], after[6]);
}

#[test]
fn op_hashes_cascade_from_early_edit() {
    let mut pipeline = Pipeline::new_from_source(raster_source()).unwrap();
    let before = pipeline.op_hashes();
    pipeline.ops.gofloat.crop_top = 2;
    let after = pipeline.op_hashes();
    // an edit to the first stage invalidates every key after it
    for k in 0..7 {
        assert_ne!(before[k], after[k]);
    }
}

#[test]
fn settings_feed_the_keys() {
    let mut pipeline = Pipeline::new_from_source(raster_source()).unwrap();
    let before = pipeline.op_hashes();
    pipeline.globals.settings.maxwidth = 64;
    let after = pipeline.op_hashes();
    for k in 0..7 {
        assert_ne!(before[k], after[k]);
    }
}

#[test]
fn raw_defaults_follow_the_source() {
    let pipeline = Pipeline::new_from_source(raw_source()).unwrap();
    assert_eq!(pipeline.ops.gofloat.crop_top, 8);
    assert!(pipeline.ops.gofloat.is_cfa);
    assert_eq!(pipeline.ops.gofloat.blacklevels, [512, 512, 512, 512]);
    assert_eq!(pipeline.ops.demosaic.cfa, "RGGB");
    assert_eq!(pipeline.ops.transform.rotation, Rotation::Rotate90);
    assert!(!pipeline.ops.transform.fliph);
    assert!(pipeline.default_ops());
}

#[test]
fn raw_planning_crops_then_bounds() {
    let mut pipeline = Pipeline::new_from_source(raw_source()).unwrap();
    pipeline.globals.settings.maxwidth = 1000;
    pipeline.plan_dimensions();
    // cropped size 4016x3008, swapped to 3008x4016, bounded to (1000, 1335),
    // swapped back for the demosaic stage
    assert_eq!(pipeline.globals.settings.demosaic_width, 1335);
    assert_eq!(pipeline.globals.settings.demosaic_height, 1000);
}

#[test]
fn transform_serial_bytes_are_stable() {
    let op = OpTransform { rotation: Rotation::Rotate180, fliph: true, flipv: false };
    let mut expected: Vec<u8> = b"transform".to_vec();
    expected.push(2);
    expected.push(1);
    expected.push(0);
    assert_eq!(op.serial_bytes(), expected);
}

#[test]
fn gofloat_serial_bytes_are_stable() {
    let op = OpGoFloat {
        crop_top: 1,
        crop_right: 2,
        crop_bottom: 3,
        crop_left: 4,
        is_cfa: true,
        blacklevels: [5, 6, 7, 8],
        whitelevels: [9, 10, 11, 12],
    };
    let mut expected: Vec<u8> = b"gofloat".to_vec();
    for v in [1u64, 2, 3, 4] {
        expected.extend_from_slice(&v.to_le_bytes());
    }
    expected.push(1);
    for v in [5u16, 6, 7, 8, 9, 10, 11, 12] {
        expected.extend_from_slice(&v.to_le_bytes());
    }
    assert_eq!(op.serial_bytes(), expected);
}

#[test]
fn start_index_takes_last_hit() {
    assert_eq!(start_index(&vec![false, false, false]), 0);
    assert_eq!(start_index(&vec![true, false, false]), 1);
    assert_eq!(start_index(&vec![false, true, true, false, false]), 3);
    assert_eq!(start_index(&vec![true, true, true]), 3);
    let no_hits: Vec<bool> = Vec::new();
    assert_eq!(start_index(&no_hits), 0);
}

#[test]
fn buffer_weight_counts_four_bytes_per_sample() {
    assert_eq!(buffer_weight(10, 5, 3), 600);
    assert_eq!(buffer_weight(0, 5, 3), 0);
}

#[test]
fn crop_window_is_clamped() {
    let op = OpGoFloat {
        crop_top: 95,
        crop_right: 0,
        crop_bottom: 0,
        crop_left: 95,
        is_cfa: false,
        blacklevels: [0, 0, 0, 0],
        whitelevels: [0, 0, 0, 0],
    };
    let (x, y, w, h) = op.size_image(100, 100);
    assert_eq!((x, y), (90, 90));
    assert_eq!((w, h), (10, 10));
}

#[test]
fn gofloat_channel_layout() {
    assert_eq!(imagepipe::gofloat_channels(1, false), (4, true));
    assert_eq!(imagepipe::gofloat_channels(3, false), (4, false));
    assert_eq!(imagepipe::gofloat_channels(1, true), (1, false));
}
