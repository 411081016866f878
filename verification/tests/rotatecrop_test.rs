use imagepipe::{OpRotateCrop, Serial};

// A 16-bit sample value as millionths of full scale, the library's
// fixed-point crop unit.
fn crop16(v: u16) -> u32 {
    ((v as u64) * 1_000_000 / 65535) as u32
}

// An 8-bit sample value as millionths of full scale.
fn crop8(v: u8) -> u32 {
    ((v as u64) * 1_000_000 / 255) as u32
}

#[test]
fn roundtrip_transform() {
    let mut op = OpRotateCrop::empty();
    for dim in (0..10000usize).step_by(1780) {
        for crop1 in (0..u16::MAX).step_by(97) {
            for crop2 in (0..u16::MAX).step_by(101) {
                op.crop_top = crop16(crop1);
                op.crop_right = crop16(crop1);
                op.crop_bottom = crop16(crop2);
                op.crop_left = crop16(crop2);
                let (width, height) = (dim, dim);
                // First reverse and then direct to make sure that if we promised we could
                // make a given output from a given input we then follow through exactly
                let intermediate = op.transform_reverse(width, height);
                let result = op.transform_forward(intermediate.0, intermediate.1);
                let from = (width, height);
                assert_eq!(result, from, "Got {:?}->{:?}->{:?} crops ({}/{}/{}/{})",
                    from, intermediate, result, op.crop_top, op.crop_right, op.crop_bottom, op.crop_left);
            }
        }
    }
}

#[test]
fn roundtrip_transform_rotation() {
    let mut op = OpRotateCrop::empty();
    for width in (0..10000usize).step_by(89) {
        for height in (0..10000usize).step_by(97) {
            for rotation in 0..u8::MAX {
                op.rotation = crop8(rotation);
                let from = (width, height);
                let inter1 = op.transform_forward(from.0, from.1);
                let inter2 = op.transform_reverse(inter1.0, inter1.1);
                let result = op.transform_forward(inter2.0, inter2.1);
                assert_eq!(result, inter1, "Got {:?}->{:?}->{:?}->{:?} crops ({}/{}/{}/{})",
                    from, inter1, inter2, result, op.crop_top, op.crop_right, op.crop_bottom, op.crop_left);
            }
        }
    }
}

#[test]
fn crop_sizing_top() {
    let mut op = OpRotateCrop::empty();
    op.crop_top = 100_000;
    assert_eq!(op.calc_size(100, 100, false), (100, 90));
}

#[test]
fn crop_sizing_horizontal() {
    let mut op = OpRotateCrop::empty();
    op.crop_left = 100_000;
    op.crop_right = 100_000;
    assert_eq!(op.calc_size(100, 100, false), (80, 100));
}

#[test]
fn crop_sizing_reverse_undoes() {
    let mut op = OpRotateCrop::empty();
    op.crop_top = 100_000;
    op.crop_bottom = 100_000;
    op.crop_left = 250_000;
    assert_eq!(op.calc_size(100, 100, false), (75, 80));
    assert_eq!(op.calc_size(75, 80, true), (100, 100));
}

#[test]
fn quarter_turn_swaps_bounding_box() {
    let mut op = OpRotateCrop::empty();
    op.rotation = 1_000_000;
    // a full quarter turn swaps the two axes of the bounding box
    assert_eq!(op.calc_size(200, 100, false), (100, 200));
}

#[test]
fn crop_beyond_limits_is_passthrough() {
    let mut op = OpRotateCrop::empty();
    op.crop_left = 600_000;
    op.crop_right = 600_000;
    assert_eq!(op.calc_size(100, 100, false), (100, 100));
}

#[test]
fn rotatecrop_serial_bytes_are_stable() {
    let mut op = OpRotateCrop::empty();
    op.crop_top = 1;
    op.crop_right = 2;
    op.crop_bottom = 3;
    op.crop_left = 4;
    op.rotation = 5;
    let mut expected: Vec<u8> = b"rotatecrop".to_vec();
    for v in [1u32, 2, 3, 4, 5] {
        expected.extend_from_slice(&v.to_le_bytes());
    }
    expected.extend_from_slice(&1_000_000u64.to_le_bytes());
    assert_eq!(op.serial_bytes(), expected);
}
