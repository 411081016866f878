use imagepipe::{Cfa, DemosaicPath, demosaic_lookup, demosaic_path};

#[test]
fn cfa_parses_bayer() {
    let cfa = Cfa::new("RGGB").unwrap();
    assert_eq!((cfa.width, cfa.height), (2, 2));
    assert_eq!(cfa.color_at(0, 0), 0);
    assert_eq!(cfa.color_at(0, 1), 1);
    assert_eq!(cfa.color_at(1, 0), 1);
    assert_eq!(cfa.color_at(1, 1), 2);
    // the pattern repeats
    assert_eq!(cfa.color_at(2, 2), 0);
    assert_eq!(cfa.color_at(3, 5), 2);
}

#[test]
fn cfa_parses_xtrans() {
    let pattern = "GBGGRGRGRBGBGBGGRGGRGGBGBGBRGRGRGGBG";
    let cfa = Cfa::new(pattern).unwrap();
    assert_eq!((cfa.width, cfa.height), (6, 6));
    assert_eq!(cfa.color_at(0, 0), 1);
    assert_eq!(cfa.color_at(0, 1), 2);
    assert_eq!(cfa.color_at(1, 0), 0);
}

#[test]
fn cfa_rejects_bad_input() {
    assert!(Cfa::new("RGG").is_none());
    assert!(Cfa::new("RGGX").is_none());
}

#[test]
fn cfa_empty_pattern() {
    let cfa = Cfa::new("").unwrap();
    assert_eq!((cfa.width, cfa.height), (0, 0));
}

#[test]
fn lookup_routes_center_to_own_color() {
    let cfa = Cfa::new("RGGB").unwrap();
    let table = demosaic_lookup(&cfa);
    assert_eq!(table.len(), 48 * 48 * 9);
    for row in 0..48usize {
        for col in 0..48usize {
            let pix = cfa.color_at(row, col);
            for i in 0..9usize {
                let entry = table[(row * 48 + col) * 9 + i];
                if i == 4 {
                    assert_eq!(entry, pix);
                } else {
                    assert_ne!(entry, pix);
                }
            }
        }
    }
}

#[test]
fn lookup_spare_channel_for_same_color_neighbors() {
    let cfa = Cfa::new("RGGB").unwrap();
    let table = demosaic_lookup(&cfa);
    // the pixel at (0, 1) is green; its diagonal neighbor at (1, 0) is the
    // same green and must be routed to the spare channel
    let entry = table[(0 * 48 + 1) * 9 + 8];
    assert_eq!(entry, 4);
    // its red neighbor at (0, 0) keeps its own channel
    let entry = table[(0 * 48 + 1) * 9 + 3];
    assert_eq!(entry, 0);
}

#[test]
fn path_passthrough_and_scaledown() {
    // four channels, target not smaller: hand the buffer on
    assert_eq!(demosaic_path(4, 100, 80, 100, 80, 2), DemosaicPath::Passthrough);
    assert_eq!(demosaic_path(4, 100, 80, 0, 0, 2), DemosaicPath::Passthrough);
    // four channels, target smaller: plain scale-down
    assert_eq!(demosaic_path(4, 100, 80, 50, 40, 2), DemosaicPath::ScaleDown);
}

#[test]
fn path_scaled_demosaic_needs_enough_downscale() {
    // a Bayer pattern needs a factor of two
    assert_eq!(demosaic_path(1, 100, 80, 50, 40, 2), DemosaicPath::ScaledDemosaic);
    assert_eq!(demosaic_path(1, 100, 80, 60, 48, 2), DemosaicPath::FullThenScale);
    assert_eq!(demosaic_path(1, 100, 80, 100, 80, 2), DemosaicPath::Full);
    // a six-wide pattern needs a factor of three
    assert_eq!(demosaic_path(1, 120, 90, 60, 45, 6), DemosaicPath::FullThenScale);
    assert_eq!(demosaic_path(1, 120, 90, 40, 30, 6), DemosaicPath::ScaledDemosaic);
    // a twelve-wide pattern needs a factor of twelve
    assert_eq!(demosaic_path(1, 120, 96, 12, 10, 12), DemosaicPath::FullThenScale);
    assert_eq!(demosaic_path(1, 120, 96, 10, 8, 12), DemosaicPath::ScaledDemosaic);
}
