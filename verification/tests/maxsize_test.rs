use imagepipe::{ImageSource, Pipeline, RasterSpec, Rotation};

fn create_pipeline() -> Pipeline {
    let source = ImageSource::Other(RasterSpec { width: 128, height: 64, bits: 8 });
    Pipeline::new_from_source(source).unwrap()
}

// Plan the run and return the size of the raster the chain emits: the
// demosaic-stage size pushed through the transform stage.
fn planned_output(pipeline: &mut Pipeline) -> (usize, usize) {
    pipeline.plan_dimensions();
    let dw = pipeline.globals.settings.demosaic_width;
    let dh = pipeline.globals.settings.demosaic_height;
    pipeline.ops.transform.transform_forward(dw, dh)
}

#[test]
fn default_same_size() {
    let mut pipeline = create_pipeline();
    assert_eq!(planned_output(&mut pipeline), (128, 64));
}

#[test]
fn no_upscaling() {
    let mut pipeline = create_pipeline();
    pipeline.globals.settings.maxwidth = 256;
    assert_eq!(planned_output(&mut pipeline), (128, 64));
    pipeline.globals.settings.maxwidth = 128;
    assert_eq!(planned_output(&mut pipeline), (128, 64));
}

#[test]
fn downscale_keeps_ratio() {
    let mut pipeline = create_pipeline();
    pipeline.globals.settings.maxwidth = 64;
    assert_eq!(planned_output(&mut pipeline), (64, 32));
}

#[test]
fn rotation_works() {
    let mut pipeline = create_pipeline();
    pipeline.globals.settings.maxwidth = 64;
    pipeline.ops.transform.rotation = Rotation::Rotate90;
    assert_eq!(planned_output(&mut pipeline), (64, 128));

    let mut pipeline = create_pipeline();
    pipeline.globals.settings.maxwidth = 32;
    pipeline.ops.transform.rotation = Rotation::Rotate90;
    assert_eq!(planned_output(&mut pipeline), (32, 64));

    let mut pipeline = create_pipeline();
    pipeline.globals.settings.maxwidth = 256;
    pipeline.ops.transform.rotation = Rotation::Rotate90;
    assert_eq!(planned_output(&mut pipeline), (64, 128));
}

#[test]
fn scaling_bounds_both_axes() {
    let (w, h) = imagepipe::scaling_size(4000, 3000, 1000, 500);
    assert!(w <= 1000 && h <= 500);
    assert_eq!((w, h), (666, 500));
}

#[test]
fn scaling_free_axis() {
    assert_eq!(imagepipe::scaling_size(128, 64, 64, 0), (64, 32));
    assert_eq!(imagepipe::scaling_size(128, 64, 0, 32), (64, 32));
    assert_eq!(imagepipe::scaling_size(128, 64, 0, 0), (128, 64));
}
