//! Planning core of a raw-image processing pipeline: op descriptors with a
//! stable serialization, digest-keyed caching, size planning, and the
//! integer geometry of cropping, rotating and demosaicing.  The
//! floating-point sample kernels run outside, against these contracts.

pub mod serial;
pub mod hasher;
pub mod scaling;
pub mod sources;
pub mod transform;
pub mod rotatecrop;
pub mod demosaic;
pub mod gofloat;
pub mod colorspaces;
pub mod gamma;
pub mod curves;
pub mod cache;
pub mod pipeline;

pub use serial::Serial;
pub use hasher::{BufHash, BufHasher};
pub use scaling::scaling_size;
pub use sources::{ImageSource, RawSpec, RasterSpec};
pub use transform::{Orientation, Rotation, OpTransform, rotate_buffer};
pub use rotatecrop::OpRotateCrop;
pub use demosaic::{Cfa, OpDemosaic, DemosaicPath, demosaic_path, demosaic_lookup};
pub use gofloat::{OpGoFloat, gofloat_channels};
pub use colorspaces::{OpToLab, OpFromLab};
pub use gamma::OpGamma;
pub use curves::OpBaseCurve;
pub use cache::{BufferCache, probe_keys};
pub use pipeline::{
    Pipeline, PipelineGlobals, PipelineOps, PipelineSerialization, PipelineSettings, SRGBImage,
    SRGBImage16, start_index, buffer_weight,
};
