use vstd::prelude::*;
use vstd::string::StringSliceAdditionalSpecFns;
use crate::serial::{Serial, bytes_eq, push_u64, push_bool, push_bytes, le64, bool_byte};
use crate::hasher::{BufHash, BufHasher, digest_of};
use crate::cache::BufferCache;
use crate::sources::ImageSource;
use crate::gofloat::{OpGoFloat, crop_window_spec};
use crate::demosaic::OpDemosaic;
use crate::colorspaces::{OpToLab, OpFromLab, tolab_of_source};
use crate::curves::{OpBaseCurve, points_bytes};
use crate::gamma::OpGamma;
use crate::transform::{OpTransform, transform_of_orientation, source_orientation};
use crate::gofloat::gofloat_of_source;
use crate::scaling::{scale_to_fit, scaling_size};

verus! {

/// A finished 8-bit sRGB raster: three samples per pixel, row-major.
#[derive(Clone, Debug)]
pub struct SRGBImage {
    pub width: usize,
    pub height: usize,
    pub data: Vec<u8>,
}

impl SRGBImage {
    /// The sample count matches the dimensions.
    pub open spec fn wf(&self) -> bool {
        self.data@.len() == self.width * self.height * 3
    }
}

/// A finished 16-bit sRGB raster: three samples per pixel, row-major.
#[derive(Clone, Debug)]
pub struct SRGBImage16 {
    pub width: usize,
    pub height: usize,
    pub data: Vec<u16>,
}

impl SRGBImage16 {
    /// The sample count matches the dimensions.
    pub open spec fn wf(&self) -> bool {
        self.data@.len() == self.width * self.height * 3
    }
}

/// The pipeline's run parameters.  A bound of zero leaves that axis free;
/// the demosaic size is derived by planning before each run.
#[derive(Clone, Copy, Debug, PartialEq, Eq, Structural)]
pub struct PipelineSettings {
    pub maxwidth: usize,
    pub maxheight: usize,
    pub demosaic_width: usize,
    pub demosaic_height: usize,
    pub linear: bool,
    pub use_fastpath: bool,
}

/// The settings a pipeline starts with: no bounds, gamma applied, the
/// raster fastpath allowed.
pub open spec fn default_settings_spec() -> PipelineSettings {
    PipelineSettings {
        maxwidth: 0,
        maxheight: 0,
        demosaic_width: 0,
        demosaic_height: 0,
        linear: false,
        use_fastpath: true,
    }
}

impl Default for PipelineSettings {
    fn default() -> (r: PipelineSettings)
        ensures
            r == default_settings_spec(),
    {
        PipelineSettings {
            maxwidth: 0,
            maxheight: 0,
            demosaic_width: 0,
            demosaic_height: 0,
            linear: false,
            use_fastpath: true,
        }
    }
}

impl Serial for PipelineSettings {
    open spec fn serial_spec(&self) -> Seq<u8> {
        le64(self.maxwidth as u64) + le64(self.maxheight as u64) + le64(self.demosaic_width as u64)
            + le64(self.demosaic_height as u64) + bool_byte(self.linear) + bool_byte(
            self.use_fastpath,
        )
    }

    fn serial_bytes(&self) -> (r: Vec<u8>)
        ensures
            r@ == self.serial_spec(),
    {
        let mut out: Vec<u8> = Vec::new();
        push_u64(&mut out, self.maxwidth as u64);
        push_u64(&mut out, self.maxheight as u64);
        push_u64(&mut out, self.demosaic_width as u64);
        push_u64(&mut out, self.demosaic_height as u64);
        push_bool(&mut out, self.linear);
        push_bool(&mut out, self.use_fastpath);
        assert(out@ =~= self.serial_spec());
        out
    }
}

impl PipelineSettings {
    /// Absorb the settings into the digest state.
    pub fn hash(&self, hasher: &mut BufHasher)
        ensures
            final(hasher).input_bytes() == old(hasher).input_bytes() + self.serial_spec(),
    {
        hasher.from_serialize(self);
    }
}

/// The seven stages of the pipeline, in their fixed order.
#[derive(Clone, Debug)]
pub struct PipelineOps {
    pub gofloat: OpGoFloat,
    pub demosaic: OpDemosaic,
    pub tolab: OpToLab,
    pub basecurve: OpBaseCurve,
    pub fromlab: OpFromLab,
    pub gamma: OpGamma,
    pub transform: OpTransform,
}

/// The stable serialization of the op at a chain position.
pub open spec fn op_serial_at(ops: PipelineOps, i: int) -> Seq<u8> {
    if i == 0 {
        ops.gofloat.serial_spec()
    } else if i == 1 {
        ops.demosaic.serial_spec()
    } else if i == 2 {
        ops.tolab.serial_spec()
    } else if i == 3 {
        ops.basecurve.serial_spec()
    } else if i == 4 {
        ops.fromlab.serial_spec()
    } else if i == 5 {
        ops.gamma.serial_spec()
    } else {
        ops.transform.serial_spec()
    }
}

/// The serialization of the whole op chain.
pub open spec fn ops_serial_spec(ops: PipelineOps) -> Seq<u8> {
    op_serial_at(ops, 0) + op_serial_at(ops, 1) + op_serial_at(ops, 2) + op_serial_at(ops, 3)
        + op_serial_at(ops, 4) + op_serial_at(ops, 5) + op_serial_at(ops, 6)
}

/// The serialization the default op chain of a source has.
pub open spec fn default_ops_serial_spec(img: &ImageSource) -> Seq<u8> {
    gofloat_of_source(img).serial_spec() + ("demosaic".spec_bytes() + le64(
        vstd::utf8::encode_utf8(source_cfa_spec(img)).len() as u64,
    ) + vstd::utf8::encode_utf8(source_cfa_spec(img))) + tolab_of_source(img).serial_spec() + (
    "basecurve".spec_bytes() + le64(0u64) + points_bytes(Seq::<[u32; 2]>::empty()))
        + "from_lab".spec_bytes() + "gamma".spec_bytes() + transform_of_orientation(
        source_orientation(img),
    ).serial_spec()
}

/// The CFA pattern of the source, empty for rasters.
pub open spec fn source_cfa_spec(img: &ImageSource) -> Seq<char> {
    match img {
        ImageSource::Raw(raw) => raw.cfa@,
        ImageSource::Other(_) => Seq::<char>::empty(),
    }
}

impl PipelineOps {
    /// The default chain a source starts with.
    pub fn new(img: &ImageSource) -> (r: PipelineOps)
        ensures
            r.gofloat == gofloat_of_source(img),
            r.demosaic.cfa@ == source_cfa_spec(img),
            r.tolab == tolab_of_source(img),
            r.basecurve.points@.len() == 0,
            r.transform == transform_of_orientation(source_orientation(img)),
            ops_serial_spec(r) == default_ops_serial_spec(img),
    {
        let r = PipelineOps {
            gofloat: OpGoFloat::new(img),
            demosaic: OpDemosaic::new(img),
            tolab: OpToLab::new(img),
            basecurve: OpBaseCurve::new(img),
            fromlab: OpFromLab::new(img),
            gamma: OpGamma::new(img),
            transform: OpTransform::new(img),
        };
        proof {
            assert(r.basecurve.points@ =~= Seq::<[u32; 2]>::empty());
            assert(r.demosaic.cfa@ == source_cfa_spec(img));
            assert(ops_serial_spec(r) =~= default_ops_serial_spec(img));
        }
        r
    }

    /// The serialization of the whole chain, the ops in order.
    pub fn serial_all(&self) -> (r: Vec<u8>)
        ensures
            r@ == ops_serial_spec(*self),
    {
        let mut out: Vec<u8> = Vec::new();
        let b0 = self.gofloat.serial_bytes();
        push_bytes(&mut out, b0.as_slice());
        let b1 = self.demosaic.serial_bytes();
        push_bytes(&mut out, b1.as_slice());
        let b2 = self.tolab.serial_bytes();
        push_bytes(&mut out, b2.as_slice());
        let b3 = self.basecurve.serial_bytes();
        push_bytes(&mut out, b3.as_slice());
        let b4 = self.fromlab.serial_bytes();
        push_bytes(&mut out, b4.as_slice());
        let b5 = self.gamma.serial_bytes();
        push_bytes(&mut out, b5.as_slice());
        let b6 = self.transform.serial_bytes();
        push_bytes(&mut out, b6.as_slice());
        assert(out@ =~= ops_serial_spec(*self));
        out
    }
}

/// What every op sees while running: the source and the settings.
#[derive(Clone, Debug)]
pub struct PipelineGlobals {
    pub image: ImageSource,
    pub settings: PipelineSettings,
}

/// The header of a serialized pipeline.
#[derive(Clone, Debug)]
pub struct PipelineSerialization {
    pub version: u32,
    pub filehash: String,
}

/// The planning core of the processing chain: the source description, the
/// run settings, and the ordered op descriptors.  It computes sizes, cache
/// keys and decisions; the sample arithmetic runs outside, against these
/// contracts.
#[derive(Clone, Debug)]
pub struct Pipeline {
    pub globals: PipelineGlobals,
    pub ops: PipelineOps,
}

/// The size of the chain's final raster before bounding: the crop of the
/// first stage, then the axis swap of the transform stage; the other
/// stages keep sizes.
pub open spec fn forward_dims_spec(ops: PipelineOps, w: int, h: int) -> (int, int) {
    let cropped = crop_window_spec(ops.gofloat, w, h);
    ops.transform.size_spec(cropped.2, cropped.3)
}

/// The size the demosaic stage must produce so the final raster meets the
/// bounds: the bounded final size pushed back through the axis swap.
pub open spec fn planned_dims_spec(
    ops: PipelineOps,
    w: int,
    h: int,
    mw: int,
    mh: int,
) -> (int, int) {
    let full = forward_dims_spec(ops, w, h);
    let bounded = scale_to_fit(full.0, full.1, mw, mh);
    ops.transform.size_spec(bounded.0, bounded.1)
}

/// Planning is sound: pushing the planned demosaic size forward through
/// the transform stage again yields exactly the bounded final size, which
/// observes both bounds and never exceeds the unbounded final size on
/// either axis.
pub proof fn lemma_planned_dims_meet_bounds(ops: PipelineOps, w: int, h: int, mw: int, mh: int)
    requires
        10 <= w,
        10 <= h,
        0 <= mw,
        0 <= mh,
    ensures
        ({
            let full = forward_dims_spec(ops, w, h);
            let planned = planned_dims_spec(ops, w, h, mw, mh);
            let out = ops.transform.size_spec(planned.0, planned.1);
            &&& out == scale_to_fit(full.0, full.1, mw, mh)
            &&& (mw > 0 ==> out.0 <= mw)
            &&& (mh > 0 ==> out.1 <= mh)
            &&& out.0 <= full.0
            &&& out.1 <= full.1
        }),
{
    let full = forward_dims_spec(ops, w, h);
    crate::scaling::lemma_scale_to_fit_shrinks(full.0, full.1, mw, mh);
    crate::scaling::lemma_scale_to_fit_bounded(full.0, full.1, mw, mh);
}

/// The byte stream absorbed for the digest of op k of the chain: the
/// settings, then ops zero through k, each as its name and parameters.
pub open spec fn chain_bytes(settings: PipelineSettings, ops: PipelineOps, k: int) -> Seq<u8>
    decreases k,
{
    if k <= 0 {
        settings.serial_spec()
    } else {
        chain_bytes(settings, ops, k - 1) + op_serial_at(ops, k - 1)
    }
}

/// The first op that must run, given which cache keys hit: one past the
/// last hit, or zero when nothing hit.
pub open spec fn start_index_spec(hits: Seq<bool>) -> int
    decreases hits.len(),
{
    if hits.len() == 0 {
        0
    } else if hits.last() {
        hits.len() as int
    } else {
        start_index_spec(hits.drop_last())
    }
}

impl Pipeline {
    /// A fresh buffer cache of the given byte capacity.
    pub fn new_cache<V>(size: usize) -> (r: BufferCache<V>)
        ensures
            r.inv(),
            r.view_spec().len() == 0,
            r.capacity_spec() == size,
    {
        BufferCache::new(size)
    }

    /// A pipeline over an already decoded source, with default settings
    /// and the source's default op chain.
    pub fn new_from_source(img: ImageSource) -> (r: Result<Pipeline, String>)
        ensures
            match r {
                Ok(p) => {
                    &&& p.globals.settings == default_settings_spec()
                    &&& p.globals.image == img
                    &&& p.ops.gofloat == gofloat_of_source(&img)
                    &&& p.ops.demosaic.cfa@ == source_cfa_spec(&img)
                    &&& p.ops.tolab == tolab_of_source(&img)
                    &&& p.ops.basecurve.points@.len() == 0
                    &&& p.ops.transform == transform_of_orientation(source_orientation(&img))
                    &&& ops_serial_spec(p.ops) == default_ops_serial_spec(&p.globals.image)
                },
                Err(_) => false,
            },
    {
        let ops = PipelineOps::new(&img);
        Ok(
            Pipeline {
                globals: PipelineGlobals { image: img, settings: PipelineSettings::default() },
                ops,
            },
        )
    }

    /// Whether every op still carries its default parameters, decided by
    /// comparing stable serializations.
    pub fn default_ops(&self) -> (r: bool)
        ensures
            r == (ops_serial_spec(self.ops) == default_ops_serial_spec(&self.globals.image)),
    {
        let current = self.ops.serial_all();
        let fresh = PipelineOps::new(&self.globals.image);
        let defaults = fresh.serial_all();
        bytes_eq(current.as_slice(), defaults.as_slice())
    }

    /// Plan the run's sizes: push the source size forward through the
    /// chain, bound it, and pull it back to the demosaic stage, which is
    /// written into the settings.
    pub fn plan_dimensions(&mut self)
        requires
            old(self).globals.image.width_spec() >= 10,
            old(self).globals.image.height_spec() >= 10,
        ensures
            final(self).globals.image == old(self).globals.image,
            final(self).ops == old(self).ops,
            ({
                let planned = planned_dims_spec(
                    old(self).ops,
                    old(self).globals.image.width_spec() as int,
                    old(self).globals.image.height_spec() as int,
                    old(self).globals.settings.maxwidth as int,
                    old(self).globals.settings.maxheight as int,
                );
                final(self).globals.settings == (PipelineSettings {
                    demosaic_width: planned.0 as usize,
                    demosaic_height: planned.1 as usize,
                    ..old(self).globals.settings
                })
            }),
    {
        let width = self.globals.image.width();
        let height = self.globals.image.height();
        // forward pass: only the crop and the axis swap move sizes
        let (width, height) = self.ops.gofloat.transform_forward(width, height);
        let (width, height) = self.ops.transform.transform_forward(width, height);
        // bound the final raster
        let (width, height) = scaling_size(
            width,
            height,
            self.globals.settings.maxwidth,
            self.globals.settings.maxheight,
        );
        // reverse pass back to the demosaic stage
        let (width, height) = self.ops.transform.transform_reverse(width, height);
        self.globals.settings.demosaic_width = width;
        self.globals.settings.demosaic_height = height;
    }

    /// The cache key of every op of the chain, in order: the digest of the
    /// settings and of every op up to and including that one.
    pub fn op_hashes(&self) -> (r: Vec<BufHash>)
        ensures
            r@.len() == 7,
            forall|k: int|
                0 <= k < 7 ==> #[trigger] r@[k]@ == digest_of(
                    chain_bytes(self.globals.settings, self.ops, k + 1),
                ),
    {
        let mut hasher = BufHasher::new();
        self.globals.settings.hash(&mut hasher);
        assert(hasher.input_bytes() =~= chain_bytes(self.globals.settings, self.ops, 0));
        let mut out: Vec<BufHash> = Vec::new();
        hasher.from_serialize(&self.ops.gofloat);
        out.push(hasher.result());
        assert(hasher.input_bytes() =~= chain_bytes(self.globals.settings, self.ops, 1));
        hasher.from_serialize(&self.ops.demosaic);
        out.push(hasher.result());
        assert(hasher.input_bytes() =~= chain_bytes(self.globals.settings, self.ops, 2));
        hasher.from_serialize(&self.ops.tolab);
        out.push(hasher.result());
        assert(hasher.input_bytes() =~= chain_bytes(self.globals.settings, self.ops, 3));
        hasher.from_serialize(&self.ops.basecurve);
        out.push(hasher.result());
        assert(hasher.input_bytes() =~= chain_bytes(self.globals.settings, self.ops, 4));
        hasher.from_serialize(&self.ops.fromlab);
        out.push(hasher.result());
        assert(hasher.input_bytes() =~= chain_bytes(self.globals.settings, self.ops, 5));
        hasher.from_serialize(&self.ops.gamma);
        out.push(hasher.result());
        assert(hasher.input_bytes() =~= chain_bytes(self.globals.settings, self.ops, 6));
        hasher.from_serialize(&self.ops.transform);
        out.push(hasher.result());
        assert(hasher.input_bytes() =~= chain_bytes(self.globals.settings, self.ops, 7));
        out
    }
}

/// Where a run starts, given which op keys the cache held: everything up
/// to the last hit is reused.
pub fn start_index(hits: &Vec<bool>) -> (r: usize)
    ensures
        r == start_index_spec(hits@),
        r <= hits@.len(),
{
    let mut i = hits.len();
    proof {
        assert(hits@.subrange(0, hits@.len() as int) =~= hits@);
    }
    while i > 0
        invariant
            i <= hits@.len(),
            start_index_spec(hits@) == start_index_spec(hits@.subrange(0, i as int)),
        decreases i,
    {
        proof {
            assert(hits@.subrange(0, i as int).last() == hits@[i - 1]);
            assert(hits@.subrange(0, i as int).drop_last() =~= hits@.subrange(0, i - 1));
        }
        if hits[i - 1] {
            return i;
        }
        i = i - 1;
    }
    proof {
        assert(hits@.subrange(0, 0) =~= Seq::<bool>::empty());
    }
    0
}

/// The byte weight of a cached buffer: four bytes per sample.
pub fn buffer_weight(width: usize, height: usize, channels: usize) -> (r: usize)
    requires
        width * height * channels * 4 <= usize::MAX,
    ensures
        r == width * height * channels * 4,
{
    if width == 0 || height == 0 || channels == 0 {
        proof {
            assert(width * height * channels * 4 == 0) by (nonlinear_arith)
                requires
                    width == 0 || height == 0 || channels == 0,
            ;
        }
        return 0;
    }
    proof {
        assert(width * height <= width * height * channels * 4 && width * height * channels
            <= width * height * channels * 4) by (nonlinear_arith)
            requires
                1 <= width,
                1 <= height,
                1 <= channels,
        ;
    }
    width * height * channels * 4
}

} // verus!
