use vstd::prelude::*;
use vstd::string::StringSliceAdditionalSpecFns;
use crate::serial::{Serial, push_bytes, push_u32, push_u64, le32, le64};
use crate::sources::ImageSource;

verus! {

/// The tone-curve stage: a monotonic curve over the lightness channel,
/// given as control points whose coordinates are IEEE-754 single-precision
/// bit patterns.  No points means the identity curve.
#[derive(Clone, Debug)]
pub struct OpBaseCurve {
    pub points: Vec<[u32; 2]>,
}

impl OpBaseCurve {
    pub open spec fn is_identity_spec(&self) -> bool {
        self.points@.len() == 0
    }

    pub fn new(_img: &ImageSource) -> (r: OpBaseCurve)
        ensures
            r.points@.len() == 0,
    {
        OpBaseCurve { points: Vec::new() }
    }

    /// Whether the curve leaves the lightness channel unchanged.
    pub fn is_identity(&self) -> (r: bool)
        ensures
            r == self.is_identity_spec(),
    {
        self.points.len() == 0
    }
}

/// The byte image of one control point.
pub open spec fn point_bytes(p: [u32; 2]) -> Seq<u8> {
    le32(p@[0]) + le32(p@[1])
}

/// The byte image of a control point list.
pub open spec fn points_bytes(points: Seq<[u32; 2]>) -> Seq<u8>
    decreases points.len(),
{
    if points.len() == 0 {
        Seq::<u8>::empty()
    } else {
        points_bytes(points.drop_last()) + point_bytes(points.last())
    }
}

impl Serial for OpBaseCurve {
    open spec fn serial_spec(&self) -> Seq<u8> {
        "basecurve".spec_bytes() + le64(self.points@.len() as u64) + points_bytes(self.points@)
    }

    fn serial_bytes(&self) -> (r: Vec<u8>)
        ensures
            r@ == self.serial_spec(),
    {
        let mut out: Vec<u8> = Vec::new();
        push_bytes(&mut out, "basecurve".as_bytes());
        push_u64(&mut out, self.points.len() as u64);
        let ghost prefix = out@;
        let mut i: usize = 0;
        while i < self.points.len()
            invariant
                i <= self.points@.len(),
                out@ == prefix + points_bytes(self.points@.subrange(0, i as int)),
            decreases self.points@.len() - i,
        {
            push_u32(&mut out, self.points[i][0]);
            push_u32(&mut out, self.points[i][1]);
            i = i + 1;
            proof {
                let taken = self.points@.subrange(0, i as int);
                assert(taken.drop_last() =~= self.points@.subrange(0, i - 1));
                assert(taken.last() == self.points@[i - 1]);
                assert(out@ =~= prefix + points_bytes(taken));
            }
        }
        proof {
            assert(self.points@.subrange(0, self.points@.len() as int) =~= self.points@);
            assert(out@ =~= self.serial_spec());
        }
        out
    }
}

} // verus!
