use vstd::prelude::*;
use vstd::string::StringSliceAdditionalSpecFns;
use crate::serial::{Serial, push_bytes};
use crate::sources::ImageSource;

verus! {

/// The gamma stage: encodes linear samples with the sRGB transfer curve
/// unless the pipeline asks for linear output.  It has no parameters.
#[derive(Clone, Copy, Debug, PartialEq, Eq, Structural)]
pub struct OpGamma {
}

impl OpGamma {
    pub fn new(_img: &ImageSource) -> (r: OpGamma)
        ensures
            r == (OpGamma {  }),
    {
        OpGamma {  }
    }
}

impl Serial for OpGamma {
    open spec fn serial_spec(&self) -> Seq<u8> {
        "gamma".spec_bytes()
    }

    fn serial_bytes(&self) -> (r: Vec<u8>)
        ensures
            r@ == self.serial_spec(),
    {
        let mut out: Vec<u8> = Vec::new();
        push_bytes(&mut out, "gamma".as_bytes());
        assert(out@ =~= self.serial_spec());
        out
    }
}

} // verus!
