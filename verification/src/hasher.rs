use vstd::prelude::*;
use crate::serial::Serial;

verus! {

/// The 32-byte digest used as a cache key.
pub type BufHash = [u8; 32];

#[verifier::external_type_specification]
#[verifier::external_body]
pub struct ExBlake3Hasher(blake3::Hasher);

/// The bytes a digest state has absorbed so far, oldest first.
pub uninterp spec fn absorbed(h: blake3::Hasher) -> Seq<u8>;

/// The 32-byte digest of a byte string.  BLAKE3 is documented as a pure
/// function of its input, identical across platforms and runs.
pub uninterp spec fn digest_of(bytes: Seq<u8>) -> Seq<u8>;

/// Relies on blake3::Hasher::new: a fresh state has absorbed nothing.
#[verifier::external_body]
fn blake3_new() -> (h: blake3::Hasher)
    ensures
        absorbed(h) == Seq::<u8>::empty(),
{
    blake3::Hasher::new()
}

/// Relies on blake3::Hasher::update: appends the input to the absorbed bytes.
#[verifier::external_body]
fn blake3_update(h: &mut blake3::Hasher, data: &[u8])
    ensures
        absorbed(*final(h)) == absorbed(*old(h)) + data@,
{
    h.update(data);
}

/// Relies on blake3::Hasher::finalize: the digest is 32 bytes determined by
/// the absorbed input alone, and the state is left unchanged.
#[verifier::external_body]
fn blake3_finalize(h: &blake3::Hasher) -> (r: [u8; 32])
    ensures
        r@ == digest_of(absorbed(*h)),
{
    *h.finalize().as_bytes()
}

/// A digest accumulator over the pipeline's stable op serializations.
pub struct BufHasher {
    inner: blake3::Hasher,
}

impl BufHasher {
    /// The bytes written so far.
    pub closed spec fn input_bytes(&self) -> Seq<u8> {
        absorbed(self.inner)
    }

    pub fn new() -> (r: BufHasher)
        ensures
            r.input_bytes() == Seq::<u8>::empty(),
    {
        BufHasher { inner: blake3_new() }
    }

    pub fn write(&mut self, data: &[u8])
        ensures
            final(self).input_bytes() == old(self).input_bytes() + data@,
    {
        blake3_update(&mut self.inner, data);
    }

    /// The digest of everything written so far; the state stays usable.
    pub fn result(&self) -> (r: BufHash)
        ensures
            r@ == digest_of(self.input_bytes()),
    {
        blake3_finalize(&self.inner)
    }

    /// Absorb the stable serialization of an op descriptor.
    pub fn from_serialize<T: Serial>(&mut self, obj: &T)
        ensures
            final(self).input_bytes() == old(self).input_bytes() + obj.serial_spec(),
    {
        let bytes = obj.serial_bytes();
        self.write(bytes.as_slice());
    }
}

} // verus!
