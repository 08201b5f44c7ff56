//! Decoding of BN254 curve points from their compressed encodings, done by
//! the `ark-bn254` and `ark-serialize` crates.

use vstd::prelude::*;
use ark_serialize::CanonicalDeserialize;

verus! {

/// Why bytes are not the compressed encoding of a curve point (the variants
/// of `ark_serialize::SerializationError`).
#[derive(Debug, Clone, Copy, PartialEq, Eq, Structural)]
pub enum PointError {
    NotEnoughSpace,
    InvalidData,
    UnexpectedFlags,
    Io,
}

/// What `G1Affine::deserialize_compressed` gives for the bytes: success
/// (the point itself is not kept) or the kind of error.
pub uninterp spec fn g1_decoding(b: Seq<u8>) -> Result<(), PointError>;

/// What `G2Affine::deserialize_compressed` gives for the bytes.
pub uninterp spec fn g2_decoding(b: Seq<u8>) -> Result<(), PointError>;

/// Calls `ark_bn254::G1Affine::deserialize_compressed` on the bytes, which
/// reads a compressed point from their start and checks that it lies on the
/// curve and in the prime-order subgroup. The result, success or the kind of
/// error, is named, not spelled out; the decoded point is dropped.
#[verifier::external_body]
pub(crate) fn check_g1(b: &[u8]) -> (r: Result<(), PointError>)
    ensures
        r == g1_decoding(b@),
{
    match ark_bn254::G1Affine::deserialize_compressed(b) {
        Ok(_) => Ok(()),
        Err(ark_serialize::SerializationError::NotEnoughSpace) => Err(PointError::NotEnoughSpace),
        Err(ark_serialize::SerializationError::InvalidData) => Err(PointError::InvalidData),
        Err(ark_serialize::SerializationError::UnexpectedFlags) => Err(PointError::UnexpectedFlags),
        Err(ark_serialize::SerializationError::IoError(_)) => Err(PointError::Io),
    }
}

/// Calls `ark_bn254::G2Affine::deserialize_compressed` on the bytes, with the
/// same checks for the G2 group. The result is named, not spelled out.
#[verifier::external_body]
pub(crate) fn check_g2(b: &[u8]) -> (r: Result<(), PointError>)
    ensures
        r == g2_decoding(b@),
{
    match ark_bn254::G2Affine::deserialize_compressed(b) {
        Ok(_) => Ok(()),
        Err(ark_serialize::SerializationError::NotEnoughSpace) => Err(PointError::NotEnoughSpace),
        Err(ark_serialize::SerializationError::InvalidData) => Err(PointError::InvalidData),
        Err(ark_serialize::SerializationError::UnexpectedFlags) => Err(PointError::UnexpectedFlags),
        Err(ark_serialize::SerializationError::IoError(_)) => Err(PointError::Io),
    }
}

} // verus!
