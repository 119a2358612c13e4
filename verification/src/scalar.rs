//! Elements of the secp256k1 scalar field, held as canonical 32-byte
//! big-endian encodings, with the field arithmetic done by k256 behind
//! trusted wrappers.

use vstd::prelude::*;
use k256::U256;
use k256::elliptic_curve::ops::Reduce;

verus! {

/// The value of a byte string read as a big-endian unsigned integer.
pub open spec fn be_val(s: Seq<u8>) -> nat
    decreases s.len(),
{
    if s.len() == 0 {
        0
    } else {
        be_val(s.drop_last()) * 256 + s.last() as nat
    }
}

/// The order of the secp256k1 group, which is also the modulus of its scalar
/// field: 0xfffffffffffffffffffffffffffffffebaaedce6af48a03bbfd25e8cd0364141,
/// written here as its upper and lower 128-bit halves.
pub open spec fn group_order() -> nat {
    0xfffffffffffffffffffffffffffffffenat * 0x10000000000000000nat * 0x10000000000000000nat
        + 0xbaaedce6af48a03bbfd25e8cd0364141nat
}

/// A canonical scalar encoding: 32 big-endian bytes whose value lies below
/// the group order.
pub open spec fn scalar_wf(s: Seq<u8>) -> bool {
    s.len() == 32 && be_val(s) < group_order()
}

/// An element of the secp256k1 scalar field, as its canonical (least
/// non-negative residue) 32-byte big-endian encoding.
#[derive(Clone, Copy, PartialEq, Eq, Debug)]
pub struct Scalar {
    pub bytes: [u8; 32],
}

impl Scalar {
    /// The encoding is canonical: 32 bytes, value below the group order.
    pub open spec fn wf(&self) -> bool {
        scalar_wf(self.bytes@)
    }
}

/// The canonical encoding of the scalar obtained by reading 32 bytes as a
/// big-endian integer and reducing it mod the group order.
pub uninterp spec fn spec_reduce(d: Seq<u8>) -> Seq<u8>;

/// The canonical encoding of the product mod the group order of the scalars
/// encoded by `a` and `b`.
pub uninterp spec fn spec_scalar_mul(a: Seq<u8>, b: Seq<u8>) -> Seq<u8>;

/// The canonical encoding of the sum mod the group order of the scalars
/// encoded by `a` and `b`.
pub uninterp spec fn spec_scalar_add(a: Seq<u8>, b: Seq<u8>) -> Seq<u8>;

/// Relies on k256's `Scalar::reduce_bytes`, which reads the bytes as a
/// big-endian integer and reduces it mod the group order, and on
/// `Scalar::to_bytes`, which re-encodes the reduced value canonically.
#[verifier::external_body]
pub(crate) fn reduce_scalar(d: &[u8]) -> (r: Scalar)
    requires
        d@.len() == 32,
    ensures
        r.bytes@ == spec_reduce(d@),
        r.wf(),
{
    let arr: [u8; 32] = d.try_into().unwrap();
    let s = <k256::Scalar as Reduce<U256>>::reduce_bytes(&arr.into());
    Scalar { bytes: s.to_bytes().into() }
}

/// Relies on k256's scalar field multiplication (`Mul` on `k256::Scalar`,
/// which multiplies mod the group order); non-canonical inputs are first
/// reduced by `Scalar::reduce_bytes`.
#[verifier::external_body]
pub(crate) fn scalar_mul(a: &Scalar, b: &Scalar) -> (r: Scalar)
    ensures
        r.bytes@ == spec_scalar_mul(a.bytes@, b.bytes@),
        r.wf(),
{
    let x = <k256::Scalar as Reduce<U256>>::reduce_bytes(&a.bytes.into());
    let y = <k256::Scalar as Reduce<U256>>::reduce_bytes(&b.bytes.into());
    Scalar { bytes: (x * y).to_bytes().into() }
}

/// Relies on k256's scalar field addition (`Add` on `k256::Scalar`, which
/// adds mod the group order); non-canonical inputs are first reduced by
/// `Scalar::reduce_bytes`.
#[verifier::external_body]
pub(crate) fn scalar_add(a: &Scalar, b: &Scalar) -> (r: Scalar)
    ensures
        r.bytes@ == spec_scalar_add(a.bytes@, b.bytes@),
        r.wf(),
{
    let x = <k256::Scalar as Reduce<U256>>::reduce_bytes(&a.bytes.into());
    let y = <k256::Scalar as Reduce<U256>>::reduce_bytes(&b.bytes.into());
    Scalar { bytes: (x + y).to_bytes().into() }
}

/// Relies on k256's `Scalar::random` (the `ff::Field` trait) fed from the
/// operating system's cryptographically secure generator. Nothing is
/// assumed of the drawn value beyond a canonical encoding: callers must
/// hold whatever value came back.
#[verifier::external_body]
pub(crate) fn random_scalar() -> (r: Scalar)
    ensures
        r.wf(),
{
    let s = <k256::Scalar as k256::elliptic_curve::Field>::random(&mut rand_core::OsRng);
    Scalar { bytes: s.to_bytes().into() }
}

} // verus!
