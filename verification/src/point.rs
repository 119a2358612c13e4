//! Points of the secp256k1 group, held by their canonical affine coordinate
//! encodings, with the group arithmetic done by k256 behind trusted
//! wrappers. The identity has no affine representation, so the group
//! operations return `None` where it would be produced.

use vstd::prelude::*;
use crate::scalar::Scalar;
use k256::AffinePoint;
use k256::EncodedPoint;
use k256::ProjectivePoint;
use k256::U256;
use k256::elliptic_curve::ops::Reduce;
use k256::elliptic_curve::sec1::ToEncodedPoint;

verus! {

/// A point of the secp256k1 group other than the identity, as the canonical
/// (least non-negative residue) 32-byte big-endian encodings of its affine
/// coordinates.
#[derive(Clone, Copy, PartialEq, Eq, Debug)]
pub struct Point {
    pub x: [u8; 32],
    pub y: [u8; 32],
}

/// The coordinate encodings of an optional point, for stating what the group
/// operations return where the result may have no affine representation.
pub open spec fn point_opt_view(r: Option<Point>) -> Option<(Seq<u8>, Seq<u8>)> {
    match r {
        Some(p) => Some((p.x@, p.y@)),
        None => None,
    }
}

/// The coordinate encodings of the fixed generator times the scalar encoded
/// by `s`, or `None` where that multiple is the identity.
pub uninterp spec fn spec_mul_base(s: Seq<u8>) -> Option<(Seq<u8>, Seq<u8>)>;

/// The coordinate encodings of the point `(px, py)` times the scalar encoded
/// by `s`; `None` where `(px, py)` does not encode a curve point or the
/// multiple is the identity.
pub uninterp spec fn spec_point_mul(px: Seq<u8>, py: Seq<u8>, s: Seq<u8>) -> Option<
    (Seq<u8>, Seq<u8>),
>;

/// The coordinate encodings of the sum of the points `(px, py)` and
/// `(qx, qy)`; `None` where either does not encode a curve point or the sum
/// is the identity.
pub uninterp spec fn spec_point_add(px: Seq<u8>, py: Seq<u8>, qx: Seq<u8>, qy: Seq<u8>) -> Option<
    (Seq<u8>, Seq<u8>),
>;

/// Relies on k256's `ProjectivePoint::GENERATOR`, scalar multiplication, and
/// `to_encoded_point`, whose uncompressed form carries the canonical
/// big-endian affine coordinates; its `x` and `y` are `None` exactly for the
/// identity. A non-canonical scalar is first reduced by
/// `Scalar::reduce_bytes`.
#[verifier::external_body]
pub(crate) fn mul_base(s: &Scalar) -> (r: Option<Point>)
    ensures
        point_opt_view(r) == spec_mul_base(s.bytes@),
{
    let k = <k256::Scalar as Reduce<U256>>::reduce_bytes(&s.bytes.into());
    let enc = (ProjectivePoint::GENERATOR * k).to_affine().to_encoded_point(false);
    match (enc.x(), enc.y()) {
        (Some(x), Some(y)) => Some(Point { x: (*x).into(), y: (*y).into() }),
        _ => None,
    }
}

/// Relies on k256's `AffinePoint::try_from`, which rejects coordinates that
/// lie off the curve, on scalar multiplication, and on `to_encoded_point` as
/// in `mul_base`.
#[verifier::external_body]
pub(crate) fn point_mul(p: &Point, s: &Scalar) -> (r: Option<Point>)
    ensures
        point_opt_view(r) == spec_point_mul(p.x@, p.y@, s.bytes@),
{
    let ep = EncodedPoint::from_affine_coordinates(&p.x.into(), &p.y.into(), false);
    let Ok(af) = AffinePoint::try_from(&ep) else { return None };
    let k = <k256::Scalar as Reduce<U256>>::reduce_bytes(&s.bytes.into());
    let enc = (ProjectivePoint::from(af) * k).to_affine().to_encoded_point(false);
    match (enc.x(), enc.y()) {
        (Some(x), Some(y)) => Some(Point { x: (*x).into(), y: (*y).into() }),
        _ => None,
    }
}

/// Relies on k256's `AffinePoint::try_from`, which rejects coordinates that
/// lie off the curve, on the group addition of `ProjectivePoint`, and on
/// `to_encoded_point` as in `mul_base`.
#[verifier::external_body]
pub(crate) fn point_add(p: &Point, q: &Point) -> (r: Option<Point>)
    ensures
        point_opt_view(r) == spec_point_add(p.x@, p.y@, q.x@, q.y@),
{
    let ep = EncodedPoint::from_affine_coordinates(&p.x.into(), &p.y.into(), false);
    let er = EncodedPoint::from_affine_coordinates(&q.x.into(), &q.y.into(), false);
    let Ok(ap) = AffinePoint::try_from(&ep) else { return None };
    let Ok(aq) = AffinePoint::try_from(&er) else { return None };
    let enc = (ProjectivePoint::from(ap) + aq).to_affine().to_encoded_point(false);
    match (enc.x(), enc.y()) {
        (Some(x), Some(y)) => Some(Point { x: (*x).into(), y: (*y).into() }),
        _ => None,
    }
}

/// The x-coordinate of the SEC 2 base point of secp256k1.
pub open spec fn generator_x() -> Seq<u8> {
    seq![
        0x79u8, 0xbe, 0x66, 0x7e, 0xf9, 0xdc, 0xbb, 0xac, 0x55, 0xa0, 0x62, 0x95, 0xce, 0x87,
        0x0b, 0x07, 0x02, 0x9b, 0xfc, 0xdb, 0x2d, 0xce, 0x28, 0xd9, 0x59, 0xf2, 0x81, 0x5b,
        0x16, 0xf8, 0x17, 0x98,
    ]
}

/// The y-coordinate of the SEC 2 base point of secp256k1.
pub open spec fn generator_y() -> Seq<u8> {
    seq![
        0x48u8, 0x3a, 0xda, 0x77, 0x26, 0xa3, 0xc4, 0x65, 0x5d, 0xa4, 0xfb, 0xfc, 0x0e, 0x11,
        0x08, 0xa8, 0xfd, 0x17, 0xb4, 0x48, 0xa6, 0x85, 0x54, 0x19, 0x9c, 0x47, 0xd0, 0x8f,
        0xfb, 0x10, 0xd4, 0xb8,
    ]
}

/// The fixed, publicly agreed generator `g`: the SEC 2 base point of
/// secp256k1, by its affine coordinates.
pub fn generator() -> (r: Point)
    ensures
        r.x@ == generator_x(),
        r.y@ == generator_y(),
{
    let gx: [u8; 32] = [
        0x79, 0xbe, 0x66, 0x7e, 0xf9, 0xdc, 0xbb, 0xac, 0x55, 0xa0, 0x62, 0x95, 0xce, 0x87,
        0x0b, 0x07, 0x02, 0x9b, 0xfc, 0xdb, 0x2d, 0xce, 0x28, 0xd9, 0x59, 0xf2, 0x81, 0x5b,
        0x16, 0xf8, 0x17, 0x98,
    ];
    let gy: [u8; 32] = [
        0x48, 0x3a, 0xda, 0x77, 0x26, 0xa3, 0xc4, 0x65, 0x5d, 0xa4, 0xfb, 0xfc, 0x0e, 0x11,
        0x08, 0xa8, 0xfd, 0x17, 0xb4, 0x48, 0xa6, 0x85, 0x54, 0x19, 0x9c, 0x47, 0xd0, 0x8f,
        0xfb, 0x10, 0xd4, 0xb8,
    ];
    proof {
        assert(gx@ =~= generator_x());
        assert(gy@ =~= generator_y());
    }
    Point { x: gx, y: gy }
}

/// Whether two points have the same coordinate encodings, and so are the
/// same point.
pub fn point_eq(p: &Point, q: &Point) -> (r: bool)
    ensures
        r == (p.x@ == q.x@ && p.y@ == q.y@),
{
    let mut i: usize = 0;
    while i < 32
        invariant
            i <= 32,
            forall|j: int| 0 <= j < i ==> p.x@[j] == q.x@[j] && p.y@[j] == q.y@[j],
        decreases 32 - i,
    {
        if p.x[i] != q.x[i] || p.y[i] != q.y[i] {
            return false;
        }
        i = i + 1;
    }
    proof {
        assert(p.x@ =~= q.x@);
        assert(p.y@ =~= q.y@);
    }
    true
}

} // verus!
