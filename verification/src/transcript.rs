//! The deterministic transcript hash behind the Fiat-Shamir transform: the
//! canonical encodings of the transcript elements are concatenated in a
//! fixed order, hashed, masked to the group's field width, and reduced to a
//! challenge scalar. Prover and verifier must agree on this bit for bit.

use vstd::prelude::*;
use crate::point::Point;
use crate::scalar::Scalar;
use crate::scalar::reduce_scalar;
use crate::scalar::spec_reduce;

verus! {

/// The SHA-256 digest of a byte string.
pub uninterp spec fn spec_sha256(data: Seq<u8>) -> Seq<u8>;

/// Relies on sha2's `Sha256`, the FIPS 180-4 SHA-256 digest: 32 bytes that
/// depend on the input bytes alone.
#[verifier::external_body]
pub(crate) fn sha256(data: &[u8]) -> (r: [u8; 32])
    ensures
        r@ == spec_sha256(data@),
{
    <sha2::Sha256 as sha2::digest::Digest>::digest(data).into()
}

/// Which bits of the digest's first byte survive into the challenge. The
/// width to mask off is a property of the group's scalar field: the
/// secp256k1 group order occupies all 256 bits, so here every bit is kept; a
/// group with a shorter field would keep fewer.
pub const CHALLENGE_MASK: u8 = 0xff;

/// The digest with the challenge mask applied to its first byte.
pub open spec fn mask_digest(d: Seq<u8>) -> Seq<u8> {
    if d.len() == 0 {
        d
    } else {
        d.update(0, d[0] & CHALLENGE_MASK)
    }
}

/// The byte string hashed for the Fiat-Shamir challenge: the canonical
/// coordinate encodings of the generator, the commitment and the blinding
/// commitment, in that fixed order, followed by the bound message, if any.
pub open spec fn transcript_bytes(
    gx: Seq<u8>,
    gy: Seq<u8>,
    wx: Seq<u8>,
    wy: Seq<u8>,
    ax: Seq<u8>,
    ay: Seq<u8>,
    msg: Option<Seq<u8>>,
) -> Seq<u8> {
    gx + gy + wx + wy + ax + ay + (match msg {
        Some(m) => m,
        None => Seq::empty(),
    })
}

/// The challenge scalar: the masked transcript digest read as a big-endian
/// integer and reduced mod the group order.
pub open spec fn spec_challenge(
    gx: Seq<u8>,
    gy: Seq<u8>,
    wx: Seq<u8>,
    wy: Seq<u8>,
    ax: Seq<u8>,
    ay: Seq<u8>,
    msg: Option<Seq<u8>>,
) -> Seq<u8> {
    spec_reduce(mask_digest(spec_sha256(transcript_bytes(gx, gy, wx, wy, ax, ay, msg))))
}

/// The bytes of an optional bound message.
pub open spec fn msg_view(msg: Option<&Vec<u8>>) -> Option<Seq<u8>> {
    match msg {
        Some(m) => Some(m@),
        None => None,
    }
}

/// Appends the bytes of `src` to `dst`.
pub(crate) fn append_bytes(dst: &mut Vec<u8>, src: &[u8])
    ensures
        final(dst)@ == old(dst)@ + src@,
{
    let mut i: usize = 0;
    while i < src.len()
        invariant
            i <= src@.len(),
            dst@ == old(dst)@ + src@.take(i as int),
        decreases src@.len() - i,
    {
        dst.push(src[i]);
        i = i + 1;
    }
    proof {
        assert(src@.take(src@.len() as int) =~= src@);
    }
}

/// Derives the Fiat-Shamir challenge for the transcript `(g, w, a)` and the
/// bound message. Prover and verifier both compute it from public data
/// alone, in place of a challenge a verifier would send interactively.
pub fn challenge_scalar(g: &Point, w: &Point, a: &Point, msg: Option<&Vec<u8>>) -> (e: Scalar)
    ensures
        e.bytes@ == spec_challenge(g.x@, g.y@, w.x@, w.y@, a.x@, a.y@, msg_view(msg)),
        e.wf(),
{
    let mut t: Vec<u8> = Vec::new();
    append_bytes(&mut t, g.x.as_slice());
    append_bytes(&mut t, g.y.as_slice());
    append_bytes(&mut t, w.x.as_slice());
    append_bytes(&mut t, w.y.as_slice());
    append_bytes(&mut t, a.x.as_slice());
    append_bytes(&mut t, a.y.as_slice());
    match msg {
        Some(m) => append_bytes(&mut t, m.as_slice()),
        None => {},
    }
    proof {
        assert(t@ =~= transcript_bytes(g.x@, g.y@, w.x@, w.y@, a.x@, a.y@, msg_view(msg)));
    }
    let d: [u8; 32] = sha256(t.as_slice());
    let mut masked: Vec<u8> = Vec::new();
    masked.push(d[0] & CHALLENGE_MASK);
    proof {
        assert(masked@ =~= mask_digest(d@).take(1));
    }
    let mut i: usize = 1;
    while i < 32
        invariant
            1 <= i <= 32,
            masked@ == mask_digest(d@).take(i as int),
        decreases 32 - i,
    {
        masked.push(d[i]);
        proof {
            assert(masked@ =~= mask_digest(d@).take(i + 1));
        }
        i = i + 1;
    }
    proof {
        assert(mask_digest(d@).take(32) =~= mask_digest(d@));
    }
    reduce_scalar(masked.as_slice())
}

} // verus!
