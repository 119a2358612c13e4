//! The protocol itself: the hash-chain commitment to an ordered solution
//! list, the Schnorr prover, and the verifier with its canonical export.

use vstd::prelude::*;
use vstd::slice::slice_to_vec;
use crate::point::Point;
use crate::point::generator;
use crate::point::generator_x;
use crate::point::generator_y;
use crate::point::mul_base;
use crate::point::point_add;
use crate::point::point_eq;
use crate::point::point_mul;
use crate::point::spec_mul_base;
use crate::point::spec_point_add;
use crate::point::spec_point_mul;
use crate::scalar::Scalar;
use crate::scalar::scalar_add;
use crate::scalar::scalar_mul;
use crate::scalar::scalar_wf;
use crate::scalar::random_scalar;
use crate::scalar::reduce_scalar;
use crate::scalar::spec_reduce;
use crate::scalar::spec_scalar_add;
use crate::scalar::spec_scalar_mul;
use crate::transcript::append_bytes;
use crate::transcript::challenge_scalar;
use crate::transcript::msg_view;
use crate::transcript::sha256;
use crate::transcript::spec_challenge;
use crate::transcript::spec_sha256;
use vstd::utf8::encode_utf8;

verus! {

/// The failures of the protocol operations. Each is deterministic in the
/// inputs of the call that reports it: retrying without changing the inputs
/// cannot help.
#[derive(Clone, Copy, PartialEq, Eq, Debug)]
pub enum PuzzleError {
    /// The supplied scalar does not open the claimed commitment.
    InvalidSolution,
    /// The verification equation failed, so nothing is exported.
    InvalidProof,
    /// A point with no affine representation cannot be encoded.
    SerializationError,
}

/// The concatenation of the UTF-8 bytes of the solution strings, in order.
pub open spec fn solutions_bytes(sols: Seq<Seq<char>>) -> Seq<u8>
    decreases sols.len(),
{
    if sols.len() == 0 {
        Seq::empty()
    } else {
        solutions_bytes(sols.drop_last()) + encode_utf8(sols.last())
    }
}

/// The secret scalar derived from an ordered solution list: one continuous
/// SHA-256 digest over the concatenated strings, read as a big-endian
/// integer and reduced mod the group order.
pub open spec fn spec_commit_scalar(sols: Seq<Seq<char>>) -> Seq<u8> {
    spec_reduce(spec_sha256(solutions_bytes(sols)))
}

/// The coordinate encodings of the public commitment `W = g^w` for the
/// derived scalar `w`, or `None` where that point is the identity and has
/// no affine encoding.
pub open spec fn spec_commit_point(sols: Seq<Seq<char>>) -> Option<(Seq<u8>, Seq<u8>)> {
    spec_mul_base(spec_commit_scalar(sols))
}

/// A secret, ordered list of puzzle-solution strings; the order is
/// significant, since it changes the derived scalar.
pub struct PuzzleSolution {
    solutions: Vec<String>,
}

impl View for PuzzleSolution {
    type V = Seq<Seq<char>>;

    closed spec fn view(&self) -> Seq<Seq<char>> {
        self.solutions.deep_view()
    }
}

/// Whether `p` is the Schnorr proof built from the secret scalar encoded by
/// `w`, the commitment `(cwx, cwy)`, the bound message `msg` and the
/// blinding scalar encoded by `b`: the blinding commitment is `A = g^b` and
/// the response is `z = w*e + b` for the transcript challenge `e`.
pub open spec fn proof_built(
    p: PuzzleSolutionProof,
    w: Seq<u8>,
    cwx: Seq<u8>,
    cwy: Seq<u8>,
    msg: Option<Seq<u8>>,
    b: Seq<u8>,
) -> bool {
    &&& Some((p.a.x@, p.a.y@)) == spec_mul_base(b)
    &&& p.z.bytes@ == spec_scalar_add(
        spec_scalar_mul(
            w,
            spec_challenge(generator_x(), generator_y(), cwx, cwy, p.a.x@, p.a.y@, msg),
        ),
        b,
    )
}

/// Whether the Schnorr verification equation `g^z == A + W^e` holds for the
/// proof `p` against the commitment `(cwx, cwy)` and the bound message,
/// with the challenge recomputed from the transcript. It fails also where a
/// point does not decode or a result has no affine encoding.
pub open spec fn spec_verify(
    p: PuzzleSolutionProof,
    cwx: Seq<u8>,
    cwy: Seq<u8>,
    msg: Option<Seq<u8>>,
) -> bool {
    let e = spec_challenge(generator_x(), generator_y(), cwx, cwy, p.a.x@, p.a.y@, msg);
    let lhs = spec_mul_base(p.z.bytes@);
    match spec_point_mul(cwx, cwy, e) {
        Some((wex, wey)) => lhs is Some && lhs == spec_point_add(p.a.x@, p.a.y@, wex, wey),
        None => false,
    }
}

/// A proof of knowledge of the discrete log of a solution commitment: the
/// blinding commitment `A` and the challenge response `z`. Single-use; it
/// carries no state beyond the one check.
#[derive(Clone, Copy, PartialEq, Eq, Debug)]
pub struct PuzzleSolutionProof {
    pub a: Point,
    pub z: Scalar,
}

impl PuzzleSolution {
    pub fn new(solutions: Vec<String>) -> (r: Self)
        ensures
            r@ == solutions.deep_view(),
    {
        Self { solutions }
    }

    /// Derives the secret scalar `w` by one continuous digest over the
    /// concatenated solution strings, in order — not a hash of hashes —
    /// and the public commitment `W = g^w`. Deterministic; it fails only
    /// where `g^w` is the identity, which has no affine encoding.
    pub fn get_solution_commitment(&self) -> (r: Result<(Scalar, Point), PuzzleError>)
        ensures
            match r {
                Ok((w, cw)) => {
                    &&& w.bytes@ == spec_commit_scalar(self@)
                    &&& w.wf()
                    &&& Some((cw.x@, cw.y@)) == spec_commit_point(self@)
                },
                Err(e) => e == PuzzleError::SerializationError && spec_commit_point(self@) is None,
            },
    {
        let mut data: Vec<u8> = Vec::new();
        let mut i: usize = 0;
        while i < self.solutions.len()
            invariant
                i <= self.solutions@.len(),
                data@ == solutions_bytes(self.solutions.deep_view().take(i as int)),
            decreases self.solutions@.len() - i,
        {
            append_bytes(&mut data, self.solutions[i].as_str().as_bytes());
            proof {
                let dv = self.solutions.deep_view();
                assert(dv.take(i + 1).drop_last() =~= dv.take(i as int));
                assert(dv.take(i + 1).last() == dv[i as int]);
            }
            i = i + 1;
        }
        proof {
            assert(self.solutions.deep_view().take(self.solutions@.len() as int) =~= self@);
        }
        let d: [u8; 32] = sha256(data.as_slice());
        let w = reduce_scalar(d.as_slice());
        match mul_base(&w) {
            Some(cw) => Ok((w, cw)),
            None => Err(PuzzleError::SerializationError),
        }
    }

    /// Builds the Schnorr proof from a caller-supplied blinding scalar: the
    /// deterministic rest of `get_solution_proof`, verified for every value
    /// the blinding draw may take. First the opening is re-checked:
    /// `g^w` must equal the claimed commitment, else `InvalidSolution` and
    /// no proof. Then `A = g^blinding`, the challenge `e` is derived from
    /// the transcript `(g, W, A)` with the bound message folded in — so the
    /// proof binds the message — and `z = w*e + blinding`.
    pub fn get_solution_proof_with_blinding(
        &self,
        w: &Scalar,
        solution_commitment: &Point,
        bound_message: Option<&Vec<u8>>,
        blinding: &Scalar,
    ) -> (r: Result<PuzzleSolutionProof, PuzzleError>)
        ensures
            match r {
                Ok(p) => {
                    &&& spec_mul_base(w.bytes@) == Some(
                        (solution_commitment.x@, solution_commitment.y@),
                    )
                    &&& proof_built(
                        p,
                        w.bytes@,
                        solution_commitment.x@,
                        solution_commitment.y@,
                        msg_view(bound_message),
                        blinding.bytes@,
                    )
                    &&& p.z.wf()
                },
                Err(e) => match e {
                    PuzzleError::InvalidSolution => spec_mul_base(w.bytes@) != Some(
                        (solution_commitment.x@, solution_commitment.y@),
                    ),
                    PuzzleError::SerializationError => {
                        &&& spec_mul_base(w.bytes@) == Some(
                            (solution_commitment.x@, solution_commitment.y@),
                        )
                        &&& spec_mul_base(blinding.bytes@) is None
                    },
                    PuzzleError::InvalidProof => false,
                },
            },
    {
        let gw = match mul_base(w) {
            Some(p) => p,
            None => {
                return Err(PuzzleError::InvalidSolution);
            },
        };
        if !point_eq(&gw, solution_commitment) {
            return Err(PuzzleError::InvalidSolution);
        }
        let a = match mul_base(blinding) {
            Some(p) => p,
            None => {
                return Err(PuzzleError::SerializationError);
            },
        };
        let g = generator();
        let e = challenge_scalar(&g, solution_commitment, &a, bound_message);
        let we = scalar_mul(w, &e);
        let z = scalar_add(&we, blinding);
        Ok(PuzzleSolutionProof { a, z })
    }

    /// Produces a proof that the solver knows the discrete log `w` of the
    /// claimed commitment. The blinding scalar is drawn fresh from a
    /// cryptographically secure source on every call and never reused:
    /// reusing it across two proofs with different challenges would let the
    /// two linear equations be solved for `w`.
    pub fn get_solution_proof(
        &self,
        w: &Scalar,
        solution_commitment: &Point,
        bound_message: Option<&Vec<u8>>,
    ) -> (r: Result<PuzzleSolutionProof, PuzzleError>)
        ensures
            (r matches Err(e) && e == PuzzleError::InvalidSolution) <==> spec_mul_base(w.bytes@)
                != Some((solution_commitment.x@, solution_commitment.y@)),
            r matches Ok(p) ==> exists|b: Seq<u8>|
                scalar_wf(b) && proof_built(
                    p,
                    w.bytes@,
                    solution_commitment.x@,
                    solution_commitment.y@,
                    msg_view(bound_message),
                    b,
                ),
            r matches Err(e) ==> e != PuzzleError::InvalidProof,
    {
        let blinding = random_scalar();
        let r = self.get_solution_proof_with_blinding(
            w,
            solution_commitment,
            bound_message,
            &blinding,
        );
        proof {
            if let Ok(p) = r {
                assert(scalar_wf(blinding.bytes@) && proof_built(
                    p,
                    w.bytes@,
                    solution_commitment.x@,
                    solution_commitment.y@,
                    msg_view(bound_message),
                    blinding.bytes@,
                ));
            }
        }
        r
    }
}

impl PuzzleSolutionProof {
    /// Recomputes the challenge from the transcript `(g, W, A)` and the
    /// bound message and checks the verification equation
    /// `g^z == A + W^e`. Returns a boolean; it never fails.
    pub fn verify(&self, solution_commitment: &Point, bound_message: Option<&Vec<u8>>) -> (r:
        bool)
        ensures
            r == spec_verify(
                *self,
                solution_commitment.x@,
                solution_commitment.y@,
                msg_view(bound_message),
            ),
    {
        let g = generator();
        let e = challenge_scalar(&g, solution_commitment, &self.a, bound_message);
        let lhs = match mul_base(&self.z) {
            Some(p) => p,
            None => {
                return false;
            },
        };
        let we = match point_mul(solution_commitment, &e) {
            Some(p) => p,
            None => {
                return false;
            },
        };
        let rhs = match point_add(&self.a, &we) {
            Some(p) => p,
            None => {
                return false;
            },
        };
        point_eq(&lhs, &rhs)
    }

    /// Runs the same check as `verify`. On success it returns the canonical
    /// encodings `(A.x, A.y, g.x, g.y, W.x, W.y, z)` — every element of the
    /// verification equation, each as 32 big-endian bytes — for an
    /// independently written verifier to re-check. On failure it returns
    /// `InvalidProof` and no bytes at all.
    pub fn verify_and_export(
        &self,
        solution_commitment: &Point,
        bound_message: Option<&Vec<u8>>,
    ) -> (r: Result<(Vec<u8>, Vec<u8>, Vec<u8>, Vec<u8>, Vec<u8>, Vec<u8>, Vec<u8>), PuzzleError>)
        ensures
            r is Ok <==> spec_verify(
                *self,
                solution_commitment.x@,
                solution_commitment.y@,
                msg_view(bound_message),
            ),
            r matches Ok(t) ==> {
                &&& t.0@ == self.a.x@ && t.0@.len() == 32
                &&& t.1@ == self.a.y@ && t.1@.len() == 32
                &&& t.2@ == generator_x() && t.2@.len() == 32
                &&& t.3@ == generator_y() && t.3@.len() == 32
                &&& t.4@ == solution_commitment.x@ && t.4@.len() == 32
                &&& t.5@ == solution_commitment.y@ && t.5@.len() == 32
                &&& t.6@ == self.z.bytes@ && t.6@.len() == 32
            },
            r matches Err(e) ==> e == PuzzleError::InvalidProof,
    {
        if !self.verify(solution_commitment, bound_message) {
            return Err(PuzzleError::InvalidProof);
        }
        let g = generator();
        Ok(
            (
                slice_to_vec(self.a.x.as_slice()),
                slice_to_vec(self.a.y.as_slice()),
                slice_to_vec(g.x.as_slice()),
                slice_to_vec(g.y.as_slice()),
                slice_to_vec(solution_commitment.x.as_slice()),
                slice_to_vec(solution_commitment.y.as_slice()),
                slice_to_vec(self.z.bytes.as_slice()),
            ),
        )
    }
}

/// Deriving the commitment is deterministic: the scalar and the commitment
/// point are functions of the ordered solution list alone, so two
/// derivations from equal lists agree.
pub proof fn lemma_commitment_deterministic(s1: Seq<Seq<char>>, s2: Seq<Seq<char>>)
    requires
        s1 == s2,
    ensures
        spec_commit_scalar(s1) == spec_commit_scalar(s2),
        spec_commit_point(s1) == spec_commit_point(s2),
{
}

/// A proof built from an opening of the commitment is checked by `verify`
/// against exactly the Schnorr equation `g^z == A + W^e`, with the
/// challenge `e` recomputed from the same transcript the prover hashed.
/// Completeness of that check — that the equation holds of `z = w*e + b`
/// whenever `W = g^w` and `A = g^b` — is the group law of secp256k1, which
/// k256 supplies and which is not restated here.
pub proof fn lemma_verify_checks_schnorr_equation(
    p: PuzzleSolutionProof,
    w: Seq<u8>,
    cwx: Seq<u8>,
    cwy: Seq<u8>,
    msg: Option<Seq<u8>>,
    b: Seq<u8>,
)
    requires
        proof_built(p, w, cwx, cwy, msg, b),
    ensures
        ({
            let e = spec_challenge(generator_x(), generator_y(), cwx, cwy, p.a.x@, p.a.y@, msg);
            &&& p.z.bytes@ == spec_scalar_add(spec_scalar_mul(w, e), b)
            &&& spec_verify(p, cwx, cwy, msg) <==> (match spec_point_mul(cwx, cwy, e) {
                Some((wex, wey)) => spec_mul_base(p.z.bytes@) is Some && spec_mul_base(p.z.bytes@)
                    == spec_point_add(p.a.x@, p.a.y@, wex, wey),
                None => false,
            })
        }),
{
}

} // verus!
