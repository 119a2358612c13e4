use k256::elliptic_curve::ops::Reduce;
use k256::elliptic_curve::sec1::ToEncodedPoint;
use sha2::Digest;

use puzzle_schnorr::point::Point;
use puzzle_schnorr::scalar::Scalar;
use puzzle_schnorr::PuzzleError;
use puzzle_schnorr::PuzzleSolution;

fn solutions() -> Vec<String> {
    vec![
        "solution1".to_string(),
        "solution2".to_string(),
        "solution3".to_string(),
    ]
}

fn wrong_solutions() -> Vec<String> {
    vec![
        "Solution1".to_string(),
        "solution2".to_string(),
        "solution3".to_string(),
    ]
}

fn bound_message() -> Vec<u8> {
    vec![7u8; 20]
}

#[test]
fn test_get_solution_commitment() {
    let puzzle_solution = PuzzleSolution::new(solutions());
    let (w, puzzle_commitment) = puzzle_solution.get_solution_commitment().unwrap();
    let m_s = bound_message();
    let puzzle_solution_proof = puzzle_solution
        .get_solution_proof(&w, &puzzle_commitment, Some(&m_s))
        .unwrap();

    assert!(puzzle_solution_proof.verify(&puzzle_commitment, Some(&m_s)) == true);
}

#[test]
fn test_get_solution_proof() {
    let puzzle_solution = PuzzleSolution::new(solutions());
    let (w, puzzle_commitment) = puzzle_solution.get_solution_commitment().unwrap();
    let m_s = bound_message();
    let puzzle_solution_proof = puzzle_solution
        .get_solution_proof(&w, &puzzle_commitment, Some(&m_s))
        .unwrap();

    assert!(puzzle_solution_proof.verify(&puzzle_commitment, Some(&m_s)) == true);

    let wrong_puzzle_solution = PuzzleSolution::new(wrong_solutions());
    let (wrong_w, wrong_puzzle_commitment) =
        wrong_puzzle_solution.get_solution_commitment().unwrap();
    let wrong_puzzle_solution_proof = wrong_puzzle_solution
        .get_solution_proof(&wrong_w, &wrong_puzzle_commitment, Some(&m_s))
        .unwrap();

    assert!(wrong_puzzle_solution_proof.verify(&puzzle_commitment, Some(&m_s)) == false);
}

#[test]
fn test_verify_and_export() {
    let puzzle_solution = PuzzleSolution::new(solutions());
    let (w, puzzle_commitment) = puzzle_solution.get_solution_commitment().unwrap();
    let m_s = bound_message();
    let puzzle_solution_proof = puzzle_solution
        .get_solution_proof(&w, &puzzle_commitment, Some(&m_s))
        .unwrap();

    let (a_x, a_y, g_x, g_y, w_x, w_y, z) = puzzle_solution_proof
        .verify_and_export(&puzzle_commitment, Some(&m_s))
        .unwrap();

    assert!(a_x.len() == 32);
    assert!(a_y.len() == 32);
    assert!(g_x.len() == 32);
    assert!(g_y.len() == 32);
    assert!(w_x.len() == 32);
    assert!(w_y.len() == 32);
    assert!(z.len() == 32);
}

#[test]
fn test_commitment_deterministic() {
    let p1 = PuzzleSolution::new(solutions());
    let p2 = PuzzleSolution::new(solutions());
    let (w1, c1) = p1.get_solution_commitment().unwrap();
    let (w2, c2) = p2.get_solution_commitment().unwrap();
    assert_eq!(w1, w2);
    assert_eq!(c1, c2);
}

#[test]
fn test_commitment_sensitivity() {
    let (w1, c1) = PuzzleSolution::new(solutions())
        .get_solution_commitment()
        .unwrap();
    let (w2, c2) = PuzzleSolution::new(wrong_solutions())
        .get_solution_commitment()
        .unwrap();
    assert_ne!(w1, w2);
    assert_ne!(c1, c2);
}

#[test]
fn test_prove_rejects_wrong_opening() {
    let puzzle_solution = PuzzleSolution::new(solutions());
    let (_, puzzle_commitment) = puzzle_solution.get_solution_commitment().unwrap();
    let (wrong_w, _) = PuzzleSolution::new(wrong_solutions())
        .get_solution_commitment()
        .unwrap();
    let r = puzzle_solution.get_solution_proof(&wrong_w, &puzzle_commitment, None);
    assert!(matches!(r, Err(PuzzleError::InvalidSolution)));
}

#[test]
fn test_verify_and_export_rejects_invalid_proof() {
    let puzzle_solution = PuzzleSolution::new(solutions());
    let (w, puzzle_commitment) = puzzle_solution.get_solution_commitment().unwrap();
    let (_, wrong_commitment) = PuzzleSolution::new(wrong_solutions())
        .get_solution_commitment()
        .unwrap();
    let proof = puzzle_solution
        .get_solution_proof(&w, &puzzle_commitment, None)
        .unwrap();
    let r = proof.verify_and_export(&wrong_commitment, None);
    assert!(matches!(r, Err(PuzzleError::InvalidProof)));
}

#[test]
fn test_proof_binds_message() {
    let puzzle_solution = PuzzleSolution::new(solutions());
    let (w, puzzle_commitment) = puzzle_solution.get_solution_commitment().unwrap();
    let m_s = bound_message();
    let proof = puzzle_solution
        .get_solution_proof(&w, &puzzle_commitment, Some(&m_s))
        .unwrap();
    assert!(proof.verify(&puzzle_commitment, Some(&m_s)));

    let other_message = vec![8u8; 20];
    assert!(!proof.verify(&puzzle_commitment, Some(&other_message)));
    assert!(!proof.verify(&puzzle_commitment, None));
}

#[test]
fn test_proof_without_message() {
    let puzzle_solution = PuzzleSolution::new(solutions());
    let (w, puzzle_commitment) = puzzle_solution.get_solution_commitment().unwrap();
    let proof = puzzle_solution
        .get_solution_proof(&w, &puzzle_commitment, None)
        .unwrap();
    assert!(proof.verify(&puzzle_commitment, None));
}

#[test]
fn test_proof_with_fixed_blinding_is_reproducible() {
    let puzzle_solution = PuzzleSolution::new(solutions());
    let (w, puzzle_commitment) = puzzle_solution.get_solution_commitment().unwrap();
    let mut blinding_bytes = [0u8; 32];
    blinding_bytes[31] = 42;
    let blinding = Scalar {
        bytes: blinding_bytes,
    };
    let p1 = puzzle_solution
        .get_solution_proof_with_blinding(&w, &puzzle_commitment, None, &blinding)
        .unwrap();
    let p2 = puzzle_solution
        .get_solution_proof_with_blinding(&w, &puzzle_commitment, None, &blinding)
        .unwrap();
    assert_eq!(p1, p2);
    assert!(p1.verify(&puzzle_commitment, None));
}

#[test]
fn test_exported_generator_matches_k256() {
    let puzzle_solution = PuzzleSolution::new(solutions());
    let (w, puzzle_commitment) = puzzle_solution.get_solution_commitment().unwrap();
    let proof = puzzle_solution
        .get_solution_proof(&w, &puzzle_commitment, None)
        .unwrap();
    let (_, _, g_x, g_y, w_x, w_y, _) = proof.verify_and_export(&puzzle_commitment, None).unwrap();

    let enc = k256::AffinePoint::GENERATOR.to_encoded_point(false);
    assert_eq!(enc.x().unwrap().as_slice(), g_x.as_slice());
    assert_eq!(enc.y().unwrap().as_slice(), g_y.as_slice());

    let claimed = Point {
        x: w_x.as_slice().try_into().unwrap(),
        y: w_y.as_slice().try_into().unwrap(),
    };
    assert_eq!(claimed, puzzle_commitment);
}

#[test]
fn test_commitment_matches_sha2() {
    let mut hasher = sha2::Sha256::new();
    for solution in solutions() {
        hasher.update(solution.as_bytes());
    }
    let digest = hasher.finalize();
    let reduced =
        <k256::Scalar as Reduce<k256::U256>>::reduce_bytes(&digest);

    let (w, _) = PuzzleSolution::new(solutions())
        .get_solution_commitment()
        .unwrap();
    assert_eq!(reduced.to_bytes().as_slice(), w.bytes.as_slice());
}
