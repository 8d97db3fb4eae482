use zkpop::{generate_proof, verify_proof, ProofError};

#[test]
fn test_proof_generation() {
    let input = "test_secret";
    let proof = generate_proof(input).unwrap();
    assert!(verify_proof(&proof, input).unwrap());
}

#[test]
fn test_proof_verification_failure() {
    let input = "test_secret";
    let wrong_input = "wrong_secret";
    let proof = generate_proof(input).unwrap();
    assert!(!verify_proof(&proof, wrong_input).unwrap());
}

#[test]
fn test_invalid_input() {
    let empty_input = "";
    assert!(matches!(generate_proof(empty_input), Err(ProofError::InvalidInput)));
}

#[test]
fn proof_text_has_prefix() {
    let proof = generate_proof("abc").unwrap();
    assert_eq!(proof.text, "zkproof_for_abc");
    assert_eq!(verify_proof(&proof, ""), Ok(false));
    assert_eq!(verify_proof(&proof, "abd"), Ok(false));
}
