//! Verification logic for a shielded-payment scheme: a Poseidon-based
//! compression function, a fixed-depth Merkle membership check, note
//! commitments and nullifiers, and the transaction validity predicates
//! built from them. Semantic failures are reported as `is_valid == false`;
//! only undecodable field elements abort, as `Err(HashError)`.

pub mod hash;
pub mod merkle;
pub mod commitment;
pub mod predicates;
pub mod laws;
pub mod hexcode;
pub mod vectors;
pub mod attest;
pub mod notes;
pub mod scan;

pub use hash::{amount_to_be_bytes, hash_eq, is_zero_hash, pad_amount_bytes, poseidon_hash2, poseidon_hash2_amount, Hash32, HashError};
pub use merkle::{compute_merkle_root, verify_merkle_proof, DEPTH};
pub use commitment::{amount_to_word, commit, derive_nullifier};
pub use predicates::{
    eval_audit, eval_merkle_witness, eval_nullifier, eval_transfer, eval_withdraw,
    eval_zk_condition, eval_zk_split, eval_zk_stream, evaluate, verify_audit_proof, AuditInput, AuditOutput,
    MerkleWitnessInput, MerkleWitnessOutput, NullifierInput, NullifierOutput, TransferInput,
    PredicateInput, PublicOutputs, WithdrawInput,
};
pub use hexcode::hex_to_bytes32;
pub use vectors::{
    audit_test_vectors, merkle_test_vectors, nullifier_test_vectors, transfer_test_vectors,
    withdraw_test_vectors, zkcondition_test_vectors, zksplit_test_vectors, zkstream_test_vectors,
    AuditTestVector, MerkleTestVector, NullifierTestVector, TransferTestVector, WithdrawTestVector,
    ZkConditionTestVector, ZkSplitTestVector, ZkStreamTestVector,
};
pub use attest::{generate_proof, verify_proof, Proof, ProofError};
pub use notes::{scan_notes, Note, NoteError};
pub use scan::{metadata_matches, note_expired};
