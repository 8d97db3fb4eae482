use vstd::prelude::*;
use crate::commitment::{commit_spec, nullifier_spec};
use crate::hash::{amount_word, is_canonical, lemma_padded_amount_canonical, u64_be, zero_hash};
use crate::hash::{bool_outcome, compress_spec, hash_result, Hash32, HashError};
use crate::merkle::{merkle_root_of, merkle_verify_spec, DEPTH};
use crate::predicates::{
    audit_outcome, audit_predicate_spec, condition_spec, nullifier_outcome,
    nullifier_predicate_spec, split_spec, stream_spec, transfer_spec, withdraw_canonical,
    withdraw_spec,
    witness_outcome, witness_spec, AuditInput, AuditOutput, MerkleWitnessInput,
    MerkleWitnessOutput, NullifierInput, NullifierOutput, TransferInput, WithdrawInput,
};

verus! {

broadcast use vstd::array::group_array_axioms;

/// Recomputing the root from a leaf and its true path, and then checking the
/// leaf against that root along the same path, succeeds; checking it against
/// any other root fails.
pub proof fn lemma_true_path_verifies(
    leaf: Seq<u8>,
    siblings: Seq<Hash32>,
    sides: Seq<u8>,
    root: Seq<u8>,
)
    requires
        merkle_root_of(leaf, siblings, sides) is Some,
    ensures
        merkle_verify_spec(leaf, root, siblings, sides) == Some(
            root == merkle_root_of(leaf, siblings, sides).unwrap(),
        ),
        merkle_verify_spec(leaf, merkle_root_of(leaf, siblings, sides).unwrap(), siblings, sides)
            == Some(true),
{
}

/// Two hashing results that meet one contract are the same value.
pub proof fn lemma_hash_result_determines(r1: Result<Hash32, HashError>, r2: Result<Hash32, HashError>)
    requires
        hash_result(r1) == hash_result(r2),
    ensures
        r1 == r2,
{
    match (r1, r2) {
        (Ok(h1), Ok(h2)) => {
            assert(h1 =~= h2);
        },
        (Err(e1), Err(e2)) => {
            assert(e1 == e2);
        },
        _ => {},
    }
}

/// Compression is deterministic: equal inputs give equal results.
pub proof fn lemma_compress_deterministic(
    a1: Hash32,
    b1: Hash32,
    a2: Hash32,
    b2: Hash32,
    r1: Result<Hash32, HashError>,
    r2: Result<Hash32, HashError>,
)
    requires
        a1 == a2,
        b1 == b2,
        hash_result(r1) == compress_spec(a1@, b1@),
        hash_result(r2) == compress_spec(a2@, b2@),
    ensures
        r1 == r2,
{
    lemma_hash_result_determines(r1, r2);
}

/// Commitment is deterministic: equal amounts and partners give equal results.
pub proof fn lemma_commit_deterministic(
    amount: u64,
    partner1: Hash32,
    partner2: Hash32,
    r1: Result<Hash32, HashError>,
    r2: Result<Hash32, HashError>,
)
    requires
        partner1 == partner2,
        hash_result(r1) == commit_spec(amount, partner1@),
        hash_result(r2) == commit_spec(amount, partner2@),
    ensures
        r1 == r2,
{
    lemma_hash_result_determines(r1, r2);
}

/// Nullifier derivation is deterministic: equal inputs give equal results.
pub proof fn lemma_nullifier_deterministic(
    prior1: Hash32,
    secret1: Hash32,
    prior2: Hash32,
    secret2: Hash32,
    r1: Result<Hash32, HashError>,
    r2: Result<Hash32, HashError>,
)
    requires
        prior1 == prior2,
        secret1 == secret2,
        hash_result(r1) == nullifier_spec(prior1@, secret1@),
        hash_result(r2) == nullifier_spec(prior2@, secret2@),
    ensures
        r1 == r2,
{
    lemma_hash_result_determines(r1, r2);
}

/// Two Merkle membership results that meet one contract are the same value.
pub proof fn lemma_merkle_verify_repeatable(
    leaf: Hash32,
    root: Hash32,
    siblings: [Hash32; DEPTH],
    sides: [u8; DEPTH],
    r1: Result<bool, HashError>,
    r2: Result<bool, HashError>,
)
    requires
        bool_outcome(r1) == merkle_verify_spec(leaf@, root@, siblings@, sides@),
        bool_outcome(r2) == merkle_verify_spec(leaf@, root@, siblings@, sides@),
    ensures
        r1 == r2,
{
    match (r1, r2) {
        (Err(e1), Err(e2)) => {
            assert(e1 == e2);
        },
        _ => {},
    }
}

/// Evaluating the Merkle witness predicate twice on one input yields the
/// same public outputs.
pub proof fn lemma_witness_repeatable(
    input: MerkleWitnessInput,
    r1: Result<MerkleWitnessOutput, HashError>,
    r2: Result<MerkleWitnessOutput, HashError>,
)
    requires
        witness_outcome(r1) == witness_spec(input),
        witness_outcome(r2) == witness_spec(input),
    ensures
        r1 == r2,
{
    match (r1, r2) {
        (Ok(o1), Ok(o2)) => {
            assert(o1.root =~= o2.root);
        },
        (Err(e1), Err(e2)) => {
            assert(e1 == e2);
        },
        _ => {},
    }
}

/// Evaluating the audit predicate twice on one input yields the same public
/// outputs.
pub proof fn lemma_audit_repeatable(
    input: AuditInput,
    r1: Result<AuditOutput, HashError>,
    r2: Result<AuditOutput, HashError>,
)
    requires
        audit_outcome(r1) == audit_predicate_spec(input),
        audit_outcome(r2) == audit_predicate_spec(input),
    ensures
        r1 == r2,
{
    match (r1, r2) {
        (Ok(o1), Ok(o2)) => {
            assert(o1.merkle_root =~= o2.merkle_root);
        },
        (Err(e1), Err(e2)) => {
            assert(e1 == e2);
        },
        _ => {},
    }
}

/// Two results that carry the same nullifier and validity are the same value.
proof fn lemma_nullifier_outcome_determines(
    r1: Result<NullifierOutput, HashError>,
    r2: Result<NullifierOutput, HashError>,
)
    requires
        nullifier_outcome(r1) == nullifier_outcome(r2),
    ensures
        r1 == r2,
{
    match (r1, r2) {
        (Ok(o1), Ok(o2)) => {
            assert(o1.nullifier =~= o2.nullifier);
        },
        (Err(e1), Err(e2)) => {
            assert(e1 == e2);
        },
        _ => {},
    }
}

/// Evaluating the nullifier predicate twice on one input yields the same
/// nullifier and validity.
pub proof fn lemma_nullifier_predicate_repeatable(
    input: NullifierInput,
    r1: Result<NullifierOutput, HashError>,
    r2: Result<NullifierOutput, HashError>,
)
    requires
        nullifier_outcome(r1) == nullifier_predicate_spec(input.note_commitment@, input.secret@),
        nullifier_outcome(r2) == nullifier_predicate_spec(input.note_commitment@, input.secret@),
    ensures
        r1 == r2,
{
    lemma_nullifier_outcome_determines(r1, r2);
}

/// Evaluating the transfer predicate twice on one input yields the same
/// nullifier and validity.
pub proof fn lemma_transfer_repeatable(
    input: TransferInput,
    r1: Result<NullifierOutput, HashError>,
    r2: Result<NullifierOutput, HashError>,
)
    requires
        nullifier_outcome(r1) == transfer_spec(input),
        nullifier_outcome(r2) == transfer_spec(input),
    ensures
        r1 == r2,
{
    lemma_nullifier_outcome_determines(r1, r2);
}

/// Evaluating the withdraw predicate twice on one input yields the same
/// nullifier and validity.
pub proof fn lemma_withdraw_repeatable(
    input: WithdrawInput,
    r1: Result<NullifierOutput, HashError>,
    r2: Result<NullifierOutput, HashError>,
)
    requires
        nullifier_outcome(r1) == withdraw_spec(input),
        nullifier_outcome(r2) == withdraw_spec(input),
    ensures
        r1 == r2,
{
    lemma_nullifier_outcome_determines(r1, r2);
}

/// The condition, split and stream predicates give the same answer on
/// repeated evaluation with the same inputs.
pub proof fn lemma_gates_repeatable(
    condition_type: u8,
    value: u64,
    recipients: [Hash32; 2],
    amounts: [u64; 2],
    stream_id: Hash32,
    total_amount: u64,
    c1: bool,
    c2: bool,
    s1: bool,
    s2: bool,
    t1: bool,
    t2: bool,
)
    requires
        c1 == condition_spec(condition_type, value),
        c2 == condition_spec(condition_type, value),
        s1 == split_spec(recipients, amounts),
        s2 == split_spec(recipients, amounts),
        t1 == stream_spec(stream_id@, total_amount),
        t2 == stream_spec(stream_id@, total_amount),
    ensures
        c1 == c2,
        s1 == s2,
        t1 == t2,
{
}

/// A withdrawal of a positive note amount in full, to a nonzero recipient,
/// whose note is a member of the tree under `merkle_root`, is valid, and its
/// outputs are produced.
pub proof fn lemma_withdraw_valid(input: WithdrawInput, r: Result<NullifierOutput, HashError>)
    requires
        input.in_amount > 0,
        input.withdrawal_amount == input.in_amount,
        input.recipient_address@ != zero_hash(),
        is_canonical(input.in_nullifier@),
        is_canonical(input.in_secret@),
        merkle_verify_spec(
            commit_spec(input.in_amount, input.in_secret@).unwrap(),
            input.merkle_root@,
            input.in_path_elements@,
            input.in_path_indices@,
        ) == Some(true),
        nullifier_outcome(r) == withdraw_spec(input),
    ensures
        r matches Ok(o) && o.is_valid,
{
    lemma_padded_amount_canonical(u64_be(input.in_amount));
    assert(is_canonical(amount_word(input.in_amount)));
}

/// A withdrawal of a zero amount, or to the zero address, is invalid; when
/// every hash it decodes is canonical its outputs are still produced.
pub proof fn lemma_withdraw_rejects(input: WithdrawInput, r: Result<NullifierOutput, HashError>)
    requires
        input.in_amount == 0 || input.recipient_address@ == zero_hash(),
        withdraw_canonical(input),
        nullifier_outcome(r) == withdraw_spec(input),
        withdraw_canonical(input) ==> r is Ok,
    ensures
        r matches Ok(o) && !o.is_valid,
{
}

} // verus!
