use vstd::prelude::*;
use crate::commitment::{commit, commit_spec, derive_nullifier, nullifier_spec};
use crate::hash::{
    amount_to_be_bytes, bool_outcome, is_canonical, amount_word, compress_spec, hash_eq, is_zero_hash, poseidon_hash2,
    poseidon_hash2_amount, zero_hash, Hash32, HashError,
};
use crate::merkle::{merkle_verify_spec, path_canonical, verify_merkle_proof, DEPTH};

verus! {

/// Whether the audit disclosure holds, or `None` when decoding fails:
/// the amount is positive, the timestamp is not in the future, and
/// `Poseidon(Poseidon(note_commitment, view_key), amount_word)` is the audit id.
pub open spec fn audit_spec(
    note_commitment: Seq<u8>,
    view_key: Seq<u8>,
    amount: u64,
    timestamp: u64,
    audit_id: Seq<u8>,
    current_time: u64,
) -> Option<bool> {
    match compress_spec(note_commitment, view_key) {
        Some(commitment_hash) => match compress_spec(commitment_hash, amount_word(amount)) {
            Some(amount_hash) => Some(
                amount > 0 && timestamp <= current_time && amount_hash == audit_id,
            ),
            None => None,
        },
        None => None,
    }
}

/// Checks an audit disclosure. `purpose` and `merkle_root` are accepted and
/// take no part in the decision.
pub fn verify_audit_proof(
    note_commitment: Hash32,
    view_key: Hash32,
    amount: u64,
    timestamp: u64,
    purpose: u64,
    audit_id: Hash32,
    merkle_root: Hash32,
    current_time: u64,
) -> (r: Result<bool, HashError>)
    ensures
        bool_outcome(r) == audit_spec(
            note_commitment@,
            view_key@,
            amount,
            timestamp,
            audit_id@,
            current_time,
        ),
        is_canonical(note_commitment@) && is_canonical(view_key@) ==> r is Ok,
{
    let commitment_hash = poseidon_hash2(note_commitment, view_key);
    let is_amount_valid = amount > 0;
    let is_timestamp_valid = timestamp <= current_time;
    match commitment_hash {
        Ok(ch) => {
            let amount_bytes = amount_to_be_bytes(amount);
            match poseidon_hash2_amount(ch, amount_bytes) {
                Ok(amount_hash) => {
                    let audit_id_valid = hash_eq(&amount_hash, &audit_id);
                    Ok(is_amount_valid && is_timestamp_valid && audit_id_valid)
                },
                Err(e) => Err(e),
            }
        },
        Err(e) => Err(e),
    }
}

/// Inputs of the Merkle witness predicate.
#[derive(Debug, Clone, Copy)]
pub struct MerkleWitnessInput {
    pub root: Hash32,
    pub leaf: Hash32,
    pub path_elements: [Hash32; DEPTH],
    pub path_indices: [u8; DEPTH],
}

/// Public outputs of the Merkle witness predicate.
#[derive(Debug, Clone, Copy)]
pub struct MerkleWitnessOutput {
    pub is_valid: bool,
    pub root: Hash32,
}

/// Validity and passed-through root of a Merkle witness evaluation.
pub open spec fn witness_outcome(r: Result<MerkleWitnessOutput, HashError>) -> Option<
    (bool, Seq<u8>),
> {
    match r {
        Ok(o) => Some((o.is_valid, o.root@)),
        Err(_) => None,
    }
}

/// The Merkle witness predicate: membership of the leaf, and the root.
pub open spec fn witness_spec(i: MerkleWitnessInput) -> Option<(bool, Seq<u8>)> {
    match merkle_verify_spec(i.leaf@, i.root@, i.path_elements@, i.path_indices@) {
        Some(b) => Some((b, i.root@)),
        None => None,
    }
}

/// Membership of `leaf` under `root`; the root is passed through.
pub fn eval_merkle_witness(input: &MerkleWitnessInput) -> (r: Result<
    MerkleWitnessOutput,
    HashError,
>)
    ensures
        witness_outcome(r) == witness_spec(*input),
        is_canonical(input.leaf@) && path_canonical(input.path_elements@) ==> r is Ok,
{
    match verify_merkle_proof(input.leaf, input.root, input.path_elements, input.path_indices) {
        Ok(b) => Ok(MerkleWitnessOutput { is_valid: b, root: input.root }),
        Err(e) => Err(e),
    }
}

/// Inputs of the audit predicate.
#[derive(Debug, Clone, Copy)]
pub struct AuditInput {
    pub note_commitment: Hash32,
    pub view_key: Hash32,
    pub amount: u64,
    pub timestamp: u64,
    pub purpose: u64,
    pub audit_id: Hash32,
    pub merkle_root: Hash32,
    pub current_time: u64,
}

/// Public outputs of the audit predicate.
#[derive(Debug, Clone, Copy)]
pub struct AuditOutput {
    pub is_valid: bool,
    pub merkle_root: Hash32,
}

/// Validity and passed-through root of an audit evaluation.
pub open spec fn audit_outcome(r: Result<AuditOutput, HashError>) -> Option<(bool, Seq<u8>)> {
    match r {
        Ok(o) => Some((o.is_valid, o.merkle_root@)),
        Err(_) => None,
    }
}

/// The audit predicate: the disclosure check, and the root unchanged.
pub open spec fn audit_predicate_spec(i: AuditInput) -> Option<(bool, Seq<u8>)> {
    match audit_spec(
        i.note_commitment@,
        i.view_key@,
        i.amount,
        i.timestamp,
        i.audit_id@,
        i.current_time,
    ) {
        Some(b) => Some((b, i.merkle_root@)),
        None => None,
    }
}

/// The audit predicate; the Merkle root is passed through unchecked.
pub fn eval_audit(input: &AuditInput) -> (r: Result<AuditOutput, HashError>)
    ensures
        audit_outcome(r) == audit_predicate_spec(*input),
        is_canonical(input.note_commitment@) && is_canonical(input.view_key@) ==> r is Ok,
{
    match verify_audit_proof(
        input.note_commitment,
        input.view_key,
        input.amount,
        input.timestamp,
        input.purpose,
        input.audit_id,
        input.merkle_root,
        input.current_time,
    ) {
        Ok(b) => Ok(AuditOutput { is_valid: b, merkle_root: input.merkle_root }),
        Err(e) => Err(e),
    }
}

/// Inputs of the nullifier predicate.
#[derive(Debug, Clone, Copy)]
pub struct NullifierInput {
    pub note_commitment: Hash32,
    pub secret: Hash32,
}

/// Public outputs of the nullifier predicate and of the spending predicates.
#[derive(Debug, Clone, Copy)]
pub struct NullifierOutput {
    pub nullifier: Hash32,
    pub is_valid: bool,
}

/// Nullifier and validity of an evaluation that yields a nullifier.
pub open spec fn nullifier_outcome(r: Result<NullifierOutput, HashError>) -> Option<
    (Seq<u8>, bool),
> {
    match r {
        Ok(o) => Some((o.nullifier@, o.is_valid)),
        Err(_) => None,
    }
}

/// Nullifier `Poseidon(note_commitment, secret)`, valid when both inputs are
/// nonzero.
pub open spec fn nullifier_predicate_spec(note_commitment: Seq<u8>, secret: Seq<u8>) -> Option<
    (Seq<u8>, bool),
> {
    match nullifier_spec(note_commitment, secret) {
        Some(n) => Some((n, note_commitment != zero_hash() && secret != zero_hash())),
        None => None,
    }
}

/// The nullifier predicate.
pub fn eval_nullifier(input: &NullifierInput) -> (r: Result<NullifierOutput, HashError>)
    ensures
        nullifier_outcome(r) == nullifier_predicate_spec(input.note_commitment@, input.secret@),
        is_canonical(input.note_commitment@) && is_canonical(input.secret@) ==> r is Ok,
{
    let commitment_nonzero = !is_zero_hash(&input.note_commitment);
    let secret_nonzero = !is_zero_hash(&input.secret);
    match derive_nullifier(input.note_commitment, input.secret) {
        Ok(n) => Ok(NullifierOutput { nullifier: n, is_valid: commitment_nonzero && secret_nonzero }),
        Err(e) => Err(e),
    }
}

/// Inputs of the transfer predicate.
#[derive(Debug, Clone, Copy)]
pub struct TransferInput {
    pub in_amount: u64,
    pub in_nullifier: Hash32,
    pub in_secret: Hash32,
    pub in_path_elements: [Hash32; DEPTH],
    pub in_path_indices: [u8; DEPTH],
    pub out_commitment: Hash32,
    pub merkle_root: Hash32,
    pub recipient_pubkey: Hash32,
}

/// Every hash that the transfer predicate decodes is canonical.
pub open spec fn transfer_canonical(i: TransferInput) -> bool {
    &&& is_canonical(i.in_nullifier@)
    &&& is_canonical(i.in_secret@)
    &&& is_canonical(i.recipient_pubkey@)
    &&& path_canonical(i.in_path_elements@)
}

/// Transfer: the input note `commit(in_amount, in_secret)` is in the tree,
/// the amount is positive, and `out_commitment` commits the same amount to
/// the recipient. Yields the nullifier `Poseidon(in_nullifier, in_secret)`.
/// Whether the recipient differs from the note's owner is deliberately not
/// checked: the predicate authorises a spend of the note, not a choice of
/// counterparty.
pub open spec fn transfer_spec(i: TransferInput) -> Option<(Seq<u8>, bool)> {
    match (
        commit_spec(i.in_amount, i.in_secret@),
        nullifier_spec(i.in_nullifier@, i.in_secret@),
        commit_spec(i.in_amount, i.recipient_pubkey@),
    ) {
        (Some(in_commitment), Some(out_nullifier), Some(expected_out)) => match merkle_verify_spec(
            in_commitment,
            i.merkle_root@,
            i.in_path_elements@,
            i.in_path_indices@,
        ) {
            Some(member) => Some(
                (out_nullifier, i.in_amount > 0 && member && expected_out == i.out_commitment@),
            ),
            None => None,
        },
        _ => None,
    }
}

/// The transfer predicate.
pub fn eval_transfer(input: &TransferInput) -> (r: Result<NullifierOutput, HashError>)
    ensures
        nullifier_outcome(r) == transfer_spec(*input),
        transfer_canonical(*input) ==> r is Ok,
{
    let is_amount_valid = input.in_amount > 0;
    let in_commitment = match commit(input.in_amount, input.in_secret) {
        Ok(c) => c,
        Err(e) => return Err(e),
    };
    let merkle_valid = match verify_merkle_proof(
        in_commitment,
        input.merkle_root,
        input.in_path_elements,
        input.in_path_indices,
    ) {
        Ok(b) => b,
        Err(e) => return Err(e),
    };
    let out_nullifier = match derive_nullifier(input.in_nullifier, input.in_secret) {
        Ok(n) => n,
        Err(e) => return Err(e),
    };
    let expected_out = match commit(input.in_amount, input.recipient_pubkey) {
        Ok(c) => c,
        Err(e) => return Err(e),
    };
    let commitment_valid = hash_eq(&input.out_commitment, &expected_out);
    Ok(NullifierOutput {
        nullifier: out_nullifier,
        is_valid: is_amount_valid && merkle_valid && commitment_valid,
    })
}

/// Inputs of the withdraw predicate.
#[derive(Debug, Clone, Copy)]
pub struct WithdrawInput {
    pub in_amount: u64,
    pub in_nullifier: Hash32,
    pub in_secret: Hash32,
    pub in_path_elements: [Hash32; DEPTH],
    pub in_path_indices: [u8; DEPTH],
    pub merkle_root: Hash32,
    pub recipient_address: Hash32,
    pub withdrawal_amount: u64,
}

/// Every hash that the withdraw predicate decodes is canonical.
pub open spec fn withdraw_canonical(i: WithdrawInput) -> bool {
    &&& is_canonical(i.in_nullifier@)
    &&& is_canonical(i.in_secret@)
    &&& path_canonical(i.in_path_elements@)
}

/// Withdraw: the input note is in the tree, its amount is positive and is
/// the whole withdrawal, and the recipient address is nonzero.
pub open spec fn withdraw_spec(i: WithdrawInput) -> Option<(Seq<u8>, bool)> {
    match (commit_spec(i.in_amount, i.in_secret@), nullifier_spec(i.in_nullifier@, i.in_secret@)) {
        (Some(in_commitment), Some(out_nullifier)) => match merkle_verify_spec(
            in_commitment,
            i.merkle_root@,
            i.in_path_elements@,
            i.in_path_indices@,
        ) {
            Some(member) => Some(
                (
                    out_nullifier,
                    i.in_amount > 0 && i.withdrawal_amount == i.in_amount && member
                        && i.recipient_address@ != zero_hash(),
                ),
            ),
            None => None,
        },
        _ => None,
    }
}

/// The withdraw predicate.
pub fn eval_withdraw(input: &WithdrawInput) -> (r: Result<NullifierOutput, HashError>)
    ensures
        nullifier_outcome(r) == withdraw_spec(*input),
        withdraw_canonical(*input) ==> r is Ok,
{
    let is_amount_valid = input.in_amount > 0;
    let is_withdrawal_valid = input.withdrawal_amount == input.in_amount;
    let in_commitment = match commit(input.in_amount, input.in_secret) {
        Ok(c) => c,
        Err(e) => return Err(e),
    };
    let merkle_valid = match verify_merkle_proof(
        in_commitment,
        input.merkle_root,
        input.in_path_elements,
        input.in_path_indices,
    ) {
        Ok(b) => b,
        Err(e) => return Err(e),
    };
    let out_nullifier = match derive_nullifier(input.in_nullifier, input.in_secret) {
        Ok(n) => n,
        Err(e) => return Err(e),
    };
    let is_recipient_valid = !is_zero_hash(&input.recipient_address);
    Ok(NullifierOutput {
        nullifier: out_nullifier,
        is_valid: is_amount_valid && is_withdrawal_valid && merkle_valid && is_recipient_valid,
    })
}

/// The condition gate: the type is 0 or 1 and the value is positive.
pub open spec fn condition_spec(condition_type: u8, value: u64) -> bool {
    (condition_type == 0 || condition_type == 1) && value > 0
}

/// The condition predicate.
pub fn eval_zk_condition(condition_type: u8, value: u64) -> (r: bool)
    ensures
        r == condition_spec(condition_type, value),
{
    let is_type_valid = condition_type == 0 || condition_type == 1;
    let is_value_valid = value > 0;
    is_type_valid && is_value_valid
}

/// The split check: two distinct nonzero recipients, and amounts whose sum
/// is positive and fits in a `u64` (an overflowing sum is invalid).
pub open spec fn split_spec(recipients: [Hash32; 2], amounts: [u64; 2]) -> bool {
    &&& recipients[0]@ != recipients[1]@
    &&& recipients[0]@ != zero_hash()
    &&& recipients[1]@ != zero_hash()
    &&& amounts[0] + amounts[1] <= u64::MAX
    &&& amounts[0] + amounts[1] > 0
}

/// The split predicate.
pub fn eval_zk_split(recipients: [Hash32; 2], amounts: [u64; 2]) -> (r: bool)
    ensures
        r == split_spec(recipients, amounts),
{
    let unique = !hash_eq(&recipients[0], &recipients[1]);
    let nonzero = !is_zero_hash(&recipients[0]) && !is_zero_hash(&recipients[1]);
    let sum_valid = match amounts[0].checked_add(amounts[1]) {
        Some(sum) => sum > 0,
        None => false,
    };
    unique && nonzero && sum_valid
}

/// The stream check: a positive total and a nonzero stream id.
pub open spec fn stream_spec(stream_id: Seq<u8>, total_amount: u64) -> bool {
    total_amount > 0 && stream_id != zero_hash()
}

/// The stream predicate.
pub fn eval_zk_stream(stream_id: Hash32, total_amount: u64) -> (r: bool)
    ensures
        r == stream_spec(stream_id@, total_amount),
{
    let is_amount_valid = total_amount > 0;
    let is_id_valid = !is_zero_hash(&stream_id);
    is_amount_valid && is_id_valid
}

/// The inputs of one predicate evaluation, tagged by predicate.
#[derive(Debug, Clone, Copy)]
pub enum PredicateInput {
    MerkleWitness(MerkleWitnessInput),
    Audit(AuditInput),
    Nullifier(NullifierInput),
    Transfer(TransferInput),
    Withdraw(WithdrawInput),
    Condition { condition_type: u8, value: u64 },
    Split { recipients: [Hash32; 2], amounts: [u64; 2] },
    Stream { stream_id: Hash32, total_amount: u64 },
}

/// The public outputs of one evaluation, in journal order.
#[derive(Debug, Clone, Copy)]
pub enum PublicOutputs {
    /// Validity, then the root.
    MerkleWitness(MerkleWitnessOutput),
    /// Validity, then the Merkle root.
    Audit(AuditOutput),
    /// The nullifier, then validity (nullifier, transfer and withdraw).
    Spend(NullifierOutput),
    /// Validity alone (condition, split and stream).
    Validity(bool),
}

/// What an evaluation publishes, as plain values: the validity bit and the
/// hash it carries (the root or the nullifier), if any.
pub open spec fn outputs_view(o: PublicOutputs) -> (bool, Option<Seq<u8>>) {
    match o {
        PublicOutputs::MerkleWitness(w) => (w.is_valid, Some(w.root@)),
        PublicOutputs::Audit(a) => (a.is_valid, Some(a.merkle_root@)),
        PublicOutputs::Spend(n) => (n.is_valid, Some(n.nullifier@)),
        PublicOutputs::Validity(b) => (b, None),
    }
}

/// Every hash that the named predicate decodes is canonical.
pub open spec fn inputs_canonical(input: PredicateInput) -> bool {
    match input {
        PredicateInput::MerkleWitness(i) => is_canonical(i.leaf@) && path_canonical(
            i.path_elements@,
        ),
        PredicateInput::Audit(i) => is_canonical(i.note_commitment@) && is_canonical(i.view_key@),
        PredicateInput::Nullifier(i) => is_canonical(i.note_commitment@) && is_canonical(
            i.secret@,
        ),
        PredicateInput::Transfer(i) => transfer_canonical(i),
        PredicateInput::Withdraw(i) => withdraw_canonical(i),
        _ => true,
    }
}

/// The outcome that each predicate owes on its inputs.
pub open spec fn evaluate_spec(input: PredicateInput) -> Option<(bool, Option<Seq<u8>>)> {
    match input {
        PredicateInput::MerkleWitness(i) => match witness_spec(i) {
            Some((b, root)) => Some((b, Some(root))),
            None => None,
        },
        PredicateInput::Audit(i) => match audit_predicate_spec(i) {
            Some((b, root)) => Some((b, Some(root))),
            None => None,
        },
        PredicateInput::Nullifier(i) => match nullifier_predicate_spec(
            i.note_commitment@,
            i.secret@,
        ) {
            Some((n, b)) => Some((b, Some(n))),
            None => None,
        },
        PredicateInput::Transfer(i) => match transfer_spec(i) {
            Some((n, b)) => Some((b, Some(n))),
            None => None,
        },
        PredicateInput::Withdraw(i) => match withdraw_spec(i) {
            Some((n, b)) => Some((b, Some(n))),
            None => None,
        },
        PredicateInput::Condition { condition_type, value } => Some(
            (condition_spec(condition_type, value), None),
        ),
        PredicateInput::Split { recipients, amounts } => Some(
            (split_spec(recipients, amounts), None),
        ),
        PredicateInput::Stream { stream_id, total_amount } => Some(
            (stream_spec(stream_id@, total_amount), None),
        ),
    }
}

/// Evaluates the predicate that `input` names.
pub fn evaluate(input: &PredicateInput) -> (r: Result<PublicOutputs, HashError>)
    ensures
        match evaluate_spec(*input) {
            Some(v) => r matches Ok(o) && outputs_view(o) == v,
            None => r is Err,
        },
        inputs_canonical(*input) ==> r is Ok,
{
    match input {
        PredicateInput::MerkleWitness(i) => match eval_merkle_witness(i) {
            Ok(o) => Ok(PublicOutputs::MerkleWitness(o)),
            Err(e) => Err(e),
        },
        PredicateInput::Audit(i) => match eval_audit(i) {
            Ok(o) => Ok(PublicOutputs::Audit(o)),
            Err(e) => Err(e),
        },
        PredicateInput::Nullifier(i) => match eval_nullifier(i) {
            Ok(o) => Ok(PublicOutputs::Spend(o)),
            Err(e) => Err(e),
        },
        PredicateInput::Transfer(i) => match eval_transfer(i) {
            Ok(o) => Ok(PublicOutputs::Spend(o)),
            Err(e) => Err(e),
        },
        PredicateInput::Withdraw(i) => match eval_withdraw(i) {
            Ok(o) => Ok(PublicOutputs::Spend(o)),
            Err(e) => Err(e),
        },
        PredicateInput::Condition { condition_type, value } => Ok(
            PublicOutputs::Validity(eval_zk_condition(*condition_type, *value)),
        ),
        PredicateInput::Split { recipients, amounts } => Ok(
            PublicOutputs::Validity(eval_zk_split(*recipients, *amounts)),
        ),
        PredicateInput::Stream { stream_id, total_amount } => Ok(
            PublicOutputs::Validity(eval_zk_stream(*stream_id, *total_amount)),
        ),
    }
}

} // verus!
