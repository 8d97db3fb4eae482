use zkpop::{
    audit_test_vectors, eval_zk_condition, eval_zk_split, eval_zk_stream, hex_to_bytes32,
    merkle_test_vectors, nullifier_test_vectors, transfer_test_vectors, withdraw_test_vectors,
    zkcondition_test_vectors, zksplit_test_vectors, zkstream_test_vectors, DEPTH,
};

#[test]
fn vector_tables_have_their_cases() {
    assert_eq!(merkle_test_vectors().len(), 2);
    assert_eq!(audit_test_vectors().len(), 2);
    assert_eq!(transfer_test_vectors().len(), 3);
    assert_eq!(withdraw_test_vectors().len(), 3);
    assert_eq!(nullifier_test_vectors().len(), 3);
    assert_eq!(zkcondition_test_vectors().len(), 4);
    assert_eq!(zksplit_test_vectors().len(), 4);
    assert_eq!(zkstream_test_vectors().len(), 3);
}

#[test]
fn merkle_vectors_hold_their_values() {
    let v = merkle_test_vectors();
    assert_eq!(v[0].root[24..], [0x12, 0x34, 0x56, 0x78, 0x90, 0xab, 0xcd, 0xef]);
    assert_eq!(v[1].leaf, hex_to_bytes32("1111111111111111"));
    assert_eq!(v[1].path_elements, [[1u8; 32]; DEPTH]);
    assert_eq!(v[1].path_indices, [1u8; DEPTH]);
}

#[test]
fn gate_vectors_decide_as_labelled() {
    let c: Vec<bool> = zkcondition_test_vectors()
        .iter()
        .map(|t| eval_zk_condition(t.condition_type, t.value))
        .collect();
    assert_eq!(c, vec![true, true, false, false]);
    let s: Vec<bool> = zksplit_test_vectors()
        .iter()
        .map(|t| eval_zk_split(t.recipients, t.amounts))
        .collect();
    assert_eq!(s, vec![true, false, false, false]);
    let t: Vec<bool> = zkstream_test_vectors()
        .iter()
        .map(|t| eval_zk_stream(t.stream_id, t.total_amount))
        .collect();
    assert_eq!(t, vec![true, false, false]);
}

#[test]
fn audit_vector_values() {
    let v = audit_test_vectors();
    assert_eq!(v[0].amount, 100);
    assert_eq!(v[1].timestamp, 1234550000);
    assert_eq!(v[1].audit_id, [0u8; 32]);
    assert_eq!(v[0].merkle_root[16..], [0x33u8; 16]);
}
