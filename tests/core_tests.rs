use zkpop::{
    amount_to_be_bytes, amount_to_word, commit, compute_merkle_root, derive_nullifier,
    eval_audit, eval_merkle_witness, eval_nullifier, eval_transfer, eval_withdraw,
    eval_zk_condition, eval_zk_split, eval_zk_stream, hex_to_bytes32, poseidon_hash2,
    poseidon_hash2_amount, verify_audit_proof, verify_merkle_proof, AuditInput, Hash32,
    HashError, MerkleWitnessInput, NullifierInput, TransferInput, WithdrawInput, DEPTH,
};

fn small(v: u8) -> Hash32 {
    let mut h = [0u8; 32];
    h[31] = v;
    h
}

fn sample_path() -> ([Hash32; DEPTH], [u8; DEPTH]) {
    let mut elements = [[0u8; 32]; DEPTH];
    let mut indices = [0u8; DEPTH];
    for i in 0..DEPTH {
        elements[i] = small(i as u8 + 1);
        indices[i] = (i % 3 == 1) as u8;
    }
    (elements, indices)
}

#[test]
fn poseidon_of_one_and_two() {
    let h = poseidon_hash2(small(1), small(2)).unwrap();
    let expected = hex_to_bytes32("0x115cc0f5e7d690413df64c6b9662e9cf2a3617f2743245519e19607a4417189a");
    assert_eq!(h, expected);
}

#[test]
fn poseidon_argument_order_matters() {
    let ab = poseidon_hash2(small(1), small(2)).unwrap();
    let ba = poseidon_hash2(small(2), small(1)).unwrap();
    assert_ne!(ab, ba);
}

#[test]
fn poseidon_is_deterministic() {
    let a = poseidon_hash2(small(9), small(4)).unwrap();
    let b = poseidon_hash2(small(9), small(4)).unwrap();
    assert_eq!(a, b);
    let c = poseidon_hash2(small(9), small(5)).unwrap();
    assert_ne!(a, c);
}

#[test]
fn poseidon_rejects_non_canonical_input() {
    assert_eq!(poseidon_hash2([0xffu8; 32], small(1)), Err(HashError::MalformedFieldElement));
    assert_eq!(poseidon_hash2(small(1), [0xffu8; 32]), Err(HashError::MalformedFieldElement));
    let modulus = hex_to_bytes32("0x30644e72e131a029b85045b68181585d2833e84879b9709143e1f593f0000001");
    assert_eq!(poseidon_hash2(modulus, small(1)), Err(HashError::MalformedFieldElement));
    let mut below = modulus;
    below[31] = 0;
    assert!(poseidon_hash2(below, small(1)).is_ok());
}

#[test]
fn amount_bytes_are_big_endian() {
    assert_eq!(amount_to_be_bytes(0x0102030405060708), [1, 2, 3, 4, 5, 6, 7, 8]);
    let w = amount_to_word(0x0102030405060708);
    assert_eq!(&w[..24], &[0u8; 24][..]);
    assert_eq!(&w[24..], &[1u8, 2, 3, 4, 5, 6, 7, 8][..]);
}

#[test]
fn hash_with_amount_pads_the_amount() {
    let a = small(3);
    let direct = poseidon_hash2(a, amount_to_word(100)).unwrap();
    let padded = poseidon_hash2_amount(a, 100u64.to_be_bytes()).unwrap();
    assert_eq!(direct, padded);
}

#[test]
fn commitment_and_nullifier_orders() {
    let secret = small(77);
    assert_eq!(commit(50, secret).unwrap(), poseidon_hash2(amount_to_word(50), secret).unwrap());
    assert_eq!(derive_nullifier(small(5), secret).unwrap(), poseidon_hash2(small(5), secret).unwrap());
    assert_ne!(commit(50, secret).unwrap(), commit(51, secret).unwrap());
}

#[test]
fn merkle_true_path_verifies() {
    let (elements, indices) = sample_path();
    let leaf = small(42);
    let root = compute_merkle_root(leaf, &elements, &indices).unwrap();
    assert_eq!(verify_merkle_proof(leaf, root, elements, indices), Ok(true));
    assert_eq!(verify_merkle_proof(leaf, small(1), elements, indices), Ok(false));
}

#[test]
fn merkle_flipped_sibling_or_side_fails() {
    let (elements, indices) = sample_path();
    let leaf = small(42);
    let root = compute_merkle_root(leaf, &elements, &indices).unwrap();
    let mut bad_elements = elements;
    bad_elements[17][31] ^= 1;
    assert_eq!(verify_merkle_proof(leaf, root, bad_elements, indices), Ok(false));
    let mut bad_indices = indices;
    bad_indices[0] ^= 1;
    assert_eq!(verify_merkle_proof(leaf, root, elements, bad_indices), Ok(false));
}

#[test]
fn merkle_malformed_sibling_aborts() {
    let (mut elements, indices) = sample_path();
    elements[31] = [0xffu8; 32];
    assert_eq!(
        verify_merkle_proof(small(42), small(1), elements, indices),
        Err(HashError::MalformedFieldElement)
    );
}

#[test]
fn merkle_witness_passes_root_through() {
    let (elements, indices) = sample_path();
    let leaf = small(42);
    let root = compute_merkle_root(leaf, &elements, &indices).unwrap();
    let out = eval_merkle_witness(&MerkleWitnessInput {
        root,
        leaf,
        path_elements: elements,
        path_indices: indices,
    })
    .unwrap();
    assert!(out.is_valid);
    assert_eq!(out.root, root);
    let bad = eval_merkle_witness(&MerkleWitnessInput {
        root: small(9),
        leaf,
        path_elements: elements,
        path_indices: indices,
    })
    .unwrap();
    assert!(!bad.is_valid);
    assert_eq!(bad.root, small(9));
}

#[test]
fn condition_scenarios() {
    assert!(eval_zk_condition(0, 12345));
    assert!(eval_zk_condition(1, 1));
    assert!(!eval_zk_condition(2, 100));
    assert!(!eval_zk_condition(0, 0));
}

#[test]
fn split_scenarios() {
    let a = small(0x11);
    let b = small(0x22);
    assert!(eval_zk_split([a, b], [60, 40]));
    assert!(!eval_zk_split([a, a], [60, 40]));
    assert!(!eval_zk_split([a, [0u8; 32]], [60, 40]));
    assert!(!eval_zk_split([a, b], [0, 0]));
    assert!(eval_zk_split([a, b], [0, 1]));
}

#[test]
fn split_overflowing_sum_is_invalid() {
    let a = small(0x11);
    let b = small(0x22);
    assert!(!eval_zk_split([a, b], [u64::MAX, 1]));
    assert!(eval_zk_split([a, b], [u64::MAX, 0]));
}

#[test]
fn stream_scenarios() {
    assert!(eval_zk_stream(small(0x33), 1000));
    assert!(!eval_zk_stream(small(0x33), 0));
    assert!(!eval_zk_stream([0u8; 32], 1000));
}

#[test]
fn nullifier_scenarios() {
    let c = small(0xdd);
    let s = small(0xee);
    let out = eval_nullifier(&NullifierInput { note_commitment: c, secret: s }).unwrap();
    assert!(out.is_valid);
    assert_eq!(out.nullifier, poseidon_hash2(c, s).unwrap());
    let zero_c = eval_nullifier(&NullifierInput { note_commitment: [0u8; 32], secret: s }).unwrap();
    assert!(!zero_c.is_valid);
    let zero_s = eval_nullifier(&NullifierInput { note_commitment: c, secret: [0u8; 32] }).unwrap();
    assert!(!zero_s.is_valid);
    assert_eq!(
        eval_nullifier(&NullifierInput { note_commitment: [0xffu8; 32], secret: s }).unwrap_err(),
        HashError::MalformedFieldElement
    );
}

fn withdraw_case(amount: u64, withdrawal: u64, recipient: Hash32) -> WithdrawInput {
    let (elements, indices) = sample_path();
    let secret = small(0x5e);
    let root = compute_merkle_root(commit(50, secret).unwrap(), &elements, &indices).unwrap();
    WithdrawInput {
        in_amount: amount,
        in_nullifier: small(0x4e),
        in_secret: secret,
        in_path_elements: elements,
        in_path_indices: indices,
        merkle_root: root,
        recipient_address: recipient,
        withdrawal_amount: withdrawal,
    }
}

#[test]
fn withdraw_scenarios() {
    let ok = eval_withdraw(&withdraw_case(50, 50, small(0xcc))).unwrap();
    assert!(ok.is_valid);
    assert_eq!(ok.nullifier, poseidon_hash2(small(0x4e), small(0x5e)).unwrap());
    assert!(!eval_withdraw(&withdraw_case(0, 0, small(0xcc))).unwrap().is_valid);
    assert!(!eval_withdraw(&withdraw_case(50, 50, [0u8; 32])).unwrap().is_valid);
    assert!(!eval_withdraw(&withdraw_case(50, 40, small(0xcc))).unwrap().is_valid);
    let mut not_member = withdraw_case(50, 50, small(0xcc));
    not_member.merkle_root = small(1);
    assert!(!eval_withdraw(&not_member).unwrap().is_valid);
}

fn transfer_case(amount: u64, out_commitment: Option<Hash32>) -> TransferInput {
    let (elements, indices) = sample_path();
    let secret = small(0x5e);
    let recipient = small(0xbb);
    let root = compute_merkle_root(commit(amount, secret).unwrap(), &elements, &indices).unwrap();
    TransferInput {
        in_amount: amount,
        in_nullifier: small(0x4e),
        in_secret: secret,
        in_path_elements: elements,
        in_path_indices: indices,
        out_commitment: out_commitment.unwrap_or_else(|| commit(amount, recipient).unwrap()),
        merkle_root: root,
        recipient_pubkey: recipient,
    }
}

#[test]
fn transfer_scenarios() {
    let ok = eval_transfer(&transfer_case(100, None)).unwrap();
    assert!(ok.is_valid);
    assert_eq!(ok.nullifier, poseidon_hash2(small(0x4e), small(0x5e)).unwrap());
    assert!(!eval_transfer(&transfer_case(0, None)).unwrap().is_valid);
    assert!(!eval_transfer(&transfer_case(100, Some(small(1)))).unwrap().is_valid);
    let again = eval_transfer(&transfer_case(100, None)).unwrap();
    assert_eq!(again.nullifier, ok.nullifier);
    assert_eq!(again.is_valid, ok.is_valid);
}

#[test]
fn audit_scenarios() {
    let nc = small(0x11);
    let vk = small(0x22);
    let ch = poseidon_hash2(nc, vk).unwrap();
    let audit_id = poseidon_hash2_amount(ch, 100u64.to_be_bytes()).unwrap();
    assert_eq!(verify_audit_proof(nc, vk, 100, 1234560000, 1, audit_id, small(0x33), 1234567890), Ok(true));
    assert_eq!(verify_audit_proof(nc, vk, 100, 1234567891, 1, audit_id, small(0x33), 1234567890), Ok(false));
    assert_eq!(verify_audit_proof(nc, vk, 100, 1234560000, 1, [0u8; 32], small(0x33), 1234567890), Ok(false));
    let zero_amount_id = poseidon_hash2_amount(ch, 0u64.to_be_bytes()).unwrap();
    assert_eq!(verify_audit_proof(nc, vk, 0, 1, 1, zero_amount_id, small(0x33), 5), Ok(false));
    let out = eval_audit(&AuditInput {
        note_commitment: nc,
        view_key: vk,
        amount: 100,
        timestamp: 1234560000,
        purpose: 1,
        audit_id,
        merkle_root: small(0x33),
        current_time: 1234567890,
    })
    .unwrap();
    assert!(out.is_valid);
    assert_eq!(out.merkle_root, small(0x33));
}

#[test]
fn hex_to_bytes32_right_aligns() {
    let h = hex_to_bytes32("0x1234");
    assert_eq!(h[30], 0x12);
    assert_eq!(h[31], 0x34);
    assert_eq!(&h[..30], &[0u8; 30][..]);
    assert_eq!(hex_to_bytes32("ABcd"), hex_to_bytes32("0xabcd"));
    assert_eq!(hex_to_bytes32("0x0xab")[31], 0xab);
    assert_eq!(hex_to_bytes32(""), [0u8; 32]);
}
