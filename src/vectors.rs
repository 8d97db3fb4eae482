use vstd::prelude::*;
use crate::hash::{zero_hash, Hash32};
use crate::hexcode::{hex32_value, hex_to_bytes32, strip_0x};
use crate::merkle::DEPTH;

verus! {

/// A Merkle membership case: a leaf, a root and a path between them.
#[derive(Debug, Clone, Copy)]
pub struct MerkleTestVector {
    pub root: Hash32,
    pub leaf: Hash32,
    pub path_elements: [Hash32; DEPTH],
    pub path_indices: [u8; DEPTH],
}

/// An audit disclosure case.
#[derive(Debug, Clone, Copy)]
pub struct AuditTestVector {
    pub note_commitment: Hash32,
    pub view_key: Hash32,
    pub amount: u64,
    pub timestamp: u64,
    pub purpose: u64,
    pub audit_id: Hash32,
    pub merkle_root: Hash32,
}

/// A transfer case: an amount and the two parties.
#[derive(Debug, Clone, Copy)]
pub struct TransferTestVector {
    pub amount: u64,
    pub sender: Hash32,
    pub receiver: Hash32,
}

/// A withdrawal case: an amount and the recipient.
#[derive(Debug, Clone, Copy)]
pub struct WithdrawTestVector {
    pub amount: u64,
    pub recipient: Hash32,
}

/// A nullifier case: the note value and the secret.
#[derive(Debug, Clone, Copy)]
pub struct NullifierTestVector {
    pub nullifier: Hash32,
    pub secret: Hash32,
}

/// A condition-gate case.
#[derive(Debug, Clone, Copy)]
pub struct ZkConditionTestVector {
    pub condition_type: u8,
    pub value: u64,
}

/// A split case: two recipients and their amounts.
#[derive(Debug, Clone, Copy)]
pub struct ZkSplitTestVector {
    pub recipients: [Hash32; 2],
    pub amounts: [u64; 2],
}

/// A stream case.
#[derive(Debug, Clone, Copy)]
pub struct ZkStreamTestVector {
    pub stream_id: Hash32,
    pub total_amount: u64,
}

/// Merkle cases: an all-zero path with left turns, and an all-ones path
/// with right turns.
pub fn merkle_test_vectors() -> (r: Vec<MerkleTestVector>)
    ensures
        r@.len() == 2,
        r@[0].root@ == hex32_value("0x1234567890abcdef"@),
        r@[0].leaf@ == hex32_value("0xfedcba0987654321"@),
        forall|k: int|
            0 <= k < DEPTH ==> (#[trigger] r@[0].path_elements[k])@ == zero_hash()
                && r@[0].path_indices[k] == 0,
        r@[1].root@ == hex32_value("0xabcdefabcdefabcd"@),
        r@[1].leaf@ == hex32_value("0x1111111111111111"@),
        forall|k: int|
            0 <= k < DEPTH ==> (#[trigger] r@[1].path_elements[k])@ == Seq::new(32, |j: int| 1u8)
                && r@[1].path_indices[k] == 1,
{
    proof {
        reveal_strlit("0x1234567890abcdef");
        reveal_strlit("0xfedcba0987654321");
        reveal_strlit("0xabcdefabcdefabcd");
        reveal_strlit("0x1111111111111111");
        reveal_with_fuel(strip_0x, 3);
    }
    let zeros: Hash32 = [0u8; 32];
    let ones: Hash32 = [1u8; 32];
    assert(ones@ =~= Seq::new(32, |j: int| 1u8));
    vec![
        MerkleTestVector {
            root: hex_to_bytes32("0x1234567890abcdef"),
            leaf: hex_to_bytes32("0xfedcba0987654321"),
            path_elements: [zeros; DEPTH],
            path_indices: [0u8; DEPTH],
        },
        MerkleTestVector {
            root: hex_to_bytes32("0xabcdefabcdefabcd"),
            leaf: hex_to_bytes32("0x1111111111111111"),
            path_elements: [ones; DEPTH],
            path_indices: [1u8; DEPTH],
        },
    ]
}

/// Split cases: valid; duplicate recipients; a zero recipient; zero sum.
pub fn zksplit_test_vectors() -> (r: Vec<ZkSplitTestVector>)
    ensures
        r@.len() == 4,
        r@[0].recipients[0]@ == hex32_value("0x1111"@) && r@[0].recipients[1]@ == hex32_value(
            "0x2222"@,
        ) && r@[0].amounts[0] == 60 && r@[0].amounts[1] == 40,
        r@[1].recipients[0]@ == hex32_value("0x1111"@) && r@[1].recipients[1]@ == hex32_value(
            "0x1111"@,
        ) && r@[1].amounts[0] == 60 && r@[1].amounts[1] == 40,
        r@[2].recipients[0]@ == hex32_value("0x1111"@) && r@[2].recipients[1]@ == zero_hash()
            && r@[2].amounts[0] == 60 && r@[2].amounts[1] == 40,
        r@[3].recipients[0]@ == hex32_value("0x1111"@) && r@[3].recipients[1]@ == hex32_value(
            "0x2222"@,
        ) && r@[3].amounts[0] == 0 && r@[3].amounts[1] == 0,
{
    proof {
        reveal_strlit("0x1111");
        reveal_strlit("0x2222");
        reveal_with_fuel(strip_0x, 3);
    }
    vec![
        ZkSplitTestVector {
            recipients: [hex_to_bytes32("0x1111"), hex_to_bytes32("0x2222")],
            amounts: [60, 40],
        },
        ZkSplitTestVector {
            recipients: [hex_to_bytes32("0x1111"), hex_to_bytes32("0x1111")],
            amounts: [60, 40],
        },
        ZkSplitTestVector { recipients: [hex_to_bytes32("0x1111"), [0u8; 32]], amounts: [60, 40] },
        ZkSplitTestVector {
            recipients: [hex_to_bytes32("0x1111"), hex_to_bytes32("0x2222")],
            amounts: [0, 0],
        },
    ]
}

/// Audit cases, each with an all-zero audit id.
pub fn audit_test_vectors() -> (r: Vec<AuditTestVector>)
    ensures
        r@.len() == 2,
        r@[0].note_commitment@ == hex32_value("0x11111111111111111111111111111111"@) && r@[0].view_key@ == hex32_value("0x22222222222222222222222222222222"@) && r@[0].amount == 100 && r@[0].timestamp == 1234560000 && r@[0].purpose == 1 && r@[0].audit_id@ == zero_hash() && r@[0].merkle_root@ == hex32_value("0x33333333333333333333333333333333"@),
        r@[1].note_commitment@ == hex32_value("0xabcdefabcdefabcdefabcdefabcdefab"@) && r@[1].view_key@ == hex32_value("0x44444444444444444444444444444444"@) && r@[1].amount == 200 && r@[1].timestamp == 1234550000 && r@[1].purpose == 2 && r@[1].audit_id@ == zero_hash() && r@[1].merkle_root@ == hex32_value("0x55555555555555555555555555555555"@),
{
    proof {
        reveal_strlit("0x11111111111111111111111111111111");
        reveal_strlit("0x22222222222222222222222222222222");
        reveal_strlit("0x33333333333333333333333333333333");
        reveal_strlit("0x44444444444444444444444444444444");
        reveal_strlit("0x55555555555555555555555555555555");
        reveal_strlit("0xabcdefabcdefabcdefabcdefabcdefab");
        reveal_with_fuel(strip_0x, 3);
    }
    vec![
        AuditTestVector { note_commitment: hex_to_bytes32("0x11111111111111111111111111111111"), view_key: hex_to_bytes32("0x22222222222222222222222222222222"), amount: 100, timestamp: 1234560000, purpose: 1, audit_id: [0u8; 32], merkle_root: hex_to_bytes32("0x33333333333333333333333333333333") },
        AuditTestVector { note_commitment: hex_to_bytes32("0xabcdefabcdefabcdefabcdefabcdefab"), view_key: hex_to_bytes32("0x44444444444444444444444444444444"), amount: 200, timestamp: 1234550000, purpose: 2, audit_id: [0u8; 32], merkle_root: hex_to_bytes32("0x55555555555555555555555555555555") },
    ]
}

/// Transfer cases: valid; zero amount; sender equal to receiver.
pub fn transfer_test_vectors() -> (r: Vec<TransferTestVector>)
    ensures
        r@.len() == 3,
        r@[0].amount == 100 && r@[0].sender@ == hex32_value("0xaaaa"@) && r@[0].receiver@ == hex32_value("0xbbbb"@),
        r@[1].amount == 0 && r@[1].sender@ == hex32_value("0xaaaa"@) && r@[1].receiver@ == hex32_value("0xbbbb"@),
        r@[2].amount == 50 && r@[2].sender@ == hex32_value("0xcccc"@) && r@[2].receiver@ == hex32_value("0xcccc"@),
{
    proof {
        reveal_strlit("0xaaaa");
        reveal_strlit("0xbbbb");
        reveal_strlit("0xcccc");
        reveal_with_fuel(strip_0x, 3);
    }
    vec![
        TransferTestVector { amount: 100, sender: hex_to_bytes32("0xaaaa"), receiver: hex_to_bytes32("0xbbbb") },
        TransferTestVector { amount: 0, sender: hex_to_bytes32("0xaaaa"), receiver: hex_to_bytes32("0xbbbb") },
        TransferTestVector { amount: 50, sender: hex_to_bytes32("0xcccc"), receiver: hex_to_bytes32("0xcccc") },
    ]
}

/// Withdrawal cases: valid; zero amount; zero recipient.
pub fn withdraw_test_vectors() -> (r: Vec<WithdrawTestVector>)
    ensures
        r@.len() == 3,
        r@[0].amount == 50 && r@[0].recipient@ == hex32_value("0xcccc"@),
        r@[1].amount == 0 && r@[1].recipient@ == hex32_value("0xcccc"@),
        r@[2].amount == 50 && r@[2].recipient@ == zero_hash(),
{
    proof {
        reveal_strlit("0xcccc");
        reveal_with_fuel(strip_0x, 3);
    }
    vec![
        WithdrawTestVector { amount: 50, recipient: hex_to_bytes32("0xcccc") },
        WithdrawTestVector { amount: 0, recipient: hex_to_bytes32("0xcccc") },
        WithdrawTestVector { amount: 50, recipient: [0u8; 32] },
    ]
}

/// Nullifier cases: valid; zero note value; zero secret.
pub fn nullifier_test_vectors() -> (r: Vec<NullifierTestVector>)
    ensures
        r@.len() == 3,
        r@[0].nullifier@ == hex32_value("0xdddd"@) && r@[0].secret@ == hex32_value("0xeeee"@),
        r@[1].nullifier@ == zero_hash() && r@[1].secret@ == hex32_value("0xeeee"@),
        r@[2].nullifier@ == hex32_value("0xdddd"@) && r@[2].secret@ == zero_hash(),
{
    proof {
        reveal_strlit("0xdddd");
        reveal_strlit("0xeeee");
        reveal_with_fuel(strip_0x, 3);
    }
    vec![
        NullifierTestVector { nullifier: hex_to_bytes32("0xdddd"), secret: hex_to_bytes32("0xeeee") },
        NullifierTestVector { nullifier: [0u8; 32], secret: hex_to_bytes32("0xeeee") },
        NullifierTestVector { nullifier: hex_to_bytes32("0xdddd"), secret: [0u8; 32] },
    ]
}

/// Condition cases: type 0 and type 1 valid; type 2; zero value.
pub fn zkcondition_test_vectors() -> (r: Vec<ZkConditionTestVector>)
    ensures
        r@.len() == 4,
        r@[0].condition_type == 0 && r@[0].value == 12345,
        r@[1].condition_type == 1 && r@[1].value == 1,
        r@[2].condition_type == 2 && r@[2].value == 100,
        r@[3].condition_type == 0 && r@[3].value == 0,
{
    vec![
        ZkConditionTestVector { condition_type: 0, value: 12345 },
        ZkConditionTestVector { condition_type: 1, value: 1 },
        ZkConditionTestVector { condition_type: 2, value: 100 },
        ZkConditionTestVector { condition_type: 0, value: 0 },
    ]
}

/// Stream cases: valid; zero amount; zero id.
pub fn zkstream_test_vectors() -> (r: Vec<ZkStreamTestVector>)
    ensures
        r@.len() == 3,
        r@[0].stream_id@ == hex32_value("0x3333"@) && r@[0].total_amount == 1000,
        r@[1].stream_id@ == hex32_value("0x3333"@) && r@[1].total_amount == 0,
        r@[2].stream_id@ == zero_hash() && r@[2].total_amount == 1000,
{
    proof {
        reveal_strlit("0x3333");
        reveal_with_fuel(strip_0x, 3);
    }
    vec![
        ZkStreamTestVector { stream_id: hex_to_bytes32("0x3333"), total_amount: 1000 },
        ZkStreamTestVector { stream_id: hex_to_bytes32("0x3333"), total_amount: 0 },
        ZkStreamTestVector { stream_id: [0u8; 32], total_amount: 1000 },
    ]
}

} // verus!
