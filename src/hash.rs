use vstd::prelude::*;
use ark_bn254::Fr;
use light_poseidon::{Poseidon, PoseidonBytesHasher, PoseidonError};

verus! {

/// A field element encoded as 32 big-endian bytes.
pub type Hash32 = [u8; 32];

/// The one way decoding can fail: bytes that do not encode a canonical
/// field element.
#[derive(Debug, Clone, Copy, PartialEq, Eq, Structural)]
pub enum HashError {
    MalformedFieldElement,
}

#[verifier::external_type_specification]
#[verifier::external_body]
pub struct ExPoseidonError(PoseidonError);

/// The BN254 scalar field modulus, 32 bytes big-endian.
pub open spec fn field_modulus_be() -> Seq<u8> {
    seq![
        0x30u8, 0x64, 0x4e, 0x72, 0xe1, 0x31, 0xa0, 0x29,
        0xb8, 0x50, 0x45, 0xb6, 0x81, 0x81, 0x58, 0x5d,
        0x28, 0x33, 0xe8, 0x48, 0x79, 0xb9, 0x70, 0x91,
        0x43, 0xe1, 0xf5, 0x93, 0xf0, 0x00, 0x00, 0x01,
    ]
}

/// Lexicographic `<` on byte strings of equal length, which is the numeric
/// order of the big-endian integers they encode.
pub open spec fn be_less(a: Seq<u8>, b: Seq<u8>) -> bool
    decreases a.len(),
{
    if a.len() == 0 || b.len() == 0 {
        false
    } else if a[0] != b[0] {
        a[0] < b[0]
    } else {
        be_less(a.drop_first(), b.drop_first())
    }
}

/// 32 bytes whose big-endian value is strictly below the field modulus.
pub open spec fn is_canonical(h: Seq<u8>) -> bool {
    h.len() == 32 && be_less(h, field_modulus_be())
}

/// What the circom-compatible Poseidon hash of two canonical field
/// elements is, as 32 big-endian bytes.
pub uninterp spec fn poseidon2_of(a: Seq<u8>, b: Seq<u8>) -> Seq<u8>;

/// The compression function: defined exactly on pairs of canonical inputs.
pub open spec fn compress_spec(a: Seq<u8>, b: Seq<u8>) -> Option<Seq<u8>> {
    if is_canonical(a) && is_canonical(b) {
        Some(poseidon2_of(a, b))
    } else {
        None
    }
}

/// A hashing result seen as an optional byte string.
pub open spec fn hash_result(r: Result<Hash32, HashError>) -> Option<Seq<u8>> {
    match r {
        Ok(h) => Some(h@),
        Err(_) => None,
    }
}

/// A decision that decoding may abort, as an optional boolean.
pub open spec fn bool_outcome(r: Result<bool, HashError>) -> Option<bool> {
    match r {
        Ok(b) => Some(b),
        Err(_) => None,
    }
}

/// Relies on light_poseidon's `Poseidon::<Fr>::new_circom(2)` and
/// `hash_bytes_be`: two 32-byte big-endian inputs are accepted exactly when
/// each is below the BN254 modulus (`InputLargerThanModulus` otherwise), and
/// the digest depends on the two inputs alone. The digest is the big-endian
/// encoding of a reduced field element (`into_bigint().to_bytes_be()`), so it
/// is itself canonical.
#[verifier::external_body]
fn poseidon_bytes_be(a: &Hash32, b: &Hash32) -> (r: Result<Hash32, PoseidonError>)
    ensures
        r is Ok <==> (is_canonical(a@) && is_canonical(b@)),
        r matches Ok(h) ==> h@ == poseidon2_of(a@, b@),
        r matches Ok(h) ==> is_canonical(h@),
{
    match Poseidon::<Fr>::new_circom(2) {
        Ok(mut hasher) => hasher.hash_bytes_be(&[&a[..], &b[..]]),
        Err(e) => Err(e),
    }
}

/// Two-input compression: `Poseidon(a, b)`, or `MalformedFieldElement`
/// when either input is not a canonical field element. A digest is always
/// canonical, so it can be compressed again.
pub fn poseidon_hash2(a: Hash32, b: Hash32) -> (r: Result<Hash32, HashError>)
    ensures
        hash_result(r) == compress_spec(a@, b@),
        r matches Ok(h) ==> is_canonical(h@),
{
    match poseidon_bytes_be(&a, &b) {
        Ok(h) => Ok(h),
        Err(_) => Err(HashError::MalformedFieldElement),
    }
}

/// The eight big-endian bytes of a `u64`.
pub open spec fn u64_be(v: u64) -> Seq<u8> {
    Seq::new(8, |i: int| (v >> (8 * (7 - i)) as u64) as u8)
}

/// An eight-byte amount zero-extended to a 32-byte word, the amount in the
/// low eight bytes.
pub open spec fn pad_amount(b: Seq<u8>) -> Seq<u8> {
    Seq::new(24, |i: int| 0u8) + b
}

/// The 32-byte word that encodes an amount in every commitment.
pub open spec fn amount_word(amount: u64) -> Seq<u8> {
    pad_amount(u64_be(amount))
}

/// The big-endian bytes of `v`.
pub fn amount_to_be_bytes(v: u64) -> (r: [u8; 8])
    ensures
        r@ == u64_be(v),
{
    let r: [u8; 8] = [
        (v >> 56u64) as u8,
        (v >> 48u64) as u8,
        (v >> 40u64) as u8,
        (v >> 32u64) as u8,
        (v >> 24u64) as u8,
        (v >> 16u64) as u8,
        (v >> 8u64) as u8,
        (v >> 0u64) as u8,
    ];
    assert(r@ =~= u64_be(v));
    r
}

/// Zero-extends eight big-endian bytes to a 32-byte word.
pub fn pad_amount_bytes(b: [u8; 8]) -> (r: Hash32)
    ensures
        r@ == pad_amount(b@),
{
    let mut r: Hash32 = [0u8; 32];
    let mut i: usize = 0;
    while i < 8
        invariant
            0 <= i <= 8,
            forall|j: int| 0 <= j < 24 ==> r@[j] == 0u8,
            forall|j: int| 0 <= j < i ==> r@[24 + j] == b@[j],
        decreases 8 - i,
    {
        r[24 + i] = b[i];
        i = i + 1;
    }
    assert(r@ =~= pad_amount(b@));
    r
}

/// A padded amount word is always canonical: its top byte is zero.
pub proof fn lemma_padded_amount_canonical(b: Seq<u8>)
    requires
        b.len() == 8,
    ensures
        is_canonical(pad_amount(b)),
{
    let p = pad_amount(b);
    assert(p[0] == 0u8);
    assert(field_modulus_be()[0] == 0x30u8);
}

/// Compresses a hash with an amount: `Poseidon(a, pad(b))`, where `b` holds
/// the amount's eight big-endian bytes.
pub fn poseidon_hash2_amount(a: Hash32, b: [u8; 8]) -> (r: Result<Hash32, HashError>)
    ensures
        hash_result(r) == compress_spec(a@, pad_amount(b@)),
        is_canonical(a@) ==> r is Ok,
        r matches Ok(h) ==> is_canonical(h@),
{
    let padded = pad_amount_bytes(b);
    proof {
        lemma_padded_amount_canonical(b@);
    }
    poseidon_hash2(a, padded)
}

/// Byte-wise equality of two hashes.
pub fn hash_eq(a: &Hash32, b: &Hash32) -> (r: bool)
    ensures
        r == (a@ == b@),
{
    let mut i: usize = 0;
    while i < 32
        invariant
            0 <= i <= 32,
            forall|j: int| 0 <= j < i ==> a@[j] == b@[j],
        decreases 32 - i,
    {
        if a[i] != b[i] {
            assert(a@[i as int] != b@[i as int]);
            return false;
        }
        i = i + 1;
    }
    assert(a@ =~= b@);
    true
}

/// The all-zero hash.
pub open spec fn zero_hash() -> Seq<u8> {
    Seq::new(32, |i: int| 0u8)
}

/// Whether every byte of `h` is zero.
pub fn is_zero_hash(h: &Hash32) -> (r: bool)
    ensures
        r == (h@ == zero_hash()),
{
    let mut i: usize = 0;
    while i < 32
        invariant
            0 <= i <= 32,
            forall|j: int| 0 <= j < i ==> h@[j] == 0u8,
        decreases 32 - i,
    {
        if h[i] != 0 {
            assert(h@[i as int] != zero_hash()[i as int]);
            return false;
        }
        i = i + 1;
    }
    assert(h@ =~= zero_hash());
    true
}

} // verus!
