use vstd::prelude::*;
use crate::hash::{
    amount_to_be_bytes, amount_word, compress_spec, hash_result, is_canonical,
    lemma_padded_amount_canonical, pad_amount_bytes, poseidon_hash2, Hash32, HashError,
};

verus! {

/// Note commitment binding an amount to a partner value (a secret or a
/// recipient key): `Poseidon(amount_word, partner)`.
pub open spec fn commit_spec(amount: u64, partner: Seq<u8>) -> Option<Seq<u8>> {
    compress_spec(amount_word(amount), partner)
}

/// Nullifier of a note: `Poseidon(prior, secret)`.
pub open spec fn nullifier_spec(prior: Seq<u8>, secret: Seq<u8>) -> Option<Seq<u8>> {
    compress_spec(prior, secret)
}

/// The 32-byte word holding `amount` in its low eight bytes, big-endian.
pub fn amount_to_word(amount: u64) -> (r: Hash32)
    ensures
        r@ == amount_word(amount),
        is_canonical(r@),
{
    let b = amount_to_be_bytes(amount);
    proof {
        lemma_padded_amount_canonical(b@);
    }
    pad_amount_bytes(b)
}

/// Commits `amount` to `partner`, the amount word being the left operand.
pub fn commit(amount: u64, partner: Hash32) -> (r: Result<Hash32, HashError>)
    ensures
        hash_result(r) == commit_spec(amount, partner@),
        is_canonical(partner@) ==> r is Ok,
        r matches Ok(h) ==> is_canonical(h@),
{
    poseidon_hash2(amount_to_word(amount), partner)
}

/// Derives the nullifier that marks a note as spent.
pub fn derive_nullifier(prior: Hash32, secret: Hash32) -> (r: Result<Hash32, HashError>)
    ensures
        hash_result(r) == nullifier_spec(prior@, secret@),
        is_canonical(prior@) && is_canonical(secret@) ==> r is Ok,
        r matches Ok(h) ==> is_canonical(h@),
{
    poseidon_hash2(prior, secret)
}

} // verus!
