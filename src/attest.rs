use vstd::prelude::*;

verus! {

/// A proof token attesting to an input.
#[derive(Debug)]
pub struct Proof {
    pub text: String,
}

/// Why a proof could not be made or checked.
#[derive(Debug, Clone, Copy, PartialEq, Eq, Structural)]
pub enum ProofError {
    InvalidInput,
}

/// The token that attests to `input`: `zkproof_for_` followed by the input.
pub open spec fn proof_text(input: Seq<char>) -> Seq<char> {
    "zkproof_for_"@ + input
}

/// Makes the token for a nonempty input.
pub fn generate_proof(input: &str) -> (r: Result<Proof, ProofError>)
    ensures
        input@.len() == 0 ==> r == Err::<Proof, ProofError>(ProofError::InvalidInput),
        input@.len() > 0 ==> (r matches Ok(p) && p.text@ == proof_text(input@)),
{
    if input.is_empty() {
        return Err(ProofError::InvalidInput);
    }
    let mut text = String::from_str("zkproof_for_");
    text.append(input);
    Ok(Proof { text })
}

/// Checks that `proof` is the token for `input`.
pub fn verify_proof(proof: &Proof, input: &str) -> (r: Result<bool, ProofError>)
    ensures
        r == Ok::<bool, ProofError>(proof.text@ == proof_text(input@)),
{
    let mut expected = String::from_str("zkproof_for_");
    expected.append(input);
    Ok(proof.text == expected)
}

/// A token made for a nonempty input verifies for that input and for no
/// other.
pub proof fn lemma_proof_round_trip(s: Seq<char>, t: Seq<char>)
    requires
        s.len() > 0,
    ensures
        (proof_text(s) == proof_text(t)) == (s == t),
{
    if proof_text(s) == proof_text(t) {
        let p = "zkproof_for_"@;
        assert(s =~= proof_text(s).subrange(p.len() as int, proof_text(s).len() as int));
        assert(t =~= proof_text(t).subrange(p.len() as int, proof_text(t).len() as int));
    }
}

} // verus!
