use vstd::prelude::*;
use crate::hash::{bool_outcome, compress_spec, is_canonical, hash_eq, hash_result, poseidon_hash2, Hash32, HashError};

verus! {

/// Number of levels of every Merkle path.
pub const DEPTH: usize = 32;

/// One level of the path: the running value is the left operand when the
/// side bit is 0, the right operand otherwise.
pub open spec fn merkle_step(current: Seq<u8>, sibling: Seq<u8>, side: u8) -> Option<Seq<u8>> {
    if side == 0 {
        compress_spec(current, sibling)
    } else {
        compress_spec(sibling, current)
    }
}

/// The value reached after folding the first `n` levels of the path into
/// `leaf`, or `None` when some compression meets a malformed element.
pub open spec fn merkle_fold(
    leaf: Seq<u8>,
    siblings: Seq<Hash32>,
    sides: Seq<u8>,
    n: nat,
) -> Option<Seq<u8>>
    decreases n,
{
    if n == 0 {
        Some(leaf)
    } else {
        match merkle_fold(leaf, siblings, sides, (n - 1) as nat) {
            Some(current) => merkle_step(current, siblings[n - 1]@, sides[n - 1]),
            None => None,
        }
    }
}

/// The root that a full path of `DEPTH` levels leads to.
pub open spec fn merkle_root_of(leaf: Seq<u8>, siblings: Seq<Hash32>, sides: Seq<u8>) -> Option<
    Seq<u8>,
> {
    merkle_fold(leaf, siblings, sides, DEPTH as nat)
}

/// Outcome of the membership check: whether the path leads to `root`, or
/// `None` when decoding fails on the way.
pub open spec fn merkle_verify_spec(
    leaf: Seq<u8>,
    root: Seq<u8>,
    siblings: Seq<Hash32>,
    sides: Seq<u8>,
) -> Option<bool> {
    match merkle_root_of(leaf, siblings, sides) {
        Some(computed) => Some(computed == root),
        None => None,
    }
}

/// Every sibling of the path is a canonical field element.
pub open spec fn path_canonical(siblings: Seq<Hash32>) -> bool {
    forall|k: int| 0 <= k < siblings.len() ==> is_canonical(#[trigger] siblings[k]@)
}

/// A failed level stays failed through every later level.
pub proof fn lemma_fold_failure_persists(
    leaf: Seq<u8>,
    siblings: Seq<Hash32>,
    sides: Seq<u8>,
    n: nat,
    m: nat,
)
    requires
        n <= m,
        merkle_fold(leaf, siblings, sides, n) is None,
    ensures
        merkle_fold(leaf, siblings, sides, m) is None,
    decreases m - n,
{
    if n < m {
        lemma_fold_failure_persists(leaf, siblings, sides, n, (m - 1) as nat);
    }
}

/// Folds the whole path into `leaf` and returns the root it leads to.
pub fn compute_merkle_root(
    leaf: Hash32,
    path_elements: &[Hash32; DEPTH],
    path_indices: &[u8; DEPTH],
) -> (r: Result<Hash32, HashError>)
    ensures
        hash_result(r) == merkle_root_of(leaf@, path_elements@, path_indices@),
        is_canonical(leaf@) && path_canonical(path_elements@) ==> r is Ok,
        r matches Ok(h) ==> is_canonical(h@),
{
    let mut current = leaf;
    let mut i: usize = 0;
    while i < DEPTH
        invariant
            0 <= i <= DEPTH,
            merkle_fold(leaf@, path_elements@, path_indices@, i as nat) == Some(current@),
            i > 0 || current@ == leaf@,
            i > 0 ==> is_canonical(current@),
            is_canonical(leaf@) ==> is_canonical(current@),
        decreases DEPTH - i,
    {
        let sibling = path_elements[i];
        let step = if path_indices[i] == 0 {
            poseidon_hash2(current, sibling)
        } else {
            poseidon_hash2(sibling, current)
        };
        match step {
            Ok(h) => {
                current = h;
            },
            Err(e) => {
                assert(!(is_canonical(leaf@) && path_canonical(path_elements@))) by {
                    if is_canonical(leaf@) && path_canonical(path_elements@) {
                        assert(is_canonical(path_elements@[i as int]@));
                    }
                }
                proof {
                    lemma_fold_failure_persists(
                        leaf@,
                        path_elements@,
                        path_indices@,
                        (i + 1) as nat,
                        DEPTH as nat,
                    );
                }
                return Err(e);
            },
        }
        i = i + 1;
    }
    Ok(current)
}

/// Checks that `leaf` is a member of the tree with root `root`, along a
/// path of `DEPTH` siblings and side bits. Every level is hashed whatever
/// the earlier levels gave; decoding errors abort with `Err`.
pub fn verify_merkle_proof(
    leaf: Hash32,
    root: Hash32,
    path_elements: [Hash32; DEPTH],
    path_indices: [u8; DEPTH],
) -> (r: Result<bool, HashError>)
    ensures
        bool_outcome(r) == merkle_verify_spec(
            leaf@,
            root@,
            path_elements@,
            path_indices@,
        ),
        is_canonical(leaf@) && path_canonical(path_elements@) ==> r is Ok,
{
    match compute_merkle_root(leaf, &path_elements, &path_indices) {
        Ok(computed) => Ok(hash_eq(&computed, &root)),
        Err(e) => Err(e),
    }
}

} // verus!
