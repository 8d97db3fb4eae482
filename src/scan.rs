use vstd::prelude::*;

verus! {

/// `needle` occurs in `hay` as a run of consecutive characters.
pub open spec fn contains_seq(hay: Seq<char>, needle: Seq<char>) -> bool {
    exists|k: int|
        0 <= k && k + needle.len() <= hay.len() && #[trigger] hay.subrange(k, k + needle.len())
            == needle
}

/// Whether a note's metadata passes the optional substring filter.
pub fn metadata_matches(metadata: &str, filter: Option<&str>) -> (r: bool)
    ensures
        r == match filter {
            None => true,
            Some(f) => contains_seq(metadata@, f@),
        },
{
    let f = match filter {
        None => {
            return true;
        },
        Some(f) => f,
    };
    let n = metadata.unicode_len();
    let m = f.unicode_len();
    if m > n {
        assert forall|k: int|
            0 <= k && k + f@.len() <= metadata@.len() implies #[trigger] metadata@.subrange(
            k,
            k + f@.len(),
        ) != f@ by {}
        return false;
    }
    let mut k: usize = 0;
    while m <= n - k
        invariant
            filter == Some(f),
            n == metadata@.len(),
            m == f@.len(),
            m <= n,
            0 <= k <= n,
            forall|p: int|
                0 <= p < k ==> #[trigger] metadata@.subrange(p, p + m as int) != f@,
        decreases n - k,
    {
        let mut j: usize = 0;
        let mut same = true;
        while j < m
            invariant
                n == metadata@.len(),
                m == f@.len(),
                k + m <= n,
                0 <= j <= m,
                same ==> forall|q: int| 0 <= q < j ==> metadata@[k + q] == f@[q],
                !same ==> metadata@.subrange(k as int, k + m as int) != f@,
            decreases m - j,
        {
            if same && metadata.get_char(k + j) != f.get_char(j) {
                assert(metadata@.subrange(k as int, k + m as int)[j as int] != f@[j as int]);
                same = false;
            }
            j = j + 1;
        }
        if same {
            assert(metadata@.subrange(k as int, k + m as int) =~= f@);
            assert(contains_seq(metadata@, f@));
            return true;
        }
        if m == 0 {
            assert(metadata@.subrange(k as int, k as int) =~= f@);
        }
        k = k + 1;
    }
    false
}

/// A note is expired when it has an expiry time earlier than `now`.
pub fn note_expired(expires_at: Option<i64>, now: i64) -> (r: bool)
    ensures
        r == match expires_at {
            Some(ts) => ts < now,
            None => false,
        },
{
    match expires_at {
        Some(ts) => ts < now,
        None => false,
    }
}

} // verus!
