//! The descriptor-matching filter: Lowe's ratio test over nearest-neighbour
//! rows, and the defensive bound check on the surviving correspondences.

use vstd::prelude::*;

verus! {

/// One correspondence between a candidate descriptor (`query_idx`) and a
/// reference descriptor (`train_idx`), with their Hamming distance.
/// Hamming distances of binary descriptors are whole numbers, so the score
/// is carried exactly as an integer.
#[derive(Clone, Copy, Debug, PartialEq, Eq, Structural)]
pub struct FeatureMatch {
    pub query_idx: usize,
    pub train_idx: usize,
    pub distance: u32,
}

/// Whether a nearest-neighbour row passes the ratio test: at least two
/// neighbours were found, and the best distance lies below 0.8 of the
/// second-best. Over whole-number distances the 0.8 threshold is exactly
/// `5 * best < 4 * second`.
pub open spec fn row_passes(row: Seq<FeatureMatch>) -> bool {
    row.len() >= 2 && 5 * row[0].distance < 4 * row[1].distance
}

/// The correspondences surviving the ratio test, in row order: the nearest
/// neighbour of every row that passes. A row with fewer than two neighbours
/// contributes nothing.
pub open spec fn good_matches_of(rows: Seq<Seq<FeatureMatch>>) -> Seq<FeatureMatch>
    decreases rows.len(),
{
    if rows.len() == 0 {
        Seq::empty()
    } else {
        good_matches_of(rows.drop_last()) + (if row_passes(rows.last()) {
            seq![rows.last()[0]]
        } else {
            Seq::<FeatureMatch>::empty()
        })
    }
}

/// The mathematical contents of a vector of nearest-neighbour rows.
pub open spec fn rows_view(rows: Seq<Vec<FeatureMatch>>) -> Seq<Seq<FeatureMatch>> {
    rows.map_values(|r: Vec<FeatureMatch>| r@)
}

/// Applies the ratio-test filter that both matching strategies share, so
/// their results are comparable whichever backend produced the rows.
pub fn ratio_test(rows: &Vec<Vec<FeatureMatch>>) -> (good: Vec<FeatureMatch>)
    ensures
        good@ == good_matches_of(rows_view(rows@)),
{
    let mut good: Vec<FeatureMatch> = Vec::new();
    let n = rows.len();
    let mut i: usize = 0;
    while i < n
        invariant
            i <= n,
            n == rows@.len(),
            good@ == good_matches_of(rows_view(rows@.take(i as int))),
        decreases n - i,
    {
        let row = &rows[i];
        if row.len() >= 2 {
            let best = row[0];
            let second = row[1];
            if 5u64 * (best.distance as u64) < 4u64 * (second.distance as u64) {
                good.push(best);
            }
        }
        proof {
            let prev = rows_view(rows@.take(i as int));
            let cur = rows_view(rows@.take(i + 1));
            assert(cur.drop_last() =~= prev);
            assert(cur.last() == rows@[i as int]@);
            assert(good@ =~= good_matches_of(cur));
        }
        i = i + 1;
    }
    proof {
        assert(rows@.take(n as int) =~= rows@);
    }
    good
}

/// The index pairs of the matches whose indices are in bounds for the
/// candidate (`n_query`) and reference (`n_ref`) keypoint sequences, in
/// order of appearance.
pub open spec fn valid_pairs_of(ms: Seq<FeatureMatch>, n_query: nat, n_ref: nat) -> Seq<
    (usize, usize),
>
    decreases ms.len(),
{
    if ms.len() == 0 {
        Seq::empty()
    } else {
        valid_pairs_of(ms.drop_last(), n_query, n_ref) + (if ms.last().query_idx < n_query
            && ms.last().train_idx < n_ref {
            seq![(ms.last().query_idx, ms.last().train_idx)]
        } else {
            Seq::<(usize, usize)>::empty()
        })
    }
}

/// Every pair the filter keeps indexes both keypoint sequences safely.
pub proof fn lemma_valid_pairs_in_bounds(ms: Seq<FeatureMatch>, n_query: nat, n_ref: nat)
    ensures
        forall|k: int|
            0 <= k < valid_pairs_of(ms, n_query, n_ref).len() ==> valid_pairs_of(
                ms,
                n_query,
                n_ref,
            )[k].0 < n_query && valid_pairs_of(ms, n_query, n_ref)[k].1 < n_ref,
    decreases ms.len(),
{
    if ms.len() > 0 {
        lemma_valid_pairs_in_bounds(ms.drop_last(), n_query, n_ref);
        let prev = valid_pairs_of(ms.drop_last(), n_query, n_ref);
        let cur = valid_pairs_of(ms, n_query, n_ref);
        assert forall|k: int| 0 <= k < cur.len() implies cur[k].0 < n_query && cur[k].1
            < n_ref by {
            if k < prev.len() {
                assert(cur[k] == prev[k]);
            }
        }
    }
}

/// Discards correspondences whose indices fall outside the current keypoint
/// sequences before they are dereferenced.
pub fn filter_valid_pairs(ms: &Vec<FeatureMatch>, n_query: usize, n_ref: usize) -> (pairs: Vec<
    (usize, usize),
>)
    ensures
        pairs@ == valid_pairs_of(ms@, n_query as nat, n_ref as nat),
        forall|k: int|
            0 <= k < pairs@.len() ==> pairs@[k].0 < n_query && pairs@[k].1 < n_ref,
{
    let mut pairs: Vec<(usize, usize)> = Vec::new();
    let n = ms.len();
    let mut i: usize = 0;
    while i < n
        invariant
            i <= n,
            n == ms@.len(),
            pairs@ == valid_pairs_of(ms@.take(i as int), n_query as nat, n_ref as nat),
        decreases n - i,
    {
        let m = ms[i];
        if m.query_idx < n_query && m.train_idx < n_ref {
            pairs.push((m.query_idx, m.train_idx));
        }
        proof {
            let t = ms@.take(i + 1);
            assert(t.drop_last() =~= ms@.take(i as int));
            assert(pairs@ =~= valid_pairs_of(t, n_query as nat, n_ref as nat));
        }
        i = i + 1;
    }
    proof {
        assert(ms@.take(n as int) =~= ms@);
        lemma_valid_pairs_in_bounds(ms@, n_query as nat, n_ref as nat);
    }
    pairs
}

} // verus!
