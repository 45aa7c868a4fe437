//! Winner selection for the latency race.
//!
//! The embedding application probes every candidate host concurrently under
//! one time budget and records, per candidate, either the measured round-trip
//! time or a failure. Selecting the winner from those results is a pure
//! decision and is verified here: the strictly fastest successful probe wins,
//! and ties at the minimum go to the lowest index (first registered).
use vstd::prelude::*;

verus! {

/// Holds when `results[i]` is a successful probe whose duration is minimal
/// among all successes, and no earlier success matches that duration.
pub open spec fn is_race_winner(results: Seq<Option<u64>>, i: int) -> bool {
    &&& 0 <= i < results.len()
    &&& results[i] is Some
    &&& forall|j: int|
        0 <= j < results.len() && results[j] is Some ==> results[i]->0 <= results[j]->0
    &&& forall|j: int| 0 <= j < i ==> !(results[j] is Some && results[j]->0 == results[i]->0)
}

/// Picks the winner of a latency race from per-candidate outcomes:
/// `Some(duration)` for a successful probe, `None` for one that failed or
/// timed out. Returns the index of the minimum duration, lowest index first
/// on ties, or `None` when no probe succeeded.
pub fn select_fastest(results: &Vec<Option<u64>>) -> (winner: Option<usize>)
    ensures
        match winner {
            Some(i) => is_race_winner(results@, i as int),
            None => forall|j: int| 0 <= j < results@.len() ==> results@[j] is None,
        },
        (exists|j: int| 0 <= j < results@.len() && results@[j] is Some) ==> winner is Some,
{
    let mut best: Option<usize> = None;
    let mut best_val: u64 = 0;
    let mut k: usize = 0;
    while k < results.len()
        invariant
            0 <= k <= results@.len(),
            match best {
                Some(i) => {
                    &&& i < k
                    &&& results@[i as int] is Some
                    &&& best_val == results@[i as int]->0
                    &&& forall|j: int|
                        0 <= j < k && results@[j] is Some ==> best_val <= results@[j]->0
                    &&& forall|j: int|
                        0 <= j < i ==> !(results@[j] is Some && results@[j]->0 == best_val)
                },
                None => forall|j: int| 0 <= j < k ==> results@[j] is None,
            },
        decreases results@.len() - k,
    {
        match results[k] {
            Some(d) => {
                match best {
                    Some(_) => {
                        if d < best_val {
                            best = Some(k);
                            best_val = d;
                        }
                    },
                    None => {
                        best = Some(k);
                        best_val = d;
                    },
                }
            },
            None => {},
        }
        k = k + 1;
    }
    best
}

/// The winner of a race is unique: two indices that both satisfy
/// `is_race_winner` are equal, so `select_fastest` pins its answer exactly.
pub proof fn lemma_race_winner_unique(results: Seq<Option<u64>>, i: int, j: int)
    requires
        is_race_winner(results, i),
        is_race_winner(results, j),
    ensures
        i == j,
{
    if i < j {
        assert(!(results[i] is Some && results[i]->0 == results[j]->0));
    } else if j < i {
        assert(!(results[j] is Some && results[j]->0 == results[i]->0));
    }
}

} // verus!
