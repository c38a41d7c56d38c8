//! Counters of the fetches.
use vstd::prelude::*;

verus! {

/// Counter: every fetch, whether it succeeded or failed.
pub const FETCHES_TOTAL: &'static str = "chaser_fetches_total";

/// Counter: the fetches that ended in an error.
pub const FETCHES_FAILED: &'static str = "chaser_fetches_failed";

/// The counters that go up by one for a fetch.
pub open spec fn bumped(success: bool) -> Seq<Seq<char>> {
    if success {
        seq![FETCHES_TOTAL@]
    } else {
        seq![FETCHES_TOTAL@, FETCHES_FAILED@]
    }
}

/// Names the counters that go up by one for a fetch.
pub fn record_fetch(success: bool) -> (r: Vec<&'static str>)
    ensures
        r@.map_values(|name: &'static str| name@) == bumped(success),
        r@.len() == (if success {
            1nat
        } else {
            2nat
        }),
        r@[0]@ == "chaser_fetches_total"@,
        !success ==> r@[1]@ == "chaser_fetches_failed"@,
{
    let mut r: Vec<&'static str> = Vec::new();
    r.push(FETCHES_TOTAL);
    if !success {
        r.push(FETCHES_FAILED);
    }
    assert(r@.map_values(|name: &'static str| name@) =~= bumped(success));
    r
}

/// How far a counter has gone up after a run of fetches.
pub open spec fn counted(outcomes: Seq<bool>, counter: Seq<char>) -> nat
    decreases outcomes.len(),
{
    if outcomes.len() == 0 {
        0
    } else {
        counted(outcomes.drop_last(), counter) + bumped(outcomes.last()).filter(
            |name: Seq<char>| name == counter,
        ).len()
    }
}

proof fn lemma_bumps(success: bool)
    ensures
        bumped(success).filter(|name: Seq<char>| name == FETCHES_TOTAL@).len() == 1,
        bumped(success).filter(|name: Seq<char>| name == FETCHES_FAILED@).len() == (if success {
            0nat
        } else {
            1nat
        }),
{
    reveal_with_fuel(Seq::filter, 3);
    reveal_strlit("chaser_fetches_total");
    reveal_strlit("chaser_fetches_failed");
    assert(FETCHES_TOTAL@.len() != FETCHES_FAILED@.len());
    assert(seq![FETCHES_TOTAL@].drop_last() =~= Seq::<Seq<char>>::empty());
    assert(seq![FETCHES_TOTAL@, FETCHES_FAILED@].drop_last() =~= seq![FETCHES_TOTAL@]);
}

/// The total counts every fetch.
pub proof fn law_total_counts_all(outcomes: Seq<bool>)
    ensures
        counted(outcomes, FETCHES_TOTAL@) == outcomes.len(),
    decreases outcomes.len(),
{
    if outcomes.len() > 0 {
        law_total_counts_all(outcomes.drop_last());
        lemma_bumps(outcomes.last());
    }
}

/// The other counter counts exactly the fetches that failed, so it never exceeds the total.
pub proof fn law_failed_counts_failures(outcomes: Seq<bool>)
    ensures
        counted(outcomes, FETCHES_FAILED@) == outcomes.filter(|ok: bool| !ok).len(),
        counted(outcomes, FETCHES_FAILED@) <= counted(outcomes, FETCHES_TOTAL@),
    decreases outcomes.len(),
{
    reveal(Seq::filter);
    law_total_counts_all(outcomes);
    if outcomes.len() > 0 {
        law_failed_counts_failures(outcomes.drop_last());
        law_total_counts_all(outcomes.drop_last());
        lemma_bumps(outcomes.last());
    }
}

/// Every fetch adds to the total; a failed one adds to the failures too, and nothing else does.
pub proof fn law_fetches_are_counted_by_name()
    ensures
        bumped(true) == seq!["chaser_fetches_total"@],
        bumped(false) == seq!["chaser_fetches_total"@, "chaser_fetches_failed"@],
{
}

} // verus!
