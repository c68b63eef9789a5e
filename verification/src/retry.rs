//! Retry schedules. Two loops in the worker retry an outside action: the
//! connection-acquire loop (bounded, or retry-forever) and the HTTP fetch
//! loop inside a scrape (bounded by the configured retry count). Their
//! decisions are modelled over a transcript of attempt outcomes:
//! `outcomes[i]` says whether attempt `i` would succeed. The driving loop
//! performs one outside attempt per step and follows exactly these
//! decisions.

use vstd::prelude::*;

verus! {

/// The first successful attempt index at or after `i`, looking no
/// further than `retry` attempts.
pub open spec fn spec_first_ok_from(outcomes: Seq<bool>, retry: int, i: int) -> Option<int>
    decreases retry - i,
{
    if i < 0 || i >= retry || i >= outcomes.len() {
        None
    } else if outcomes[i] {
        Some(i)
    } else {
        spec_first_ok_from(outcomes, retry, i + 1)
    }
}

/// A bounded retry loop: how many attempts are made and whether one
/// succeeds. With no successful attempt among the first `retry`, the
/// whole budget is spent; a non-positive budget makes no attempt at all.
pub fn bounded_retry_plan(outcomes: &Vec<bool>, retry: usize) -> (r: (usize, bool))
    requires
        retry <= outcomes@.len(),
    ensures
        match spec_first_ok_from(outcomes@, retry as int, 0) {
            Some(k) => r.1 == true && r.0 == k + 1,
            None => r.1 == false && r.0 == retry,
        },
{
    let mut i: usize = 0;
    while i < retry
        invariant
            retry <= outcomes@.len(),
            i <= retry,
            spec_first_ok_from(outcomes@, retry as int, 0) == spec_first_ok_from(
                outcomes@,
                retry as int,
                i as int,
            ),
        decreases retry - i,
    {
        if outcomes[i] {
            return (i + 1, true);
        }
        i = i + 1;
    }
    (retry, false)
}

/// When every attempt fails, the bounded loop finds no success.
proof fn lemma_all_fail_no_success(outcomes: Seq<bool>, retry: int, i: int)
    requires
        forall|k: int| 0 <= k < outcomes.len() ==> !outcomes[k],
    ensures
        spec_first_ok_from(outcomes, retry, i) is None,
    decreases retry - i,
{
    if !(i < 0 || i >= retry || i >= outcomes.len()) {
        lemma_all_fail_no_success(outcomes, retry, i + 1);
    }
}

/// An origin that always fails makes the scrape loop spend exactly its
/// `retry` budget and come away with nothing: the over-retry outcome.
pub proof fn lemma_over_retry_spends_budget(outcomes: Seq<bool>, retry: int)
    requires
        forall|k: int| 0 <= k < outcomes.len() ==> !outcomes[k],
    ensures
        spec_first_ok_from(outcomes, retry, 0) is None,
{
    lemma_all_fail_no_success(outcomes, retry, 0);
}

/// The retry-forever acquire loop: it keeps attempting until an attempt
/// succeeds, and hands back that first success. It needs one success to
/// exist somewhere; a store that never comes back keeps the loop waiting,
/// which is that loop's contract.
pub fn retry_forever_plan(outcomes: &Vec<bool>) -> (r: usize)
    requires
        exists|i: int| 0 <= i < outcomes@.len() && outcomes@[i],
    ensures
        r < outcomes@.len(),
        outcomes@[r as int],
        forall|k: int| 0 <= k < r ==> !outcomes@[k],
{
    let ghost witness = choose|i: int| 0 <= i < outcomes@.len() && outcomes@[i];
    let n = outcomes.len();
    let mut i: usize = 0;
    loop
        invariant
            n == outcomes@.len(),
            0 <= witness < outcomes@.len(),
            outcomes@[witness],
            i <= n,
            forall|k: int| 0 <= k < i ==> !outcomes@[k],
        decreases n - i,
    {
        proof {
            if i >= n {
                assert(!outcomes@[witness]);
            }
        }
        if outcomes[i] {
            return i;
        }
        i = i + 1;
    }
}

} // verus!
