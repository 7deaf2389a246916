//! What holds of every run of a host driver.

use crate::driver::{
    spec_close, spec_connected, spec_drained, spec_opened, spec_poll_drain, spec_ready, spec_settle,
    spec_submit, spec_waiter,
    DriverState, Phase,
};
use crate::pending::no_entries;
use vstd::prelude::*;

verus! {

/// The state after work was handed in for each of `waiters` in turn.
pub open spec fn spec_submit_all(s: DriverState, waiters: Seq<u64>) -> DriverState
    decreases waiters.len(),
{
    if waiters.len() == 0 {
        s
    } else {
        spec_submit(spec_submit_all(s, waiters.drop_last()), waiters.last())
    }
}

/// The state after the entries of `ids` were taken out in turn.
pub open spec fn spec_settle_all(s: DriverState, ids: Seq<u64>) -> DriverState
    decreases ids.len(),
{
    if ids.len() == 0 {
        s
    } else {
        spec_settle(spec_settle_all(s, ids.drop_last()), ids.last())
    }
}

/// A driver takes work once it has reached its runtime, and not before:
/// work that is handed in while it connects changes nothing, and a driver
/// that did not reach its runtime never takes any.
pub proof fn lemma_work_waits_for_connection(waiter: u64, reached: Option<bool>)
    ensures
        spec_submit(spec_opened(), waiter) == spec_opened(),
        spec_connected(spec_opened(), Some(true)) == spec_ready(),
        reached != Some(true) ==> spec_connected(spec_opened(), reached).phase == Phase::Closed
            && spec_submit(spec_connected(spec_opened(), reached), waiter) == spec_connected(
            spec_opened(),
            reached,
        ),
{
}

/// Requests get the ids zero, one, two and so on in the order in which
/// they are handed in, and each id leads to the caller of its request.
pub proof fn lemma_ids_follow_submission(waiters: Seq<u64>)
    requires
        waiters.len() <= u64::MAX,
    ensures
        spec_submit_all(spec_ready(), waiters).phase == Phase::Accepting,
        spec_submit_all(spec_ready(), waiters).current_id == waiters.len(),
        forall|id: u64| #[trigger]
            spec_waiter(spec_submit_all(spec_ready(), waiters), id) == if id < waiters.len() {
                Some(waiters[id as int])
            } else {
                None
            },
    decreases waiters.len(),
{
    if waiters.len() > 0 {
        lemma_ids_follow_submission(waiters.drop_last());
        let before = spec_submit_all(spec_ready(), waiters.drop_last());
        let after = spec_submit_all(spec_ready(), waiters);
        assert forall|id: u64| #[trigger]
            spec_waiter(after, id) == if id < waiters.len() {
                Some(waiters[id as int])
            } else {
                None
            } by {
            if id < waiters.len() - 1 {
                assert(spec_waiter(before, id) == Some(waiters.drop_last()[id as int]));
            } else {
                assert(spec_waiter(before, id) == None::<u64>);
            }
        }
    }
}

/// Taking out other entries leaves the entry of `id` as it is.
pub proof fn lemma_settle_others_keeps(s: DriverState, ids: Seq<u64>, id: u64)
    requires
        !ids.contains(id),
    ensures
        spec_waiter(spec_settle_all(s, ids), id) == spec_waiter(s, id),
        spec_settle_all(s, ids).phase == s.phase,
        spec_settle_all(s, ids).current_id == s.current_id,
    decreases ids.len(),
{
    if ids.len() > 0 {
        assert forall|k: u64| ids.drop_last().contains(k) implies ids.contains(k) by {
            let i = choose|i: int| 0 <= i < ids.drop_last().len() && ids.drop_last()[i] == k;
            assert(ids[i] == k);
        }
        lemma_settle_others_keeps(s, ids.drop_last(), id);
        assert(ids[ids.len() - 1] == ids.last());
    }
}

/// Each caller gets the answer to its own request and to no other. Where
/// `waiters` were served in turn and answers to some of the requests came
/// in, in whatever order, the answer with the id of a request that is still
/// open goes to the caller of that request, and a second answer with the
/// same id goes to nobody.
pub proof fn lemma_correlation_integrity(waiters: Seq<u64>, answered: Seq<u64>, id: u64)
    requires
        waiters.len() <= u64::MAX,
        id < waiters.len(),
        !answered.contains(id),
    ensures
        spec_waiter(spec_settle_all(spec_submit_all(spec_ready(), waiters), answered), id)
            == Some(waiters[id as int]),
        spec_waiter(
            spec_settle(
                spec_settle_all(spec_submit_all(spec_ready(), waiters), answered),
                id,
            ),
            id,
        ) == None::<u64>,
{
    lemma_ids_follow_submission(waiters);
    lemma_settle_others_keeps(spec_submit_all(spec_ready(), waiters), answered, id);
}

/// Once the time of a request is up, an answer that still comes for it
/// finds nobody and changes nothing.
pub proof fn lemma_late_answer_is_dropped(s: DriverState, id: u64)
    ensures
        spec_waiter(spec_settle(s, id), id) == None::<u64>,
        spec_settle(spec_settle(s, id), id) == spec_settle(s, id),
{
    assert(s.entries.remove(id).remove(id) =~= s.entries.remove(id));
}

/// After `close` no work is taken: handing in work changes nothing.
pub proof fn lemma_closed_driver_rejects(s: DriverState, waiter: u64)
    ensures
        spec_close(s).phase != Phase::Accepting,
        spec_submit(spec_close(s), waiter) == spec_close(s),
{
}

/// While a request is in flight and the time for draining is not up, the
/// runtime is not told to shut down.
pub proof fn lemma_no_shutdown_while_in_flight(s: DriverState, id: u64)
    requires
        s.entries.contains_key(id),
    ensures
        !spec_drained(s, false),
        spec_poll_drain(s, false) == s,
{
    assert(!no_entries().contains_key(id));
}

/// Once every request that was in flight at `close` is settled, the
/// runtime is told to shut down.
pub proof fn lemma_shutdown_after_drain(s: DriverState, ids: Seq<u64>)
    requires
        s.phase == Phase::Accepting,
        forall|k: u64| s.entries.contains_key(k) ==> ids.contains(k),
    ensures
        spec_drained(spec_settle_all(spec_close(s), ids), false),
        spec_poll_drain(spec_settle_all(spec_close(s), ids), false).phase == Phase::AwaitingExit,
{
    lemma_settle_all_removes(spec_close(s), ids);
    let t = spec_settle_all(spec_close(s), ids);
    assert(t.entries =~= no_entries());
}

/// Taking out the entries of `ids` leaves those of all other ids.
pub proof fn lemma_settle_all_removes(s: DriverState, ids: Seq<u64>)
    ensures
        spec_settle_all(s, ids).phase == s.phase,
        spec_settle_all(s, ids).current_id == s.current_id,
        forall|k: u64| #[trigger]
            spec_settle_all(s, ids).entries.contains_key(k) <==> s.entries.contains_key(k)
                && !ids.contains(k),
    decreases ids.len(),
{
    if ids.len() > 0 {
        let front = ids.drop_last();
        lemma_settle_all_removes(s, front);
        assert forall|k: u64| #[trigger]
            spec_settle_all(s, ids).entries.contains_key(k) <==> s.entries.contains_key(k)
                && !ids.contains(k) by {
            if ids.contains(k) {
                let i = choose|i: int| 0 <= i < ids.len() && ids[i] == k;
                if i < ids.len() - 1 {
                    assert(front[i] == k);
                    assert(front.contains(k));
                }
            }
            if front.contains(k) {
                let i = choose|i: int| 0 <= i < front.len() && front[i] == k;
                assert(ids[i] == k);
            }
            assert(ids[ids.len() - 1] == ids.last());
        }
    }
}

} // verus!
