use crate::query::{aborts, ready, step, Delivery, QueryState};
use vstd::prelude::*;

verus! {

/// The state after observing the deliveries `ds` one poll at a time, from `s`.
pub open spec fn run<T, E>(s: QueryState<T, E>, ds: Seq<Delivery<T, E>>) -> QueryState<T, E>
    decreases ds.len(),
{
    if ds.len() == 0 {
        s
    } else {
        run(step(s, ds[0]), ds.drop_first())
    }
}

/// Observing `a` and then `b` is observing `a + b`.
pub proof fn run_concat<T, E>(s: QueryState<T, E>, a: Seq<Delivery<T, E>>, b: Seq<Delivery<T, E>>)
    ensures
        run(s, a + b) == run(run(s, a), b),
    decreases a.len(),
{
    if a.len() == 0 {
        assert(a + b =~= b);
    } else {
        assert((a + b).drop_first() =~= a.drop_first() + b);
        run_concat(step(s, a[0]), a.drop_first(), b);
    }
}

/// A bridge with no job is ready for one.
pub proof fn fresh_bridge_is_ready<T, E>()
    ensures
        ready(QueryState::<T, E>::Idle),
{
}

/// A bridge whose job was just started is not ready, and the job's outcome
/// can only show up through a later observation.
pub proof fn started_bridge_is_busy<T, E>()
    ensures
        !ready(QueryState::<T, E>::Loading),
        step(QueryState::<T, E>::Loading, Delivery::Empty) == QueryState::<T, E>::Loading,
{
}

/// Polls that find nothing sent leave a job in flight, however many there are.
pub proof fn pending_polls_keep_loading<T, E>(ds: Seq<Delivery<T, E>>)
    requires
        forall|i: int| 0 <= i < ds.len() ==> (#[trigger] ds[i]) is Empty,
    ensures
        run(QueryState::Loading, ds) == QueryState::<T, E>::Loading,
    decreases ds.len(),
{
    if ds.len() > 0 {
        assert(ds[0] is Empty);
        let rest = ds.drop_first();
        assert forall|i: int| 0 <= i < rest.len() implies (#[trigger] rest[i]) is Empty by {
            assert(rest[i] == ds[i + 1]);
        }
        pending_polls_keep_loading(rest);
    }
}

/// Once a job has finished, no later delivery, stale or not, changes the
/// recorded outcome, and no observation reports an aborted job.
pub proof fn outcome_is_never_overwritten<T, E>(s: QueryState<T, E>, ds: Seq<Delivery<T, E>>)
    requires
        s is Success || s is Error,
    ensures
        run(s, ds) == s,
        forall|d: Delivery<T, E>| !aborts(s, d),
    decreases ds.len(),
{
    if ds.len() > 0 {
        outcome_is_never_overwritten(s, ds.drop_first());
    }
}

/// A job in flight that delivers `outcome` after polls that found nothing is
/// recorded as `Success` or `Error` with that very value at that poll, and stays so.
pub proof fn outcome_is_recorded_once<T, E>(
    ds: Seq<Delivery<T, E>>,
    k: int,
    outcome: Result<T, E>,
)
    requires
        0 <= k < ds.len(),
        forall|i: int| 0 <= i < k ==> (#[trigger] ds[i]) is Empty,
        ds[k] == Delivery::Delivered(outcome),
    ensures
        run(QueryState::Loading, ds.take(k)) == QueryState::<T, E>::Loading,
        run(QueryState::Loading, ds.take(k + 1)) == run(QueryState::Loading, ds),
        run(QueryState::Loading, ds) == match outcome {
            Ok(v) => QueryState::<T, E>::Success(v),
            Err(e) => QueryState::<T, E>::Error(e),
        },
{
    let before = ds.take(k);
    assert forall|i: int| 0 <= i < before.len() implies (#[trigger] before[i]) is Empty by {
        assert(before[i] == ds[i]);
    }
    pending_polls_keep_loading(before);
    let done = match outcome {
        Ok(v) => QueryState::<T, E>::Success(v),
        Err(e) => QueryState::<T, E>::Error(e),
    };
    let at = ds.subrange(k, k + 1);
    let after = ds.skip(k + 1);
    assert(at.len() == 1 && at[0] == ds[k]);
    assert(at.drop_first() =~= Seq::<Delivery<T, E>>::empty());
    assert(step(QueryState::<T, E>::Loading, at[0]) == done);
    assert(run(done, at.drop_first()) == done);
    assert(run(QueryState::<T, E>::Loading, at) == done);
    assert(ds.take(k + 1) =~= before + at);
    run_concat(QueryState::<T, E>::Loading, before, at);
    assert(ds =~= ds.take(k + 1) + after);
    run_concat(QueryState::<T, E>::Loading, ds.take(k + 1), after);
    outcome_is_never_overwritten(done, after);
}

} // verus!
