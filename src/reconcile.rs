//! Keeping an exposed counter in step with a cumulative counter of the remote
//! client, which may start again from zero when the client restarts.
use vstd::prelude::*;

verus! {

/// The exposed value after one cycle: the remote value where it has not gone
/// back, else the exposed value unchanged.
pub open spec fn counter_step(current: int, remote: int) -> int {
    if remote >= current {
        remote
    } else {
        current
    }
}

/// The exposed value after a cycle for each remote value of `vs` in turn,
/// starting from 0.
pub open spec fn exposed_after(vs: Seq<int>) -> int
    decreases vs.len(),
{
    if vs.len() == 0 {
        0
    } else {
        counter_step(exposed_after(vs.drop_last()), vs.last())
    }
}

/// The increment that brings a counter holding `current` in step with the
/// remote value `remote`: the difference, or 0 where the remote value went back.
pub fn counter_increment(current: u64, remote: u64) -> (r: u64)
    ensures
        r == counter_step(current as int, remote as int) - current,
{
    if remote >= current {
        remote - current
    } else {
        0
    }
}

/// One cycle extends the trace: from the value exposed after the remote
/// values `vs` (0 for none, as a new counter holds), a cycle that reports `v`
/// leaves the value exposed after `vs` followed by `v`. So after k cycles from
/// a new counter, the counter holds `exposed_after` of the k values reported.
pub proof fn lemma_cycle_extends_trace(vs: Seq<int>, v: int)
    ensures
        exposed_after(Seq::<int>::empty()) == 0,
        counter_step(exposed_after(vs), v) == exposed_after(vs.push(v)),
{
    assert(vs.push(v).drop_last() =~= vs);
}

/// The exposed value is at least 0 and at least every remote value seen.
pub proof fn lemma_exposed_bounds_every_value(vs: Seq<int>)
    ensures
        exposed_after(vs) >= 0,
        forall|i: int| 0 <= i < vs.len() ==> vs[i] <= exposed_after(vs),
    decreases vs.len(),
{
    if vs.len() > 0 {
        lemma_exposed_bounds_every_value(vs.drop_last());
        assert forall|i: int| 0 <= i < vs.len() implies vs[i] <= exposed_after(vs) by {
            if i < vs.len() - 1 {
                assert(vs.drop_last()[i] == vs[i]);
            }
        }
    }
}

/// The exposed value never goes down from one cycle to the next, whatever the
/// remote values are.
pub proof fn lemma_exposed_never_decreases(vs: Seq<int>, k: int)
    requires
        0 <= k < vs.len(),
    ensures
        exposed_after(vs.take(k)) <= exposed_after(vs.take(k + 1)),
{
    assert(vs.take(k + 1).drop_last() =~= vs.take(k));
}

/// Where the remote values never go down and start at 0 or more, the exposed
/// value after each cycle is exactly the remote value of that cycle.
pub proof fn lemma_exposed_follows_rising_values(vs: Seq<int>)
    requires
        forall|i: int| 0 <= i < vs.len() ==> vs[i] >= 0,
        forall|i: int, j: int| 0 <= i <= j < vs.len() ==> vs[i] <= vs[j],
    ensures
        forall|k: int| 0 <= k < vs.len() ==> exposed_after(vs.take(k + 1)) == vs[k],
    decreases vs.len(),
{
    if vs.len() > 0 {
        let front = vs.drop_last();
        lemma_exposed_follows_rising_values(front);
        assert forall|k: int| 0 <= k < vs.len() implies exposed_after(vs.take(k + 1)) == vs[k] by {
            if k < vs.len() - 1 {
                assert(vs.take(k + 1) =~= front.take(k + 1));
                assert(exposed_after(front.take(k + 1)) == front[k]);
                assert(front[k] == vs[k]);
            } else {
                assert(vs.take(k + 1) =~= vs);
                if k > 0 {
                    let p = k - 1;
                    assert(exposed_after(front.take(p + 1)) == front[p]);
                    assert(front.take(p + 1) =~= front);
                    assert(front[p] == vs[p]);
                }
                assert(vs.drop_last() =~= front);
                assert(exposed_after(vs) == counter_step(exposed_after(front), vs[k]));
            }
        }
    }
}

/// Where a remote value is below the one before it (the remote client
/// restarted), the exposed value stays as it was.
pub proof fn lemma_exposed_holds_on_regression(vs: Seq<int>, k: int)
    requires
        0 < k < vs.len(),
        vs[k] < vs[k - 1],
    ensures
        exposed_after(vs.take(k + 1)) == exposed_after(vs.take(k)),
{
    lemma_exposed_bounds_every_value(vs.take(k));
    assert(vs.take(k)[k - 1] == vs[k - 1]);
    assert(vs.take(k + 1).drop_last() =~= vs.take(k));
}

} // verus!
