use vstd::prelude::*;

use crate::supervisor::{
    fire, initial, model_inv, next, outcome, Action, Event, Model, Phase, FORCED_EXIT_CODE,
    SIGNAL_CODE,
};

verus! {

/// The state after a sequence of events, applied in order.
pub open spec fn run(m: Model, evs: Seq<Event>) -> Model
    decreases evs.len(),
{
    if evs.len() == 0 {
        m
    } else {
        next(run(m, evs.drop_last()), evs.last()).0
    }
}

/// The latch set `n` times in a row.
pub open spec fn fire_times(m: Model, n: nat) -> Model
    decreases n,
{
    if n == 0 {
        m
    } else {
        fire(fire_times(m, (n - 1) as nat))
    }
}

/// An outside signal, as opposed to what the workers and the bridge report.
pub open spec fn is_external(e: Event) -> bool {
    e == Event::Interrupt || e == Event::Terminate
}

/// Every transition keeps the invariant.
pub proof fn lemma_next_inv(m: Model, e: Event)
    requires
        model_inv(m),
    ensures
        model_inv(next(m, e).0),
{
}

/// One more event on a prefix.
pub proof fn lemma_run_step(m: Model, evs: Seq<Event>, j: int)
    requires
        0 <= j < evs.len(),
    ensures
        run(m, evs.take(j + 1)) == next(run(m, evs.take(j)), evs[j]).0,
{
    assert(evs.take(j + 1).drop_last() =~= evs.take(j));
}

/// Every state that a run reaches from a well-formed state is well formed.
pub proof fn lemma_run_inv(m: Model, evs: Seq<Event>, j: int)
    requires
        model_inv(m),
        0 <= j <= evs.len(),
    ensures
        model_inv(run(m, evs.take(j))),
    decreases j,
{
    if j == 0 {
        assert(evs.take(0) =~= Seq::<Event>::empty());
    } else {
        lemma_run_inv(m, evs, j - 1);
        lemma_run_step(m, evs, j - 1);
        lemma_next_inv(run(m, evs.take(j - 1)), evs[j - 1]);
    }
}

/// The write counter never goes down, whatever the order in which the
/// workers, the signals and the orchestrator act.
pub proof fn lemma_counter_monotone(m: Model, evs: Seq<Event>, i: int, j: int)
    requires
        0 <= i <= j <= evs.len(),
    ensures
        run(m, evs.take(i)).counter <= run(m, evs.take(j)).counter,
    decreases j - i,
{
    if i < j {
        lemma_counter_monotone(m, evs, i, j - 1);
        lemma_run_step(m, evs, j - 1);
    }
}

/// Setting the latch any positive number of times is the same as setting it
/// once, and it is set afterwards.
pub proof fn lemma_fire_idempotent(m: Model, n: nat)
    requires
        n >= 1,
    ensures
        fire_times(m, n) == fire(m),
        fire_times(m, n).fired,
    decreases n,
{
    if n > 1 {
        lemma_fire_idempotent(m, (n - 1) as nat);
    } else {
        assert(fire_times(m, 0) == m);
    }
}

/// Once the latch is set it stays set, whatever happens after.
pub proof fn lemma_latch_stays(m: Model, evs: Seq<Event>, i: int, j: int)
    requires
        0 <= i <= j <= evs.len(),
        run(m, evs.take(i)).fired,
    ensures
        run(m, evs.take(j)).fired,
    decreases j - i,
{
    if i < j {
        lemma_latch_stays(m, evs, i, j - 1);
        lemma_run_step(m, evs, j - 1);
    }
}

/// With no outside signal, the bridge never resolves with the signal code,
/// and only a poller at its bound sets the latch.
proof fn lemma_quiet_prefix(poll_limit: nat, evs: Seq<Event>, j: int)
    requires
        poll_limit <= u32::MAX,
        0 <= j <= evs.len(),
        forall|i: int| 0 <= i < j ==> !is_external(#[trigger] evs[i]),
    ensures
        ({
            let s = run(initial(poll_limit), evs.take(j));
            &&& s.bridge != Some(SIGNAL_CODE as int)
            &&& s.fired ==> s.poller == Phase::LimitReached
            &&& !s.forced
        }),
    decreases j,
{
    if j == 0 {
        assert(evs.take(0) =~= Seq::<Event>::empty());
    } else {
        lemma_quiet_prefix(poll_limit, evs, j - 1);
        lemma_run_step(initial(poll_limit), evs, j - 1);
        assert(!is_external(evs[j - 1]));
    }
}

/// Once a worker has set the latch and the bridge has not taken the signal
/// code, it never does.
proof fn lemma_internal_stays(m: Model, evs: Seq<Event>, i: int, j: int)
    requires
        model_inv(m),
        0 <= i <= j <= evs.len(),
        run(m, evs.take(i)).fired,
        run(m, evs.take(i)).bridge != Some(SIGNAL_CODE as int),
    ensures
        run(m, evs.take(j)).fired,
        run(m, evs.take(j)).bridge != Some(SIGNAL_CODE as int),
    decreases j - i,
{
    if i < j {
        lemma_internal_stays(m, evs, i, j - 1);
        lemma_run_step(m, evs, j - 1);
    }
}

/// When the poller reaches its bound before any outside signal, the run
/// ends, unless forced, with the failure code that the writer recorded:
/// zero when none was.
pub proof fn lemma_bound_first_exit_code(poll_limit: nat, evs: Seq<Event>, k: int)
    requires
        poll_limit <= u32::MAX,
        0 <= k <= evs.len(),
        forall|i: int| 0 <= i < k ==> !is_external(#[trigger] evs[i]),
        run(initial(poll_limit), evs.take(k)).poller == Phase::LimitReached,
        !run(initial(poll_limit), evs).forced,
        outcome(run(initial(poll_limit), evs)) is Some,
    ensures
        outcome(run(initial(poll_limit), evs)) == Some(run(initial(poll_limit), evs).failure_code),
{
    let m = initial(poll_limit);
    lemma_quiet_prefix(poll_limit, evs, k);
    lemma_run_inv(m, evs, k);
    lemma_internal_stays(m, evs, k, evs.len() as int);
    lemma_run_inv(m, evs, evs.len() as int);
    assert(evs.take(evs.len() as int) =~= evs);
}

/// After an interrupt that came before the poller reached its bound, the
/// poller counts no more ticks, the bridge holds the signal code, and the
/// run ends with the signal code.
pub proof fn lemma_interrupt_first_exit_code(poll_limit: nat, evs: Seq<Event>, k: int, j: int)
    requires
        poll_limit <= u32::MAX,
        0 <= k < j <= evs.len(),
        forall|i: int| 0 <= i < k ==> !is_external(#[trigger] evs[i]),
        run(initial(poll_limit), evs.take(k)).poller != Phase::LimitReached,
        evs[k] == Event::Interrupt,
    ensures
        run(initial(poll_limit), evs.take(j)).polls == run(initial(poll_limit), evs.take(k)).polls,
        run(initial(poll_limit), evs.take(j)).poller != Phase::LimitReached,
        run(initial(poll_limit), evs.take(j)).bridge == Some(SIGNAL_CODE as int),
        outcome(run(initial(poll_limit), evs.take(j))) is Some ==> outcome(
            run(initial(poll_limit), evs.take(j)),
        ) == Some(SIGNAL_CODE as int),
    decreases j - k,
{
    let m = initial(poll_limit);
    lemma_quiet_prefix(poll_limit, evs, k);
    lemma_run_inv(m, evs, j - 1);
    lemma_run_step(m, evs, j - 1);
    if j > k + 1 {
        lemma_interrupt_first_exit_code(poll_limit, evs, k, j - 1);
    }
}

/// Once the latch is set, each worker leaves its loop at its next report,
/// and the poller counts no further tick.
pub proof fn lemma_fired_workers_stop(m: Model, failed: bool)
    requires
        model_inv(m),
        m.fired,
        !m.forced,
    ensures
        m.writer == Phase::Running ==> next(m, Event::WriteDone { failed }).1 == Action::Stop,
        m.writer == Phase::Running ==> next(m, Event::WriteDone { failed }).0.writer
            == Phase::Cancelled,
        m.poller == Phase::Running ==> next(m, Event::PollTick).1 == Action::Stop,
        m.poller == Phase::Running ==> next(m, Event::PollTick).0.poller == Phase::Cancelled,
        next(m, Event::PollTick).0.polls == m.polls,
{
}

/// An interrupt once the watchdog listens ends the process at once with
/// the forced-exit code, whether or not the workers have drained.
pub proof fn lemma_second_interrupt_forces(m: Model)
    requires
        model_inv(m),
        m.armed,
    ensures
        !m.forced ==> next(m, Event::Interrupt).1 == Action::ForceExit(FORCED_EXIT_CODE),
        outcome(next(m, Event::Interrupt).0) == Some(FORCED_EXIT_CODE as int),
{
}

/// A repeated outside signal before the watchdog listens changes nothing:
/// the run goes on as after the first.
pub proof fn lemma_early_repeat_ignored(m: Model, e: Event)
    requires
        model_inv(m),
        is_external(e),
        m.bridge is Some,
        !m.armed,
    ensures
        next(m, e) == (m, Action::Ignored),
{
}

} // verus!
