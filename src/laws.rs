//! Properties of the supervisor that hold over every event and every run.
use vstd::prelude::*;
use crate::status::BackendStatus;
use crate::supervisor::{
    checker_live, effects_of, next_state, wf, Effects, Event, Supervisor,
    FAILURE_THRESHOLD,
};

verus! {

/// The state after the events `es`, in order.
pub open spec fn run_events(s: Supervisor, es: Seq<Event>) -> Supervisor
    decreases es.len(),
{
    if es.len() == 0 {
        s
    } else {
        next_state(run_events(s, es.drop_last()), es.last())
    }
}

/// The state after `n` restart requests in a row.
pub open spec fn after_requests(s: Supervisor, n: nat) -> Supervisor
    decreases n,
{
    if n == 0 {
        s
    } else {
        next_state(after_requests(s, (n - 1) as nat), Event::RestartRequested)
    }
}

/// The state after the health checks of process `pid` came back with `oks`, in order.
pub open spec fn health_run(s: Supervisor, pid: u32, oks: Seq<bool>) -> Supervisor
    decreases oks.len(),
{
    if oks.len() == 0 {
        s
    } else {
        next_state(health_run(s, pid, oks.drop_last()), Event::HealthChecked { pid, ok: oks.last() })
    }
}

/// The number of failed checks at the end of `oks`, after its last success.
pub open spec fn trailing_failures(oks: Seq<bool>) -> nat
    decreases oks.len(),
{
    if oks.len() == 0 {
        0
    } else if oks.last() {
        0
    } else {
        1 + trailing_failures(oks.drop_last())
    }
}

/// Every event keeps the invariant; in particular a process is held whenever
/// the last published status is `Healthy` or `Unhealthy`, and an event that
/// publishes either of them leaves a process held.
pub proof fn lemma_process_held_while_health_reported(s: Supervisor, e: Event, r: Effects)
    requires
        wf(s),
        effects_of(s, e, r),
    ensures
        wf(next_state(s, e)),
        next_state(s, e).health_reported ==> next_state(s, e).process.is_some(),
        r.publish == Some(BackendStatus::Healthy) ==> next_state(s, e).process.is_some(),
        r.publish == Some(BackendStatus::Unhealthy) ==> next_state(s, e).process.is_some(),
{
}

/// Along any run of events from a well-formed state, and so from the state
/// that `Supervisor::new` returns, a process is held whenever the last
/// published status is `Healthy` or `Unhealthy`.
pub proof fn lemma_process_held_along_any_run(s: Supervisor, es: Seq<Event>)
    requires
        wf(s),
    ensures
        wf(run_events(s, es)),
        run_events(s, es).health_reported ==> run_events(s, es).process.is_some(),
    decreases es.len(),
{
    if es.len() > 0 {
        lemma_process_held_along_any_run(s, es.drop_last());
    }
}

/// Any number of restart requests in a row leave at most one request pending,
/// and change nothing else.
pub proof fn lemma_restart_requests_coalesce(s: Supervisor, n: nat)
    ensures
        after_requests(s, n) == (if n == 0 { s } else { Supervisor { restart_pending: true, ..s } }),
    decreases n,
{
    if n > 0 {
        lemma_restart_requests_coalesce(s, (n - 1) as nat);
    }
}

/// However many restart requests arrive in a row, no relaunch starts while one
/// is in progress, and of two takes that follow the requests at most the first
/// starts a relaunch.
pub proof fn lemma_one_relaunch_at_a_time(s: Supervisor, n: nat, r1: Effects, r2: Effects)
    requires
        effects_of(after_requests(s, n), Event::RestartTaken, r1),
        effects_of(next_state(after_requests(s, n), Event::RestartTaken), Event::RestartTaken, r2),
    ensures
        s.restart_in_progress ==> !r1.relaunch_after_delay,
        !r2.relaunch_after_delay,
{
    lemma_restart_requests_coalesce(s, n);
}

proof fn lemma_health_run_counts(s: Supervisor, pid: u32, oks: Seq<bool>)
    requires
        checker_live(s, pid),
        s.health_failures == 0,
    ensures
        checker_live(health_run(s, pid, oks), pid),
        health_run(s, pid, oks).health_failures == if trailing_failures(oks) < u32::MAX {
            trailing_failures(oks)
        } else {
            u32::MAX as nat
        },
    decreases oks.len(),
{
    if oks.len() > 0 {
        lemma_health_run_counts(s, pid, oks.drop_last());
    }
}

/// From a fresh count, a health check publishes `Unhealthy` exactly when it is
/// the third failure in a row, and `Healthy` exactly when it succeeds while the
/// backend was not healthy.
pub proof fn lemma_health_hysteresis(s: Supervisor, pid: u32, oks: Seq<bool>, r: Effects)
    requires
        checker_live(s, pid),
        s.health_failures == 0,
        oks.len() > 0,
        effects_of(
            health_run(s, pid, oks.drop_last()),
            Event::HealthChecked { pid, ok: oks.last() },
            r,
        ),
    ensures
        r.publish == Some(BackendStatus::Unhealthy) <==> trailing_failures(oks) == FAILURE_THRESHOLD,
        r.publish == Some(BackendStatus::Healthy) <==> (oks.last()
            && !health_run(s, pid, oks.drop_last()).is_healthy),
{
    lemma_health_run_counts(s, pid, oks.drop_last());
}

/// Once shutting down, no event publishes a status, spawns, supervises or
/// schedules a restart, and the flag stays set.
pub proof fn lemma_shutdown_is_final(s: Supervisor, e: Event, r: Effects)
    requires
        s.shutting_down,
        effects_of(s, e, r),
    ensures
        next_state(s, e).shutting_down,
        r.publish.is_none(),
        r.spawn_on.is_none(),
        r.supervise.is_none(),
        !r.restart_after_grace,
        !r.relaunch_after_delay,
{
}

} // verus!
