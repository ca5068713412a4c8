use vstd::prelude::*;
use crate::timer::{Timer, State, shown_seconds, elapsed_between, add_capped};
use crate::menu::{MenuState, stepped};
use crate::message::{Message, applied};
use crate::control::acted;
use crate::control::actions::Action;

verus! {

/// The timer after the first `n` of `readings`, each applied as a tick.
pub open spec fn ticks(t: Timer, readings: Seq<u64>, n: nat) -> Timer
    decreases n,
{
    if n == 0 {
        t
    } else {
        ticks(t, readings, (n - 1) as nat).ticked(readings[n - 1])
    }
}

/// Readings of a monotonic clock never go back.
pub open spec fn non_decreasing(readings: Seq<u64>) -> bool {
    forall|i: int, j: int| 0 <= i <= j < readings.len() ==> readings[i] <= readings[j]
}

proof fn lemma_shown_seconds_monotone(e1: u64, e2: u64, paused: u64)
    requires
        e1 <= e2,
    ensures
        shown_seconds(e1, paused) <= shown_seconds(e2, paused),
{
    let n1: int = if e1 >= paused { e1 - paused } else { 0 };
    let n2: int = if e2 >= paused { e2 - paused } else { 0 };
    assert(n1 <= n2);
    assert(n1 / 1000 <= n2 / 1000) by (nonlinear_arith)
        requires
            n1 <= n2,
            0 <= n1,
    ;
}

proof fn lemma_ticks_facts(t: Timer, readings: Seq<u64>, n: nat)
    requires
        t.state == State::Running,
        non_decreasing(readings),
        n <= readings.len(),
    ensures
        ticks(t, readings, n).start_time == t.start_time,
        ticks(t, readings, n).time_paused == t.time_paused,
        ticks(t, readings, n).time_limit_seconds == t.time_limit_seconds,
        ticks(t, readings, n).state == State::Running || ticks(t, readings, n).state
            == State::Finished,
        n >= 1 && ticks(t, readings, n).state == State::Running ==> ticks(t, readings, n).time_now
            == shown_seconds(elapsed_between(t.start_time, readings[n - 1]), t.time_paused),
        n >= 1 ==> ticks(t, readings, n + 1).time_now >= ticks(t, readings, n).time_now || n
            == readings.len(),
    decreases n,
{
    if n > 0 {
        lemma_ticks_facts(t, readings, (n - 1) as nat);
    }
    if n >= 1 && n < readings.len() {
        let u = ticks(t, readings, n);
        if u.state == State::Running {
            assert(readings[n - 1] <= readings[n as int]);
            lemma_shown_seconds_monotone(
                elapsed_between(t.start_time, readings[n - 1]),
                elapsed_between(t.start_time, readings[n as int]),
                t.time_paused,
            );
        }
    }
}

/// Over any run of ticks at non-decreasing readings, starting from a running
/// timer, the shown time never decreases from the first tick on, and each tick
/// taken while running shows the whole seconds elapsed since the start of the
/// run net of pauses.
pub proof fn lemma_ticks_never_go_back(t: Timer, readings: Seq<u64>)
    requires
        t.state == State::Running,
        non_decreasing(readings),
    ensures
        forall|i: nat, j: nat|
            1 <= i <= j <= readings.len() ==> #[trigger] ticks(t, readings, i).time_now
                <= #[trigger] ticks(t, readings, j).time_now,
        forall|i: nat|
            i < readings.len() && #[trigger] ticks(t, readings, i).state == State::Running
                ==> ticks(t, readings, i + 1).time_now == shown_seconds(
                elapsed_between(t.start_time, readings[i as int]),
                t.time_paused,
            ),
{
    assert forall|i: nat, j: nat|
        1 <= i <= j <= readings.len() implies #[trigger] ticks(t, readings, i).time_now
            <= #[trigger] ticks(t, readings, j).time_now by {
        lemma_ticks_span(t, readings, i, j);
    }
    assert forall|i: nat|
        i < readings.len() && #[trigger] ticks(t, readings, i).state == State::Running
            implies ticks(t, readings, i + 1).time_now == shown_seconds(
            elapsed_between(t.start_time, readings[i as int]),
            t.time_paused,
        ) by {
        lemma_ticks_facts(t, readings, i);
    }
}

proof fn lemma_ticks_span(t: Timer, readings: Seq<u64>, i: nat, j: nat)
    requires
        t.state == State::Running,
        non_decreasing(readings),
        1 <= i <= j <= readings.len(),
    ensures
        ticks(t, readings, i).time_now <= ticks(t, readings, j).time_now,
    decreases j - i,
{
    if i < j {
        lemma_ticks_facts(t, readings, i);
        lemma_ticks_span(t, readings, i + 1, j);
    }
}

/// Pausing and resuming at the same reading changes neither the shown time
/// nor the paused total: the timer is running again as before.
pub proof fn lemma_pause_resume_same_instant(t: Timer, now: u64)
    requires
        t.state == State::Running,
    ensures
        t.toggled(now).state == State::Paused,
        t.toggled(now).toggled(now).state == State::Running,
        t.toggled(now).toggled(now).time_now == t.time_now,
        t.toggled(now).toggled(now).time_paused == t.time_paused,
        t.toggled(now).toggled(now).ticked(now).time_now == t.ticked(now).time_now,
{
    assert(elapsed_between(now, now) == 0);
    assert(add_capped(t.time_paused, 0) == t.time_paused);
}

/// A tick of a running timer finishes it exactly when the time it shows
/// reaches the limit.
pub proof fn lemma_limit_finishes(t: Timer, now: u64)
    requires
        t.state == State::Running,
    ensures
        t.ticked(now).time_now >= t.time_limit_seconds <==> t.ticked(now).state == State::Finished,
        t.ticked(now).time_now < t.time_limit_seconds <==> t.ticked(now).state == State::Running,
{
}

/// Every transition, and every step of the settings menu, keeps a
/// well-formed timer well formed.
pub proof fn lemma_transitions_keep_wf(t: Timer, now: u64, section: MenuState, up: bool)
    requires
        t.wf(),
    ensures
        t.ticked(now).wf(),
        t.toggled(now).wf(),
        t.stopped().wf(),
        t.restarted(now).wf(),
        (Timer { state: State::Finished, ..t }).wf(),
        stepped(t, section, up).wf(),
{
}

/// The timer after the first `n` of `events`, each a message and the clock
/// reading at which it arrives, with the menu on section `section`.
pub open spec fn run_messages(
    t: Timer,
    section: MenuState,
    events: Seq<(Message, u64)>,
    n: nat,
) -> Timer
    decreases n,
{
    if n == 0 {
        t
    } else {
        applied(
            run_messages(t, section, events, (n - 1) as nat),
            section,
            events[n - 1].0,
            events[n - 1].1,
        )
    }
}

/// Finished is terminal: whatever messages follow, at whatever readings, the
/// timer stays Finished and the time it shows stays as it was.
pub proof fn lemma_finished_is_terminal(t: Timer, section: MenuState, events: Seq<(Message, u64)>)
    requires
        t.state == State::Finished,
    ensures
        forall|n: nat|
            n <= events.len() ==> (#[trigger] run_messages(t, section, events, n)).state
                == State::Finished && run_messages(t, section, events, n).time_now == t.time_now,
{
    assert forall|n: nat| n <= events.len() implies (#[trigger] run_messages(
        t,
        section,
        events,
        n,
    )).state == State::Finished && run_messages(t, section, events, n).time_now
        == t.time_now by {
        lemma_finished_stays(t, section, events, n);
    }
}

proof fn lemma_finished_stays(t: Timer, section: MenuState, events: Seq<(Message, u64)>, n: nat)
    requires
        t.state == State::Finished,
        n <= events.len(),
    ensures
        run_messages(t, section, events, n).state == State::Finished,
        run_messages(t, section, events, n).time_now == t.time_now,
    decreases n,
{
    if n > 0 {
        lemma_finished_stays(t, section, events, (n - 1) as nat);
    }
}

/// In the terminal view too, no key brings a finished timer back.
pub proof fn lemma_finished_ignores_actions(t: Timer, action: Action, now: u64)
    requires
        t.state == State::Finished,
    ensures
        acted(t, action, now).state == State::Finished,
        acted(t, action, now).time_now == t.time_now,
{
}

} // verus!
