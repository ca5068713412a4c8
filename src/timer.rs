use vstd::prelude::*;
use crate::clock::millis_since;

verus! {

/// Lifecycle of a timer.
#[derive(Clone, Copy, Debug, PartialEq, Eq, Structural)]
pub enum State {
    Running,
    Finished,
    Paused,
    Stopped,
}

/// Configuration and progress of a multi-stage session. Stage advancement is
/// an open extension point: no transition of the timer changes these fields.
#[derive(Clone, Copy, Debug, PartialEq, Eq, Structural)]
pub struct Session {
    pub short_break_time: u8,
    pub long_break_time: u8,
    pub time_limit_minutes: u8,
    pub stage_limit: u8,
    pub stage_now: u8,
    pub is_break_time: bool,
}

impl Session {
    /// The stage counter stays within its bound.
    pub open spec fn wf(self) -> bool {
        self.stage_now <= self.stage_limit
    }
}

/// A countdown timer driven by readings of a monotonic clock.
///
/// Instants (`start_time`, `start_pause_time`) are readings in milliseconds
/// since `clock`; durations (`time_elapsed`, `time_paused`) are milliseconds.
pub struct Timer {
    pub clock: std::time::Instant,
    pub start_time: u64,
    pub time_elapsed: u64,
    pub start_pause_time: u64,
    pub time_paused: u64,
    pub time_limit_seconds: u16,
    pub time_now: u16,
    pub session: Session,
    pub state: State,
}

/// Milliseconds from reading `from` to reading `to`; none if `to` is earlier.
pub open spec fn elapsed_between(from: u64, to: u64) -> u64 {
    if to >= from {
        (to - from) as u64
    } else {
        0
    }
}

/// Whole seconds of `elapsed` net of `paused`, capped at what a `u16` holds.
pub open spec fn shown_seconds(elapsed: u64, paused: u64) -> u16 {
    let net: int = if elapsed >= paused {
        elapsed - paused
    } else {
        0
    };
    let secs: int = net / 1000;
    if secs > u16::MAX {
        u16::MAX
    } else {
        secs as u16
    }
}

/// `a + b`, saturating at `u64::MAX`.
pub open spec fn add_capped(a: u64, b: u64) -> u64 {
    if a + b > u64::MAX {
        u64::MAX
    } else {
        (a + b) as u64
    }
}

impl Timer {
    /// A tick at reading `now`: elapsed time is measured from `start_time`;
    /// only a running timer recomputes `time_now`, and it finishes once that
    /// reaches the limit.
    pub open spec fn ticked(self, now: u64) -> Timer {
        let elapsed = elapsed_between(self.start_time, now);
        if self.state == State::Running {
            let shown = shown_seconds(elapsed, self.time_paused);
            Timer {
                time_elapsed: elapsed,
                time_now: shown,
                state: if shown >= self.time_limit_seconds {
                    State::Finished
                } else {
                    State::Running
                },
                ..self
            }
        } else {
            Timer { time_elapsed: elapsed, ..self }
        }
    }

    /// The pause toggle at reading `now`: Running pauses and records when,
    /// Paused resumes and adds the pause to `time_paused`, others ignore it.
    pub open spec fn toggled(self, now: u64) -> Timer {
        match self.state {
            State::Running => Timer { state: State::Paused, start_pause_time: now, ..self },
            State::Paused => Timer {
                state: State::Running,
                time_paused: add_capped(
                    self.time_paused,
                    elapsed_between(self.start_pause_time, now),
                ),
                ..self
            },
            _ => self,
        }
    }

    /// The stop trigger: zeroes the shown time, except on a finished timer,
    /// which is terminal and ignores it.
    pub open spec fn stopped(self) -> Timer {
        if self.state == State::Finished {
            self
        } else {
            Timer { state: State::Stopped, time_now: 0, ..self }
        }
    }

    /// The start trigger at reading `now`: a stopped timer starts a fresh run
    /// from `now`; in any other state it is ignored.
    pub open spec fn restarted(self, now: u64) -> Timer {
        if self.state == State::Stopped {
            Timer { state: State::Running, start_time: now, time_now: 0, time_paused: 0, ..self }
        } else {
            self
        }
    }

    /// A stopped timer shows no time, and the session is well formed.
    pub open spec fn wf(self) -> bool {
        &&& self.session.wf()
        &&& self.state == State::Stopped ==> self.time_now == 0
    }

    /// The current reading of this timer's clock, in milliseconds.
    pub fn reading(&self) -> u64 {
        millis_since(&self.clock)
    }

    /// A tick at reading `now`.
    pub fn update_at(&mut self, now: u64)
        ensures
            *final(self) == old(self).ticked(now),
    {
        self.time_elapsed = if now >= self.start_time {
            now - self.start_time
        } else {
            0
        };
        self.update_time();
    }

    fn update_time(&mut self)
        ensures
            old(self).state == State::Running ==> *final(self) == (Timer {
                time_now: shown_seconds(old(self).time_elapsed, old(self).time_paused),
                state: if shown_seconds(old(self).time_elapsed, old(self).time_paused)
                    >= old(self).time_limit_seconds {
                    State::Finished
                } else {
                    State::Running
                },
                ..*old(self)
            }),
            old(self).state != State::Running ==> *final(self) == *old(self),
    {
        if self.state != State::Running {
            return;
        }
        let net: u64 = if self.time_elapsed >= self.time_paused {
            self.time_elapsed - self.time_paused
        } else {
            0
        };
        let secs: u64 = net / 1000;
        let time_as_seconds: u16 = if secs > u16::MAX as u64 {
            u16::MAX
        } else {
            secs as u16
        };
        if self.time_now != time_as_seconds {
            self.time_now = time_as_seconds;
        }
        self.update_events();
    }

    fn update_events(&mut self)
        ensures
            *final(self) == (if old(self).time_now >= old(self).time_limit_seconds {
                Timer { state: State::Finished, ..*old(self) }
            } else {
                *old(self)
            }),
    {
        if self.time_now >= self.time_limit_seconds {
            self.next_stage();
        }
    }

    fn next_stage(&mut self)
        ensures
            *final(self) == (Timer { state: State::Finished, ..*old(self) }),
    {
        self.state = State::Finished;
    }

    /// A tick at the clock's current reading.
    pub fn update(&mut self)
        ensures
            exists|now: u64| *final(self) == #[trigger] old(self).ticked(now),
    {
        let now = self.reading();
        self.update_at(now);
    }

    /// The pause toggle at reading `now`.
    pub fn pause_trigger_at(&mut self, now: u64)
        ensures
            *final(self) == old(self).toggled(now),
    {
        match self.state {
            State::Running => self.pause(now),
            State::Paused => self.unpause(now),
            _ => {},
        }
    }

    /// The pause toggle at the clock's current reading.
    pub fn pause_trigger(&mut self)
        ensures
            exists|now: u64| *final(self) == #[trigger] old(self).toggled(now),
    {
        let now = self.reading();
        self.pause_trigger_at(now);
    }

    fn pause(&mut self, now: u64)
        ensures
            *final(self) == (Timer { state: State::Paused, start_pause_time: now, ..*old(self) }),
    {
        self.state = State::Paused;
        self.start_pause_time = now;
    }

    fn unpause(&mut self, now: u64)
        ensures
            *final(self) == (Timer {
                state: State::Running,
                time_paused: add_capped(
                    old(self).time_paused,
                    elapsed_between(old(self).start_pause_time, now),
                ),
                ..*old(self)
            }),
    {
        self.state = State::Running;
        let pause_length: u64 = if now >= self.start_pause_time {
            now - self.start_pause_time
        } else {
            0
        };
        self.time_paused = self.time_paused.saturating_add(pause_length);
    }

    /// The stop trigger.
    pub fn stop(&mut self)
        ensures
            *final(self) == old(self).stopped(),
            old(self).state != State::Finished ==> final(self).time_now == 0 && final(self).state
                == State::Stopped,
            old(self).state == State::Finished ==> *final(self) == *old(self),
    {
        if self.state == State::Finished {
            return;
        }
        self.state = State::Stopped;
        self.time_now = 0;
    }

    /// The start trigger at reading `now`.
    pub fn start_trigger_at(&mut self, now: u64)
        ensures
            *final(self) == old(self).restarted(now),
            old(self).state == State::Stopped ==> final(self).time_now == 0 && final(self).state
                == State::Running,
            old(self).state != State::Stopped ==> *final(self) == *old(self),
    {
        if self.state == State::Stopped {
            self.restart(now);
        }
    }

    /// The start trigger at the clock's current reading.
    pub fn start_trigger(&mut self)
        ensures
            exists|now: u64| *final(self) == #[trigger] old(self).restarted(now),
            old(self).state == State::Stopped ==> final(self).time_now == 0 && final(self).state
                == State::Running,
            old(self).state != State::Stopped ==> *final(self) == *old(self),
    {
        let now = self.reading();
        self.start_trigger_at(now);
    }

    fn restart(&mut self, now: u64)
        ensures
            *final(self) == (Timer {
                state: State::Running,
                start_time: now,
                time_now: 0,
                time_paused: 0,
                ..*old(self)
            }),
    {
        self.state = State::Running;
        self.start_time = now;
        self.time_now = 0;
        self.time_paused = 0;
    }

    /// The quit trigger: the timer finishes whatever its state.
    pub fn quit(&mut self)
        ensures
            *final(self) == (Timer { state: State::Finished, ..*old(self) }),
    {
        self.state = State::Finished;
    }
}

/// The session a new timer starts with: one-minute work stages, five-minute
/// short and thirty-minute long breaks, four stages.
pub open spec fn default_session() -> Session {
    Session {
        short_break_time: 5,
        long_break_time: 30,
        time_limit_minutes: 1,
        stage_limit: 4,
        stage_now: 0,
        is_break_time: false,
    }
}

/// Seconds in a minute, for turning the session's limit into the timer's.
pub const SECONDS_PER_MINUTE: u16 = 60;

/// A new timer: Stopped, showing no time, waiting for an explicit start,
/// with the default session and its limit in seconds.
pub fn create_default_timer() -> (t: Timer)
    ensures
        t.state == State::Stopped,
        t.time_now == 0,
        t.session == default_session(),
        t.time_limit_seconds == default_session().time_limit_minutes * 60,
        t.start_time == 0,
        t.start_pause_time == 0,
        t.time_elapsed == 0,
        t.time_paused == 0,
        t.wf(),
{
    let timer_session = create_default_session();
    let session_time_in_seconds: u16 = (timer_session.time_limit_minutes as u16) * SECONDS_PER_MINUTE;
    Timer {
        clock: std::time::Instant::now(),
        start_time: 0,
        time_elapsed: 0,
        start_pause_time: 0,
        time_paused: 0,
        time_limit_seconds: session_time_in_seconds,
        time_now: 0,
        session: timer_session,
        state: State::Stopped,
    }
}

/// The default session.
pub fn create_default_session() -> (s: Session)
    ensures
        s == default_session(),
        s.wf(),
{
    Session {
        short_break_time: 5,
        long_break_time: 30,
        time_limit_minutes: 1,
        stage_limit: 4,
        stage_now: 0,
        is_break_time: false,
    }
}

} // verus!
