use vstd::prelude::*;
use crate::timer::{Timer, State, SECONDS_PER_MINUTE};
use crate::display::{decimal, decimal_string};

verus! {

/// The section of the settings menu that arrow keys act on.
#[derive(Clone, Copy, Debug, PartialEq, Eq, Structural)]
pub enum MenuState {
    TimeLimit,
}

impl Default for MenuState {
    fn default() -> (r: Self)
        ensures
            r == MenuState::TimeLimit,
    {
        MenuState::TimeLimit
    }
}

/// Fewest minutes the time limit can be set to.
pub const MIN_TIME_LIMIT_MINUTES: u8 = 1;

/// Most minutes the time limit can be set to.
pub const MAX_TIME_LIMIT_MINUTES: u8 = 255;

/// The value a menu section shows, as a number.
pub open spec fn section_value(timer: Timer, state: MenuState) -> u8 {
    match state {
        MenuState::TimeLimit => timer.session.time_limit_minutes,
    }
}

/// The name a menu section shows.
pub open spec fn section_name(state: MenuState) -> Seq<char> {
    match state {
        MenuState::TimeLimit => "Time Limit"@,
    }
}

/// The value a menu section shows, as text.
pub fn get_current_value(timer: &Timer, state: &MenuState) -> (r: String)
    ensures
        r@ == decimal(section_value(*timer, *state) as nat),
{
    match state {
        MenuState::TimeLimit => decimal_string(timer.session.time_limit_minutes as u32),
    }
}

/// The name a menu section shows.
pub fn get_value_name(state: &MenuState) -> (r: String)
    ensures
        r@ == section_name(*state),
{
    match state {
        MenuState::TimeLimit => "Time Limit".to_owned(),
    }
}

/// The timer with its time limit set to `minutes`, in minutes and in seconds.
pub open spec fn with_limit(timer: Timer, minutes: u8) -> Timer {
    Timer {
        session: crate::timer::Session { time_limit_minutes: minutes, ..timer.session },
        time_limit_seconds: (minutes * 60) as u16,
        ..timer
    }
}

/// Moves the value of a menu section one step up (`up`) or down, within its
/// bounds. Settings change only while the timer is Stopped.
pub open spec fn stepped(timer: Timer, state: MenuState, up: bool) -> Timer {
    if timer.state != State::Stopped {
        timer
    } else {
        match state {
            MenuState::TimeLimit => {
                let m = timer.session.time_limit_minutes;
                if up && m < MAX_TIME_LIMIT_MINUTES {
                    with_limit(timer, (m + 1) as u8)
                } else if !up && m > MIN_TIME_LIMIT_MINUTES {
                    with_limit(timer, (m - 1) as u8)
                } else {
                    timer
                }
            },
        }
    }
}

fn set_time_limit(timer: &mut Timer, minutes: u8)
    ensures
        *final(timer) == with_limit(*old(timer), minutes),
{
    timer.session.time_limit_minutes = minutes;
    timer.time_limit_seconds = (minutes as u16) * SECONDS_PER_MINUTE;
}

/// Moves the value of the menu section one step up.
pub fn increase(timer: &mut Timer, state: &MenuState)
    ensures
        *final(timer) == stepped(*old(timer), *state, true),
{
    if timer.state != State::Stopped {
        return;
    }
    match state {
        MenuState::TimeLimit => {
            let m = timer.session.time_limit_minutes;
            if m < MAX_TIME_LIMIT_MINUTES {
                set_time_limit(timer, m + 1);
            }
        },
    }
}

/// Moves the value of the menu section one step down.
pub fn decrease(timer: &mut Timer, state: &MenuState)
    ensures
        *final(timer) == stepped(*old(timer), *state, false),
{
    if timer.state != State::Stopped {
        return;
    }
    match state {
        MenuState::TimeLimit => {
            let m = timer.session.time_limit_minutes;
            if m > MIN_TIME_LIMIT_MINUTES {
                set_time_limit(timer, m - 1);
            }
        },
    }
}

} // verus!
