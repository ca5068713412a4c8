use vstd::prelude::*;
use crate::timer::{Timer, State};
use crate::menu::{MenuState, increase, decrease, stepped};

pub mod actions;

use crate::control::actions::Action;

verus! {

/// The timer after `action` at clock reading `now`: quit finishes the timer,
/// Enter starts it, and Left / Right raise and lower the time limit.
pub open spec fn acted(timer: Timer, action: Action, now: u64) -> Timer {
    match action {
        Action::Quit => Timer { state: State::Finished, ..timer },
        Action::Pause => timer.toggled(now),
        Action::Stop => timer.stopped(),
        Action::Enter => timer.restarted(now),
        Action::Left => stepped(timer, MenuState::TimeLimit, true),
        Action::Right => stepped(timer, MenuState::TimeLimit, false),
        _ => timer,
    }
}

/// Hands a decoded key, pressed at clock reading `now`, to the timer.
pub fn process_actions(timer: &mut Timer, action: Action, now: u64)
    ensures
        *final(timer) == acted(*old(timer), action, now),
{
    match action {
        Action::Quit => timer.quit(),
        Action::Pause => timer.pause_trigger_at(now),
        Action::Stop => timer.stop(),
        Action::Enter => timer.start_trigger_at(now),
        Action::Up | Action::Down | Action::Left | Action::Right => update_values(timer, action),
        _ => {},
    }
}

fn update_values(timer: &mut Timer, action: Action)
    ensures
        *final(timer) == (match action {
            Action::Left => stepped(*old(timer), MenuState::TimeLimit, true),
            Action::Right => stepped(*old(timer), MenuState::TimeLimit, false),
            _ => *old(timer),
        }),
{
    if timer.state != State::Stopped {
        return;
    }
    let section = MenuState::TimeLimit;
    match action {
        Action::Left => increase(timer, &section),
        Action::Right => decrease(timer, &section),
        _ => {},
    }
}

} // verus!
