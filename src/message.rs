use vstd::prelude::*;
use crate::timer::Timer;
use crate::menu::{MenuState, increase, decrease, stepped};

verus! {

/// An arrow key.
#[derive(Clone, Copy, Debug, PartialEq, Eq, Structural)]
pub enum Arrow {
    Up,
    Down,
    Left,
    Right,
}

/// What the user interface asks of the timer: a tick, one of the three
/// triggers, or an arrow key pressed or released over the settings menu.
#[derive(Clone, Copy, Debug, PartialEq, Eq, Structural)]
pub enum Message {
    Tick,
    Pause,
    Stop,
    Start,
    ArrowPress(Arrow),
    ArrowRelease(Arrow),
}

/// The timer after `message` arrives at clock reading `now`, with the menu
/// on section `section`. Left raises the section's value and Right lowers it;
/// other arrows and releases only concern what is drawn.
pub open spec fn applied(timer: Timer, section: MenuState, message: Message, now: u64) -> Timer {
    match message {
        Message::Tick => timer.ticked(now),
        Message::Pause => timer.toggled(now),
        Message::Stop => timer.stopped(),
        Message::Start => timer.restarted(now),
        Message::ArrowPress(Arrow::Left) => stepped(timer, section, true),
        Message::ArrowPress(Arrow::Right) => stepped(timer, section, false),
        _ => timer,
    }
}

/// Hands `message`, arriving at clock reading `now`, to the timer.
pub fn apply_message(timer: &mut Timer, section: &MenuState, message: &Message, now: u64)
    ensures
        *final(timer) == applied(*old(timer), *section, *message, now),
{
    match message {
        Message::Tick => timer.update_at(now),
        Message::Pause => timer.pause_trigger_at(now),
        Message::Stop => timer.stop(),
        Message::Start => timer.start_trigger_at(now),
        Message::ArrowPress(Arrow::Left) => increase(timer, section),
        Message::ArrowPress(Arrow::Right) => decrease(timer, section),
        _ => {},
    }
}

} // verus!
