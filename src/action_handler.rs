use vstd::prelude::*;
use crate::message::{Arrow, Message};
use crate::timer::State;

verus! {

/// A key as the user interface decodes it.
#[derive(Clone, Copy, Debug, PartialEq, Eq, Structural)]
pub enum Key {
    ArrowUp,
    ArrowDown,
    ArrowLeft,
    ArrowRight,
    Enter,
    Character(char),
    Other,
}

/// The arrow a key stands for, if it is an arrow key.
pub open spec fn arrow_of(key: Key) -> Option<Arrow> {
    match key {
        Key::ArrowUp => Some(Arrow::Up),
        Key::ArrowDown => Some(Arrow::Down),
        Key::ArrowLeft => Some(Arrow::Left),
        Key::ArrowRight => Some(Arrow::Right),
        _ => None,
    }
}

/// The release message of an arrow key.
pub open spec fn release_of(key: Key) -> Option<Message> {
    match arrow_of(key) {
        Some(a) => Some(Message::ArrowRelease(a)),
        None => None,
    }
}

/// What a key pressed over the settings menu asks for.
pub open spec fn handle_menu_keys_spec(key: Key) -> Option<Message> {
    if key == Key::Enter {
        Some(Message::Start)
    } else {
        match arrow_of(key) {
            Some(a) => Some(Message::ArrowPress(a)),
            None => None,
        }
    }
}

/// What a key pressed while the timer runs or is paused asks for.
pub open spec fn handle_running_keys_spec(key: Key) -> Option<Message> {
    if key == Key::Character('p') {
        Some(Message::Pause)
    } else if key == Key::Character('s') {
        Some(Message::Stop)
    } else {
        None
    }
}

/// Keys pressed over the settings menu of a stopped timer: arrows move
/// through the menu and Enter starts the timer.
pub fn handle_menu_keys(key: Key) -> (r: Option<Message>)
    ensures
        r == handle_menu_keys_spec(key),
{
    match key {
        Key::ArrowRight => Some(Message::ArrowPress(Arrow::Right)),
        Key::ArrowLeft => Some(Message::ArrowPress(Arrow::Left)),
        Key::ArrowDown => Some(Message::ArrowPress(Arrow::Down)),
        Key::ArrowUp => Some(Message::ArrowPress(Arrow::Up)),
        Key::Enter => Some(Message::Start),
        _ => None,
    }
}

/// Keys pressed while the timer runs or is paused: `p` toggles the pause and
/// `s` stops.
pub fn handle_running_keys(key: Key) -> (r: Option<Message>)
    ensures
        r == handle_running_keys_spec(key),
{
    match key {
        Key::Character('p') => Some(Message::Pause),
        Key::Character('s') => Some(Message::Stop),
        _ => None,
    }
}

/// Arrow keys released over the settings menu.
pub fn handle_arrow_key_release(key: Key) -> (r: Option<Message>)
    ensures
        r == release_of(key),
{
    match key {
        Key::ArrowRight => Some(Message::ArrowRelease(Arrow::Right)),
        Key::ArrowLeft => Some(Message::ArrowRelease(Arrow::Left)),
        Key::ArrowDown => Some(Message::ArrowRelease(Arrow::Down)),
        Key::ArrowUp => Some(Message::ArrowRelease(Arrow::Up)),
        _ => None,
    }
}

/// The message for a key pressed while the timer is in `state`: the settings
/// menu's keys while Stopped, the running keys otherwise.
pub fn key_press_message(state: State, key: Key) -> (r: Option<Message>)
    ensures
        state == State::Stopped ==> r == handle_menu_keys_spec(key),
        state != State::Stopped ==> r == handle_running_keys_spec(key),
{
    if state == State::Stopped {
        handle_menu_keys(key)
    } else {
        handle_running_keys(key)
    }
}

/// The message for a key released while the timer is in `state`: only the
/// settings menu, shown while Stopped, listens for releases.
pub fn key_release_message(state: State, key: Key) -> (r: Option<Message>)
    ensures
        state == State::Stopped ==> r == release_of(key),
        state != State::Stopped ==> r is None,
{
    if state == State::Stopped {
        handle_arrow_key_release(key)
    } else {
        None
    }
}

/// Whether the timer in `state` wants ticks: all but a stopped timer do.
pub fn wants_ticks(state: State) -> (r: bool)
    ensures
        r == (state != State::Stopped),
{
    state != State::Stopped
}

} // verus!
