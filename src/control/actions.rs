use vstd::prelude::*;

verus! {

/// Relies on `ncurses::KEY_DOWN`: the curses key code of the down arrow.
#[verifier::external_body]
fn key_down() -> (r: i32)
    ensures
        r == 0x102,
{
    ncurses::KEY_DOWN
}

/// Relies on `ncurses::KEY_UP`: the curses key code of the up arrow.
#[verifier::external_body]
fn key_up() -> (r: i32)
    ensures
        r == 0x103,
{
    ncurses::KEY_UP
}

/// Relies on `ncurses::KEY_LEFT`: the curses key code of the left arrow.
#[verifier::external_body]
fn key_left() -> (r: i32)
    ensures
        r == 0x104,
{
    ncurses::KEY_LEFT
}

/// Relies on `ncurses::KEY_RIGHT`: the curses key code of the right arrow.
#[verifier::external_body]
fn key_right() -> (r: i32)
    ensures
        r == 0x105,
{
    ncurses::KEY_RIGHT
}

/// What a key pressed in the terminal view with its settings menu asks for.
#[derive(Clone, Copy, Debug, PartialEq, Eq, Structural)]
pub enum Action {
    Quit,
    Pause,
    Stop,
    Up,
    Down,
    Left,
    Right,
    Enter,
    Other,
}

/// Decodes a key code: `p` pause, `q` quit, `s` stop (either case); the curses
/// arrow codes (down 0x102, up 0x103, left 0x104, right 0x105) or `k` `j` `i` `l`
/// (either case) move; line feed is Enter; any other code is no action.
pub fn get_action_pressed(key_pressed: i32) -> (r: Action)
    ensures
        r == Action::Pause <==> (key_pressed == 80 || key_pressed == 112),
        r == Action::Quit <==> (key_pressed == 81 || key_pressed == 113),
        r == Action::Stop <==> (key_pressed == 83 || key_pressed == 115),
        r == Action::Up <==> (key_pressed == 0x103 || key_pressed == 75 || key_pressed == 107),
        r == Action::Down <==> (key_pressed == 0x102 || key_pressed == 74 || key_pressed
            == 106),
        r == Action::Left <==> (key_pressed == 0x104 || key_pressed == 73 || key_pressed
            == 105),
        r == Action::Right <==> (key_pressed == 0x105 || key_pressed == 76 || key_pressed
            == 108),
        r == Action::Enter <==> key_pressed == 10,
{
    let up = key_up();
    let down = key_down();
    let left = key_left();
    let right = key_right();
    if key_pressed == 80 || key_pressed == 112 {
        Action::Pause
    } else if key_pressed == 81 || key_pressed == 113 {
        Action::Quit
    } else if key_pressed == 83 || key_pressed == 115 {
        Action::Stop
    } else if key_pressed == up || key_pressed == 75 || key_pressed == 107 {
        Action::Up
    } else if key_pressed == down || key_pressed == 74 || key_pressed == 106 {
        Action::Down
    } else if key_pressed == left || key_pressed == 73 || key_pressed == 105 {
        Action::Left
    } else if key_pressed == right || key_pressed == 76 || key_pressed == 108 {
        Action::Right
    } else if key_pressed == 10 {
        Action::Enter
    } else {
        Action::Other
    }
}

} // verus!
