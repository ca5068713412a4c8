use vstd::prelude::*;

verus! {

/// What a key pressed in the plain terminal view asks for.
#[derive(Clone, Copy, Debug, PartialEq, Eq, Structural)]
pub enum Action {
    Quit,
    Pause,
    Stop,
    Other,
}

/// Decodes a key code: `p`/`P` pause, `q`/`Q` quit, `s`/`S` stop; any other
/// code is no action.
pub fn get_actions(key_pressed: i32) -> (r: Action)
    ensures
        r == Action::Pause <==> (key_pressed == 80 || key_pressed == 112),
        r == Action::Quit <==> (key_pressed == 81 || key_pressed == 113),
        r == Action::Stop <==> (key_pressed == 83 || key_pressed == 115),
{
    match key_pressed {
        80 | 112 => Action::Pause,
        81 | 113 => Action::Quit,
        83 | 115 => Action::Stop,
        _ => Action::Other,
    }
}

} // verus!
