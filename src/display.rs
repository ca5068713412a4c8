use vstd::prelude::*;
use vstd::string::StringExecFns;
use crate::timer::{Timer, State};

verus! {

/// The character of a decimal digit.
pub open spec fn digit_char(d: nat) -> char {
    if d == 0 {
        '0'
    } else if d == 1 {
        '1'
    } else if d == 2 {
        '2'
    } else if d == 3 {
        '3'
    } else if d == 4 {
        '4'
    } else if d == 5 {
        '5'
    } else if d == 6 {
        '6'
    } else if d == 7 {
        '7'
    } else if d == 8 {
        '8'
    } else {
        '9'
    }
}

/// The decimal representation of `n`, without leading zeros.
pub open spec fn decimal(n: nat) -> Seq<char>
    decreases n,
{
    if n < 10 {
        seq![digit_char(n)]
    } else {
        decimal(n / 10) + seq![digit_char(n % 10)]
    }
}

/// The decimal representation of `n`, padded with a zero to two digits.
pub open spec fn two_digits(n: nat) -> Seq<char> {
    if n < 10 {
        seq!['0'] + decimal(n)
    } else {
        decimal(n)
    }
}

/// `seconds` as minutes and seconds, `MM:SS`, each padded to two digits.
pub open spec fn clock_text(seconds: nat) -> Seq<char> {
    two_digits(seconds / 60) + seq![':'] + two_digits(seconds % 60)
}

/// The shown time against the limit, `MM:SS / MM:SS`.
pub open spec fn progress_text(timer: Timer) -> Seq<char> {
    clock_text(timer.time_now as nat) + " / "@ + clock_text(timer.time_limit_seconds as nat)
}

/// The letter the status bar shows for a state.
pub open spec fn status_key(state: State) -> char {
    match state {
        State::Finished => 'a',
        State::Running => 'r',
        State::Paused => 'p',
        State::Stopped => 's',
    }
}

/// The word shown under the clock for a state.
pub open spec fn state_word(state: State) -> Seq<char> {
    match state {
        State::Running => "running"@,
        State::Paused => "paused"@,
        State::Stopped => "stopped"@,
        State::Finished => "finished"@,
    }
}

fn digit_str(d: u32) -> (r: &'static str)
    requires
        d < 10,
    ensures
        r@ == seq![digit_char(d as nat)],
{
    proof {
        reveal_strlit("0");
        reveal_strlit("1");
        reveal_strlit("2");
        reveal_strlit("3");
        reveal_strlit("4");
        reveal_strlit("5");
        reveal_strlit("6");
        reveal_strlit("7");
        reveal_strlit("8");
        reveal_strlit("9");
    }
    match d {
        0 => "0",
        1 => "1",
        2 => "2",
        3 => "3",
        4 => "4",
        5 => "5",
        6 => "6",
        7 => "7",
        8 => "8",
        _ => "9",
    }
}

fn push_decimal(s: &mut String, n: u32)
    ensures
        final(s)@ == old(s)@ + decimal(n as nat),
    decreases n,
{
    if n >= 10 {
        push_decimal(s, n / 10);
    }
    s.append(digit_str(n % 10));
    proof {
        assert(final(s)@ =~= old(s)@ + decimal(n as nat));
    }
}

fn push_two_digits(s: &mut String, n: u32)
    ensures
        final(s)@ == old(s)@ + two_digits(n as nat),
{
    if n < 10 {
        proof {
            reveal_strlit("0");
        }
        s.append("0");
    }
    push_decimal(s, n);
    proof {
        assert(final(s)@ =~= old(s)@ + two_digits(n as nat));
    }
}

fn push_clock(s: &mut String, seconds: u32)
    ensures
        final(s)@ == old(s)@ + clock_text(seconds as nat),
{
    push_two_digits(s, seconds / 60);
    proof {
        reveal_strlit(":");
    }
    s.append(":");
    push_two_digits(s, seconds % 60);
    proof {
        assert(final(s)@ =~= old(s)@ + clock_text(seconds as nat));
    }
}

/// The decimal text of `n`.
pub fn decimal_string(n: u32) -> (r: String)
    ensures
        r@ == decimal(n as nat),
{
    let mut s = String::new();
    push_decimal(&mut s, n);
    proof {
        assert(s@ =~= decimal(n as nat));
    }
    s
}

/// `seconds` as `MM:SS`.
pub fn format_seconds_to_time(seconds: u32) -> (r: String)
    ensures
        r@ == clock_text(seconds as nat),
{
    let mut s = String::new();
    push_clock(&mut s, seconds);
    proof {
        assert(s@ =~= clock_text(seconds as nat));
    }
    s
}

/// The shown time against the limit, as `MM:SS / MM:SS`.
pub fn time_text(timer: &Timer) -> (r: String)
    ensures
        r@ == progress_text(*timer),
{
    let mut s = String::new();
    push_clock(&mut s, timer.time_now as u32);
    proof {
        reveal_strlit(" / ");
    }
    s.append(" / ");
    push_clock(&mut s, timer.time_limit_seconds as u32);
    proof {
        assert(s@ =~= progress_text(*timer));
    }
    s
}

/// The letter the status bar shows for the timer's state.
pub fn get_statuskeys(timer: &Timer) -> (r: char)
    ensures
        r == status_key(timer.state),
{
    match timer.state {
        State::Finished => 'a',
        State::Running => 'r',
        State::Paused => 'p',
        State::Stopped => 's',
    }
}

/// The word shown under the clock for the timer's state.
pub fn state_text(timer: &Timer) -> (r: String)
    ensures
        r@ == state_word(timer.state),
{
    match timer.state {
        State::Running => "running".to_owned(),
        State::Paused => "paused".to_owned(),
        State::Stopped => "stopped".to_owned(),
        State::Finished => "finished".to_owned(),
    }
}

} // verus!
