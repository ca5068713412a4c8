//! A Pomodoro countdown timer: the state machine that turns readings of a
//! monotonic clock into whole seconds shown, and moves between Running,
//! Paused, Stopped and Finished on ticks and triggers.
//!
//! Clock readings are plain millisecond counts taken from the timer's own
//! monotonic clock. Every transition comes in two forms: one that takes the
//! reading as an argument and is specified exactly, and one that reads the
//! clock itself and is specified as "the exact transition for some reading".

pub mod clock;
pub mod timer;
pub mod laws;
pub mod menu;
pub mod message;
pub mod action_handler;
pub mod actions;
pub mod control;
pub mod display;
