//! The loop that shows the clock, without its input and output.
//!
//! The program that runs the loop reads no time and formats nothing. It asks
//! `tick` what to do, does it, and asks again. For `Action::Render` it writes
//! the line and flushes the output, then writes `RETURN`, so that the next
//! line overwrites this one, and sleeps for `PAUSE_SECS` seconds. For
//! `Action::Wait` it writes nothing and sleeps for `PAUSE_SECS` seconds, so
//! that a wall clock that was set back is waited for and not spun on.

use crate::cli::Mode;
use crate::clock::{read_wall_clock, step, Seconds, TimestampOverflow};
use crate::{line, render_line};
use vstd::prelude::*;

verus! {

/// What is written behind a line: a carriage return and no line feed.
pub const RETURN: &'static str = "\r";

/// The seconds to sleep after a line, and after a reading that led to a
/// wait.
pub const PAUSE_SECS: u64 = 1;

/// What the loop is to do next.
#[derive(Debug, PartialEq, Eq)]
pub enum Action {
    /// The wall clock showed no later second: nothing is written.
    Wait,
    /// The wall clock showed a later second: this is its line.
    Render(String),
}

/// Whether `next` is what the loop is to do in `mode` when the wall clock
/// gives `reading` after the second `before` was yielded, and `after` is the
/// second to remember then. A second later than `before` is rendered, a
/// second that is not later or a clock before the epoch leads to a wait, and
/// a count that does not fit in 32 bits ends the loop.
pub open spec fn follows(
    mode: Mode,
    before: Option<u32>,
    reading: Option<u64>,
    after: Option<u32>,
    next: Result<Action, TimestampOverflow>,
) -> bool {
    &&& after == step(before, reading).0
    &&& match step(before, reading).1 {
        Ok(Some(now)) => next matches Ok(Action::Render(text)) && text@ == line(mode, now),
        Ok(None) => next matches Ok(Action::Wait),
        Err(overflow) => next matches Err(error) && error == overflow,
    }
}

/// Decides what the loop does with one reading of the wall clock, `None` for
/// a clock that stands before the epoch.
pub fn refresh(mode: Mode, source: &mut Seconds, reading: Option<u64>) -> (next: Result<
    Action,
    TimestampOverflow,
>)
    ensures
        follows(mode, old(source)@, reading, final(source)@, next),
{
    match source.accept(reading) {
        Ok(Some(now)) => Ok(Action::Render(render_line(mode, now))),
        Ok(None) => Ok(Action::Wait),
        Err(overflow) => Err(overflow),
    }
}

/// Reads the wall clock once and decides what the loop does: what `refresh`
/// decides for the reading that the wall clock gave.
pub fn tick(mode: Mode, source: &mut Seconds) -> (next: Result<Action, TimestampOverflow>)
    ensures
        exists|reading: Option<u64>| #[trigger]
            follows(mode, old(source)@, reading, final(source)@, next),
{
    refresh(mode, source, read_wall_clock())
}

} // verus!
