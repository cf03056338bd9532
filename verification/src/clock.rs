//! The source of the seconds that the clock shows.
//!
//! The wall clock is read through `std::time`. What a reading leads to is
//! decided by `Seconds::accept`, which `step` describes for every
//! reading there can be.

use std::time::{Duration, SystemTime, SystemTimeError, UNIX_EPOCH};
use vstd::prelude::*;

verus! {

/// A time of the wall clock, as the operating system gave it.
#[verifier::external_type_specification]
#[verifier::external_body]
pub struct ExSystemTime(SystemTime);

/// What `SystemTime::duration_since` fails with.
#[verifier::external_type_specification]
#[verifier::external_body]
pub struct ExSystemTimeError(SystemTimeError);

/// Reads the wall clock: `std::time::SystemTime::now`.
///
/// Trusted, and nothing is claimed of the time that comes back.
#[verifier::external_body]
fn wall_clock() -> SystemTime {
    SystemTime::now()
}

/// The time elapsed from the epoch to `time`, or an error if `time` lies
/// before the epoch: `SystemTime::duration_since` with
/// `std::time::UNIX_EPOCH`.
///
/// Trusted, and nothing is claimed of the result.
#[verifier::external_body]
fn since_epoch(time: &SystemTime) -> Result<Duration, SystemTimeError> {
    time.duration_since(UNIX_EPOCH)
}

/// The whole seconds in `elapsed`: `Duration::as_secs`.
///
/// Trusted, and nothing is claimed of the result.
#[verifier::external_body]
fn whole_seconds(elapsed: &Duration) -> u64 {
    elapsed.as_secs()
}

/// One reading of the wall clock: the whole seconds since the epoch, or
/// `None` where the clock stands before the epoch.
pub(crate) fn read_wall_clock() -> Option<u64> {
    let now = wall_clock();
    match since_epoch(&now) {
        Ok(elapsed) => Some(whole_seconds(&elapsed)),
        Err(_) => None,
    }
}

/// The seconds since the epoch do not fit in 32 bits.
#[derive(Debug, Clone, Copy, PartialEq, Eq, Structural)]
pub struct TimestampOverflow;

/// A count of seconds as a 32-bit timestamp. A count that needs more than
/// 32 bits is refused and never wrapped around.
pub fn timestamp(secs: u64) -> (stamp: Result<u32, TimestampOverflow>)
    ensures
        secs <= u32::MAX ==> stamp == Ok::<u32, TimestampOverflow>(secs as u32),
        secs > u32::MAX ==> stamp == Err::<u32, TimestampOverflow>(TimestampOverflow),
{
    match u32::try_from(secs) {
        Ok(stamp) => Ok(stamp),
        Err(_) => Err(TimestampOverflow),
    }
}

/// What one reading of the wall clock leads to, given the second that was
/// yielded last: the second to remember from now on, and the outcome.
///
/// A reading of `None` is a clock that stands before the epoch; it is passed
/// over. A count that does not fit in 32 bits is an error. A second that is
/// not later than the one yielded last is not yielded: neither the same
/// second again, nor an earlier one when the wall clock was set back. Any
/// other second is yielded and remembered.
pub open spec fn step(last: Option<u32>, reading: Option<u64>) -> (
    Option<u32>,
    Result<Option<u32>, TimestampOverflow>,
) {
    match reading {
        None => (last, Ok(None)),
        Some(secs) => if secs > u32::MAX {
            (last, Err(TimestampOverflow))
        } else if last is Some && secs as u32 <= last->0 {
            (last, Ok(None))
        } else {
            (Some(secs as u32), Ok(Some(secs as u32)))
        },
    }
}

/// The seconds that are yielded, in order, when the wall clock gives
/// `readings` one after the other and `last` was yielded before them. After
/// a count that does not fit in 32 bits nothing more is yielded.
pub open spec fn yielded(last: Option<u32>, readings: Seq<Option<u64>>) -> Seq<u32>
    decreases readings.len(),
{
    if readings.len() == 0 {
        Seq::empty()
    } else {
        let (next, outcome) = step(last, readings[0]);
        match outcome {
            Ok(Some(second)) => seq![second] + yielded(next, readings.drop_first()),
            Ok(None) => yielded(next, readings.drop_first()),
            Err(_) => Seq::empty(),
        }
    }
}

/// Only seconds that the wall clock showed are yielded: none is made up to
/// fill a gap.
pub proof fn lemma_yielded_were_read(last: Option<u32>, readings: Seq<Option<u64>>)
    ensures
        forall|i: int|
            0 <= i < yielded(last, readings).len() ==> readings.contains(
                Some(#[trigger] yielded(last, readings)[i] as u64),
            ),
    decreases readings.len(),
{
    if readings.len() > 0 {
        let (next, outcome) = step(last, readings[0]);
        let rest = readings.drop_first();
        lemma_yielded_were_read(next, rest);
        let tail = yielded(next, rest);
        let all = yielded(last, readings);
        assert forall|i: int| 0 <= i < all.len() implies readings.contains(
            Some(#[trigger] all[i] as u64),
        ) by {
            if outcome is Ok && outcome->Ok_0 is Some && i == 0 {
                assert(readings[0] == Some(all[0] as u64));
            } else {
                let k = if outcome is Ok && outcome->Ok_0 is Some {
                    i - 1
                } else {
                    i
                };
                assert(all[i] == tail[k]);
                let j = choose|j: int| 0 <= j < rest.len() && rest[j] == Some(tail[k] as u64);
                assert(readings[j + 1] == rest[j]);
            }
        }
    }
}

/// The yielded seconds only grow, whatever the wall clock does: each is
/// later than the second that was yielded before the readings, and later
/// than every second yielded before it.
pub proof fn lemma_yielded_increase(last: Option<u32>, readings: Seq<Option<u64>>)
    ensures
        forall|i: int|
            0 <= i < yielded(last, readings).len() && last is Some ==> last->0 < #[trigger] yielded(
                last,
                readings,
            )[i],
        forall|i: int, j: int|
            0 <= i < j < yielded(last, readings).len() ==> #[trigger] yielded(last, readings)[i]
                < #[trigger] yielded(last, readings)[j],
    decreases readings.len(),
{
    if readings.len() > 0 {
        let (next, outcome) = step(last, readings[0]);
        let rest = readings.drop_first();
        lemma_yielded_increase(next, rest);
        match outcome {
            Ok(Some(second)) => {
                let tail = yielded(next, rest);
                let all = yielded(last, readings);
                assert(all == seq![second] + tail);
                assert forall|i: int, j: int| 0 <= i < j < all.len() implies #[trigger] all[i]
                    < #[trigger] all[j] by {
                    assert(all[j] == tail[j - 1]);
                    if i > 0 {
                        assert(all[i] == tail[i - 1]);
                    }
                }
                assert forall|i: int| 0 <= i < all.len() && last is Some implies last->0
                    < #[trigger] all[i] by {
                    if i > 0 {
                        assert(all[i] == tail[i - 1]);
                    }
                }
            },
            _ => {},
        }
    }
}

/// No second is yielded twice, whatever the wall clock does: once a later
/// second has been yielded, an earlier one does not come again, and the
/// second that was yielded before the readings does not come again either.
pub proof fn lemma_never_yielded_twice(last: Option<u32>, readings: Seq<Option<u64>>)
    ensures
        forall|i: int, j: int|
            0 <= i < j < yielded(last, readings).len() ==> #[trigger] yielded(last, readings)[i]
                != #[trigger] yielded(last, readings)[j],
        forall|i: int|
            0 <= i < yielded(last, readings).len() ==> last != Some(
                #[trigger] yielded(last, readings)[i],
            ),
{
    lemma_yielded_increase(last, readings);
}

/// A second is yielded only when it differs from the one yielded before it.
pub proof fn lemma_neighbours_differ(last: Option<u32>, readings: Seq<Option<u64>>)
    ensures
        yielded(last, readings).len() > 0 ==> last != Some(yielded(last, readings)[0]),
        forall|i: int|
            0 <= i && i + 1 < yielded(last, readings).len() ==> #[trigger] yielded(
                last,
                readings,
            )[i] != yielded(last, readings)[i + 1],
{
    lemma_yielded_increase(last, readings);
}

/// The source of seconds: it remembers the second it yielded last, so that
/// it yields each second once and never one that is not later.
pub struct Seconds {
    last: Option<u32>,
}

/// A source of seconds is seen as the second it yielded last.
impl View for Seconds {
    type V = Option<u32>;

    closed spec fn view(&self) -> Option<u32> {
        self.last
    }
}

/// Returns a source of distinct 32-bit seconds that has yielded none yet.
pub fn seconds() -> (source: Seconds)
    ensures
        source@ is None,
{
    Seconds { last: None }
}

impl Seconds {
    /// The second that was yielded last, if any was.
    pub fn last(&self) -> (last: Option<u32>)
        ensures
            last == self@,
    {
        self.last
    }

    /// Takes one reading of the wall clock, `None` for a clock that stands
    /// before the epoch, and yields the second it shows if that second is
    /// later than the one yielded last.
    pub fn accept(&mut self, reading: Option<u64>) -> (outcome: Result<
        Option<u32>,
        TimestampOverflow,
    >)
        ensures
            (final(self)@, outcome) == step(old(self)@, reading),
    {
        match reading {
            None => Ok(None),
            Some(secs) => {
                match timestamp(secs) {
                    Err(overflow) => Err(overflow),
                    Ok(stamp) => {
                        let stale = match self.last {
                            Some(last) => stamp <= last,
                            None => false,
                        };
                        if stale {
                            Ok(None)
                        } else {
                            self.last = Some(stamp);
                            Ok(Some(stamp))
                        }
                    },
                }
            },
        }
    }

    /// Reads the wall clock once and yields the second it shows if that
    /// second is later than the one yielded last. What comes back is what
    /// `accept` gives for the reading that the wall clock gave.
    pub fn poll(&mut self) -> (outcome: Result<Option<u32>, TimestampOverflow>)
        ensures
            exists|reading: Option<u64>| (final(self)@, outcome) == #[trigger] step(old(self)@, reading),
    {
        self.accept(read_wall_clock())
    }
}

} // verus!
