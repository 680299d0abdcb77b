//! Generator of history identifiers.
//!
//! An identifier is the wall-clock time in microseconds, pushed forward where
//! the clock stalls or steps back, so that every identifier issued by one
//! source is greater than all that the source issued before.

use crate::types::timestamp::Timestamp;
use std::sync::atomic::AtomicI64;
use std::sync::atomic::Ordering;
use std::time::Duration;
use std::time::SystemTime;
use vstd::prelude::*;

verus! {

/// The identifier that follows `last` when the clock reads `now`: the clock
/// reading where it is ahead of `last`, else one more than `last`.
pub open spec fn successor(last: int, now: int) -> int {
    if now > last {
        now
    } else {
        last + 1
    }
}

/// The identifiers issued from a counter that stands at `last`, one for each
/// clock reading of `readings`, in order.
pub open spec fn issued(last: int, readings: Seq<int>) -> Seq<int>
    decreases readings.len(),
{
    if readings.len() == 0 {
        Seq::empty()
    } else {
        seq![successor(last, readings[0])] + issued(
            successor(last, readings[0]),
            readings.drop_first(),
        )
    }
}

/// The next identifier, or `None` where the counter is exhausted: it stands at
/// the greatest value and the clock is not ahead of it.
pub fn checked_successor(last: i64, now: i64) -> (next: Option<i64>)
    ensures
        match next {
            Some(next) => (now > last || last < i64::MAX) && next == successor(
                last as int,
                now as int,
            ),
            None => now <= last && last == i64::MAX,
        },
{
    if now > last {
        Some(now)
    } else if last < i64::MAX {
        Some(last + 1)
    } else {
        None
    }
}

/// The next identifier; at exhaustion the greatest value again.
pub fn next_timestamp(last: i64, now: i64) -> (next: i64)
    ensures
        now > last || last < i64::MAX ==> next == successor(last as int, now as int),
        now <= last && last == i64::MAX ==> next == i64::MAX,
        next >= now,
{
    match checked_successor(last, now) {
        Some(next) => next,
        None => i64::MAX,
    }
}

/// Every identifier is greater than the counter it was issued from.
pub proof fn lemma_successor_exceeds(last: int, now: int)
    ensures
        successor(last, now) > last,
        successor(last, now) >= now,
{
}

/// The identifiers issued by one source are all greater than the value its
/// counter started from, and each is greater than all issued before it,
/// whatever the clock read: also where it stalled or went back.
pub proof fn lemma_issued_strictly_increasing(last: int, readings: Seq<int>)
    ensures
        issued(last, readings).len() == readings.len(),
        forall|i: int| 0 <= i < readings.len() ==> last < #[trigger] issued(last, readings)[i],
        forall|i: int, j: int|
            0 <= i < j < readings.len() ==> #[trigger] issued(last, readings)[i]
                < #[trigger] issued(last, readings)[j],
    decreases readings.len(),
{
    if readings.len() > 0 {
        let first = successor(last, readings[0]);
        let rest = readings.drop_first();
        lemma_issued_strictly_increasing(first, rest);
        let all = issued(last, readings);
        assert(all =~= seq![first] + issued(first, rest));
        assert forall|i: int| 0 <= i < readings.len() implies last < #[trigger] all[i] by {
            if i > 0 {
                assert(all[i] == issued(first, rest)[i - 1]);
            }
        }
        assert forall|i: int, j: int| 0 <= i < j < readings.len() implies #[trigger] all[i]
            < #[trigger] all[j] by {
            assert(all[j] == issued(first, rest)[j - 1]);
            if i > 0 {
                assert(all[i] == issued(first, rest)[i - 1]);
            }
        }
    }
}

/// An identifier issued while the clock is ahead of the counter is the clock
/// reading itself.
pub proof fn lemma_issued_follows_clock(last: int, readings: Seq<int>)
    requires
        readings.len() > 0,
        last < readings[0],
        forall|i: int, j: int| 0 <= i < j < readings.len() ==> readings[i] < readings[j],
    ensures
        issued(last, readings) =~= readings,
    decreases readings.len(),
{
    let rest = readings.drop_first();
    if rest.len() > 0 {
        assert(rest[0] == readings[1]);
        assert forall|i: int, j: int| 0 <= i < j < rest.len() implies rest[i] < rest[j] by {
            assert(rest[i] == readings[i + 1]);
            assert(rest[j] == readings[j + 1]);
        }
        lemma_issued_follows_clock(readings[0], rest);
    } else {
        assert(issued(readings[0], rest) =~= Seq::<int>::empty());
    }
    assert(issued(last, readings) =~= seq![readings[0]] + issued(readings[0], rest));
}

/// The counter behind the identifiers of one process. It holds the identifier
/// issued last, and 0 before the first.
pub struct TimestampSource {
    last: AtomicI64,
}

/// `AtomicI64::fetch_update`, sequentially consistent, with
/// [`checked_successor`] at the clock reading `now` as the update. The standard
/// library retries the compare-and-swap until it succeeds or the update
/// declines, and hands back the value that the counter held before: inside
/// `Ok` where the update gave a new value, inside `Err` where it declined.
#[verifier::external_body]
fn advance(counter: &AtomicI64, now: i64) -> (previous: Result<i64, i64>)
    ensures
        match previous {
            Ok(last) => now > last || last < i64::MAX,
            Err(last) => now <= last && last == i64::MAX,
        },
{
    counter.fetch_update(Ordering::SeqCst, Ordering::SeqCst, |last| checked_successor(last, now))
}

/// `std::time::SystemTime`, a reading of the system clock. Nothing is known
/// of its value.
#[verifier::external_type_specification]
#[verifier::external_body]
pub struct ExSystemTime(std::time::SystemTime);

/// `SystemTime::now`: the reading of the system clock.
#[verifier::external_body]
fn clock_reading() -> SystemTime {
    SystemTime::now()
}

/// `SystemTime::duration_since` the Unix epoch; `None` where the clock reads a
/// time before the epoch.
#[verifier::external_body]
fn since_unix_epoch(reading: &SystemTime) -> Option<Duration> {
    reading.duration_since(SystemTime::UNIX_EPOCH).ok()
}

/// `Duration::as_micros`: the whole microseconds in `elapsed`.
#[verifier::external_body]
fn whole_microseconds(elapsed: &Duration) -> u128 {
    elapsed.as_micros()
}

/// Microseconds since the Unix epoch on the system clock: 0 where the clock
/// reads a time before the epoch, the greatest value where the count does not
/// fit.
pub fn wall_clock_microseconds() -> (now: i64)
    ensures
        now >= 0,
{
    // What the clock reads is the system's to say. What a reading comes to
    // as a count of microseconds is stated by `microseconds_of`, for every
    // reading.
    let reading = clock_reading();
    let elapsed = match since_unix_epoch(&reading) {
        Some(elapsed) => {
            let micros = whole_microseconds(&elapsed);
            Some(micros)
        },
        None => None,
    };
    microseconds_of(elapsed)
}

impl TimestampSource {
    /// A source that has issued nothing yet.
    pub fn new() -> TimestampSource {
        TimestampSource { last: AtomicI64::new(0) }
    }

    /// Issues the identifier for the clock reading `now` and records it as
    /// the last one issued. Safe to call from several threads at once: the
    /// counter moves by compare-and-swap only, from the value that the
    /// identifier was computed from.
    pub fn issue(&self, now: i64) -> (id: Timestamp)
        ensures
            id@ >= now,
    {
        match advance(&self.last, now) {
            Ok(last) => Timestamp(next_timestamp(last, now)),
            Err(_) => Timestamp(i64::MAX),
        }
    }
}

/// A new identifier from `source`, at the present reading of the system clock.
/// It is not negative.
pub fn current_timestamp(source: &TimestampSource) -> (id: Timestamp)
    ensures
        id@ >= 0,
{
    source.issue(wall_clock_microseconds())
}

/// The time since the Unix epoch as a count of microseconds that an
/// identifier can hold: the whole microseconds `elapsed` where they fit,
/// the greatest value where they do not, and 0 where there are none because
/// the clock reads a time before the epoch.
pub open spec fn clock_microseconds(elapsed: Option<u128>) -> int {
    match elapsed {
        Some(micros) => if micros > i64::MAX {
            i64::MAX as int
        } else {
            micros as int
        },
        None => 0,
    }
}

/// The count of microseconds for the time `elapsed` since the Unix epoch, in
/// whole microseconds; `None` stands for a clock that reads a time before
/// the epoch.
pub fn microseconds_of(elapsed: Option<u128>) -> (now: i64)
    ensures
        now == clock_microseconds(elapsed),
{
    match elapsed {
        Some(micros) => {
            if micros > 0x7fff_ffff_ffff_ffffu128 {
                i64::MAX
            } else {
                micros as i64
            }
        },
        None => 0,
    }
}

} // verus!
