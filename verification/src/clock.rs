//! Points in time on the probe's clock.
//!
//! Time is counted in ticks of 1/32768 s since start-up. The conversions between ticks and
//! milliseconds are those of `embassy_time`, which drives the clock.
use vstd::prelude::*;

verus! {

/// Latest point in time that the library computes with: far beyond 60,000 years of uptime.
pub const LATEST_TICKS: u64 = 0x100_0000_0000_0000;

/// Longest duration that is added to a point in time, in milliseconds.
pub const LONGEST_MS: u64 = 0xffff_ffff;

/// A point in time, in clock ticks since start-up.
#[derive(Clone, Copy, Debug, PartialEq, Eq, Structural)]
pub struct Instant {
    pub ticks: u64,
}

/// Ticks of a duration of `ms` milliseconds, rounded up.
pub open spec fn ticks_of_ms(ms: int) -> int {
    (ms * 32_768 + 999) / 1000
}

/// Whole milliseconds of a duration of `ticks` ticks.
pub open spec fn ms_of_ticks(ticks: int) -> int {
    ticks * 1000 / 32_768
}

/// `embassy_time::Duration::from_millis(millis).as_ticks()`: the number of ticks that
/// `millis` milliseconds take, rounded up.
#[verifier::external_body]
fn duration_from_millis(millis: u64) -> (ticks: u64)
    requires
        millis <= LONGEST_MS,
    ensures
        ticks == ticks_of_ms(millis as int),
{
    embassy_time::Duration::from_millis(millis).as_ticks()
}

/// `embassy_time::Duration::as_millis`: the whole milliseconds of a duration of `ticks` ticks.
#[verifier::external_body]
fn duration_as_millis(ticks: u64) -> (millis: u64)
    requires
        ticks <= 2 * LATEST_TICKS,
    ensures
        millis == ms_of_ticks(ticks as int),
{
    embassy_time::Duration::from_ticks(ticks).as_millis()
}

/// `embassy_time::Instant::as_millis`: the whole milliseconds from start-up to the point in time
/// `ticks`.
#[verifier::external_body]
fn instant_as_millis(ticks: u64) -> (millis: u64)
    requires
        ticks <= LATEST_TICKS,
    ensures
        millis == ms_of_ticks(ticks as int),
{
    embassy_time::Instant::from_ticks(ticks).as_millis()
}

/// `embassy_time::Instant + embassy_time::Duration`: the point in time `duration` ticks after
/// `ticks`. The sum fits, so the addition does not panic.
#[verifier::external_body]
fn instant_plus(ticks: u64, duration: u64) -> (later: u64)
    requires
        ticks + duration <= u64::MAX,
    ensures
        later == ticks + duration,
{
    (embassy_time::Instant::from_ticks(ticks) + embassy_time::Duration::from_ticks(duration)).as_ticks()
}

/// `embassy_time::Instant::saturating_duration_since`: the ticks from `earlier` to `later`, or
/// none where `later` comes first.
#[verifier::external_body]
fn instant_saturating_since(later: u64, earlier: u64) -> (ticks: u64)
    ensures
        ticks == if later < earlier {
            0int
        } else {
            later - earlier
        },
{
    embassy_time::Instant::from_ticks(later).saturating_duration_since(
        embassy_time::Instant::from_ticks(earlier),
    ).as_ticks()
}

impl Instant {
    /// The clock can show this point in time.
    pub open spec fn valid(self) -> bool {
        self.ticks <= LATEST_TICKS
    }

    /// The point in time `ms` milliseconds after this one.
    pub open spec fn plus_ms(self, ms: int) -> Instant {
        Instant { ticks: (self.ticks + ticks_of_ms(ms)) as u64 }
    }

    /// Milliseconds since start-up, as a 32-bit counter that starts again at zero.
    pub open spec fn counter_ms(self) -> int {
        ms_of_ticks(self.ticks as int) % 0x1_0000_0000
    }

    /// The point in time `millis` milliseconds after this one.
    pub fn after_millis(self, millis: u64) -> (r: Instant)
        requires
            self.valid(),
            millis <= LONGEST_MS,
        ensures
            r == self.plus_ms(millis as int),
            r.ticks == self.ticks + ticks_of_ms(millis as int),
            r.ticks <= 2 * LATEST_TICKS,
    {
        Instant { ticks: instant_plus(self.ticks, duration_from_millis(millis)) }
    }

    /// Whether `deadline` has come.
    pub fn reached(self, deadline: Instant) -> (r: bool)
        ensures
            r == (self.ticks >= deadline.ticks),
    {
        self.ticks >= deadline.ticks
    }

    /// Whole milliseconds left until `deadline`, zero once it has come.
    pub fn millis_until(self, deadline: Instant) -> (r: u64)
        requires
            deadline.ticks <= 2 * LATEST_TICKS,
        ensures
            self.ticks >= deadline.ticks ==> r == 0,
            self.ticks < deadline.ticks ==> r == ms_of_ticks(deadline.ticks - self.ticks),
    {
        duration_as_millis(instant_saturating_since(deadline.ticks, self.ticks))
    }

    /// Milliseconds since start-up.
    pub fn as_millis(self) -> (r: u64)
        requires
            self.valid(),
        ensures
            r == ms_of_ticks(self.ticks as int),
            r * 32_768 <= self.ticks * 1000 < (r + 1) * 32_768,
    {
        instant_as_millis(self.ticks)
    }

    /// Milliseconds since start-up, as a 32-bit counter that starts again at zero.
    pub fn now_ms_u32(self) -> (r: u32)
        requires
            self.valid(),
        ensures
            r == self.counter_ms(),
    {
        (instant_as_millis(self.ticks) % 0x1_0000_0000) as u32
    }
}

/// A deadline set `ms` milliseconds ahead is never reached early: once it has come, at least `ms`
/// milliseconds have passed on the clock.
pub proof fn law_deadline_is_never_early(start: Instant, ms: u64, now: Instant)
    requires
        start.valid(),
        now.valid(),
        ms <= LONGEST_MS,
        now.ticks >= start.plus_ms(ms as int).ticks,
    ensures
        ms_of_ticks(now.ticks - start.ticks) >= ms,
{
}

/// A duration takes as few ticks as last at least so many milliseconds, and ticks are as many whole
/// milliseconds as they last.
pub proof fn law_ticks_and_milliseconds_agree(ms: int, ticks: int)
    requires
        ms >= 0,
        ticks >= 0,
    ensures
        ticks * 1000 >= ms * 32_768 <==> ticks >= ticks_of_ms(ms),
        ticks * 1000 >= ms * 32_768 <==> ms_of_ticks(ticks) >= ms,
        ms_of_ticks(ticks_of_ms(ms)) == ms,
{
}

/// A point in time so many milliseconds later is later by that many ticks. The counter of
/// milliseconds follows the clock and starts again at zero after 2^32 of them.
pub proof fn law_time_adds_up(start: Instant, ms: int, now: Instant)
    requires
        start.valid(),
        0 <= ms <= LONGEST_MS,
    ensures
        (start.plus_ms(ms).ticks - start.ticks) * 1000 >= ms * 32_768,
        (start.plus_ms(ms).ticks - start.ticks - 1) * 1000 < ms * 32_768,
        0 <= now.counter_ms() < 0x1_0000_0000,
        (ms_of_ticks(now.ticks as int) - now.counter_ms()) % 0x1_0000_0000 == 0,
{
}

} // verus!
