//! `mach_absolute_time`: elapsed nanoseconds on the host's monotonic clock
//! since a reference point that each emulated process fixes on its first
//! query.

use std::time::Instant;
use vstd::prelude::*;

verus! {

#[verifier::external_type_specification]
#[verifier::external_body]
pub struct ExInstant(Instant);

/// Relies on `std::time::Instant::now`: a reading of the host's monotonic
/// clock. It depends on the time, so nothing is promised of it.
#[verifier::external_body]
fn host_now() -> Instant {
    Instant::now()
}

/// Relies on `std::time::Instant::elapsed`: the whole nanoseconds between
/// `epoch` and now on the host's monotonic clock. It depends on the time, so
/// nothing is promised of it.
#[verifier::external_body]
fn host_nanos_since(epoch: &Instant) -> u128 {
    epoch.elapsed().as_nanos()
}

/// The reference point in force after a query made at clock reading `now`:
/// the one already fixed, or else `now` itself.
pub open spec fn reference_after(reference: Option<u128>, now: u128) -> u128 {
    match reference {
        Some(r) => r,
        None => now,
    }
}

/// Nanoseconds from `reference` to `now`; zero where the clock reads earlier
/// than the reference.
pub open spec fn elapsed_nanos(reference: u128, now: u128) -> nat {
    if now >= reference {
        (now - reference) as nat
    } else {
        0
    }
}

/// What a query at reading `now` reports against `reference`: the elapsed
/// nanoseconds, or `None` where they do not fit in 64 bits.
pub open spec fn absolute_time_value(reference: u128, now: u128) -> Option<u64> {
    if elapsed_nanos(reference, now) <= u64::MAX {
        Some(elapsed_nanos(reference, now) as u64)
    } else {
        None
    }
}

/// Time state of one emulated process.
///
/// Clock readings are whole nanoseconds since `host_epoch`, an instant taken
/// when the state is made; the reference point is such a reading, unset until
/// the first elapsed-time query and never changed afterwards.
pub struct State {
    host_epoch: Instant,
    absolute_time_reference: Option<u128>,
}

impl View for State {
    type V = Option<u128>;

    /// The reference point, as a reading of this state's clock.
    closed spec fn view(&self) -> Option<u128> {
        self.absolute_time_reference
    }
}

impl State {
    /// The instant that this state's clock readings count from.
    pub closed spec fn epoch(&self) -> Instant {
        self.host_epoch
    }

    /// A fresh process state, with no reference point yet.
    pub fn new() -> (r: State)
        ensures
            r@ is None,
    {
        State { host_epoch: host_now(), absolute_time_reference: None }
    }

    /// The current reading of this state's clock.
    pub fn clock_reading(&self) -> u128 {
        host_nanos_since(&self.host_epoch)
    }

    /// Answers an elapsed-time query made at clock reading `now`: fixes the
    /// reference point at `now` if none is set, then reports the nanoseconds
    /// from it to `now`.
    pub fn absolute_time_at(&mut self, now: u128) -> (r: Option<u64>)
        ensures
            final(self)@ == Some(reference_after(old(self)@, now)),
            final(self).epoch() == old(self).epoch(),
            r == absolute_time_value(reference_after(old(self)@, now), now),
    {
        let reference: u128 = match self.absolute_time_reference {
            Some(r) => r,
            None => {
                self.absolute_time_reference = Some(now);
                now
            },
        };
        let elapsed: u128 = if now >= reference {
            now - reference
        } else {
            0
        };
        if elapsed <= u64::MAX as u128 {
            Some(elapsed as u64)
        } else {
            None
        }
    }
}

impl Default for State {
    fn default() -> (r: State)
        ensures
            r@ is None,
    {
        State::new()
    }
}

/// Elapsed nanoseconds since the process's reference point, which the first
/// query fixes at the clock's current reading. `None` stands for elapsed time
/// beyond 64 bits, a span of some 584 years.
pub fn mach_absolute_time(state: &mut State) -> (r: Option<u64>)
    ensures
        final(state)@ is Some,
        final(state).epoch() == old(state).epoch(),
        old(state)@ is Some ==> final(state)@ == old(state)@,
        old(state)@ is None ==> r == Some(0u64),
        exists|now: u128| r == #[trigger] absolute_time_value(final(state)@->0, now),
{
    let now = state.clock_reading();
    let r = state.absolute_time_at(now);
    assert(r == absolute_time_value(state@->0, now));
    r
}

/// Queries at non-decreasing clock readings within one process report
/// non-decreasing times: the reference point stays where the first fixed it,
/// and a later query that fits in 64 bits follows an earlier one that fits
/// and reports no less.
pub proof fn lemma_absolute_time_monotonic(reference: Option<u128>, now1: u128, now2: u128)
    requires
        now1 <= now2,
    ensures
        reference_after(Some(reference_after(reference, now1)), now2) == reference_after(
            reference,
            now1,
        ),
        absolute_time_value(reference_after(reference, now1), now2) matches Some(t2) ==> (
        absolute_time_value(reference_after(reference, now1), now1) matches Some(t1) && t1
            <= t2),
{
}

/// The first query of a process reports zero: it fixes the reference point at
/// its own reading.
pub proof fn lemma_first_absolute_time_is_zero(now: u128)
    ensures
        absolute_time_value(reference_after(None, now), now) == Some(0u64),
{
}

} // verus!
