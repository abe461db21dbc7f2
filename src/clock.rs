//! Clock arithmetic on [`EgmClock`].
use vstd::prelude::*;

use core::time::Duration;
use vstd::arithmetic::div_mod::{lemma_add_mod_noop, lemma_mul_mod_noop_left};

use crate::msg::EgmClock;

verus! {

/// The length of a [`Duration`] in nanoseconds.
pub uninterp spec fn duration_nanos(d: Duration) -> nat;

/// Relies on `Duration::new`: the duration of `secs` seconds and `nanos`
/// nanoseconds. It panics only when carrying whole seconds out of `nanos`
/// overflows the seconds counter.
pub assume_specification[ core::time::Duration::new ](secs: u64, nanos: u32) -> (r: Duration)
    requires
        secs + nanos / 1_000_000_000 <= u64::MAX,
    ensures
        duration_nanos(r) == secs * 1_000_000_000 + nanos,
;

/// Relies on `Duration::as_secs`: the number of whole seconds in the duration.
pub assume_specification[ core::time::Duration::as_secs ](d: &Duration) -> (r: u64)
    ensures
        r == duration_nanos(*d) / 1_000_000_000,
;

/// Relies on `Duration::subsec_micros`: the fractional part of the duration
/// in whole microseconds.
pub assume_specification[ core::time::Duration::subsec_micros ](d: &Duration) -> (r: u32)
    ensures
        r == duration_nanos(*d) % 1_000_000_000 / 1_000,
;

/// Microseconds in a second.
pub const MICROS_PER_SEC: u64 = 1_000_000;

/// Number of values of a 32-bit millisecond timestamp.
pub const TIMESTAMP_MODULUS: u64 = 0x1_0000_0000;

/// The time point as a number of microseconds since the epoch.
pub open spec fn clock_micros(c: EgmClock) -> int {
    c.sec * 1_000_000 + c.usec
}

/// The time point as a 32-bit millisecond timestamp: `sec * 1000 + usec / 1000`,
/// wrapped around.
pub open spec fn clock_timestamp_ms(c: EgmClock) -> int {
    (c.sec * 1000 + c.usec / 1000) % 0x1_0000_0000
}

/// The time point `micros` microseconds after the epoch, with fewer than a
/// million microseconds.
pub open spec fn clock_from_micros(micros: int) -> EgmClock {
    EgmClock { sec: (micros / 1_000_000) as u64, usec: (micros % 1_000_000) as u64 }
}

/// Whether adding the duration to the time point stays within the counters.
pub open spec fn clock_add_fits(c: EgmClock, d: Duration) -> bool {
    &&& c.usec + duration_nanos(d) % 1_000_000_000 / 1_000 <= u64::MAX
    &&& (clock_micros(c) + duration_nanos(d) / 1_000) / 1_000_000 <= u64::MAX
}

/// The time point `d` after `c`, to the microsecond.
pub open spec fn clock_add(c: EgmClock, d: Duration) -> EgmClock {
    clock_from_micros(clock_micros(c) + duration_nanos(d) / 1_000)
}

/// Adding a duration keeps the count of microseconds, up to the part of the
/// duration below a microsecond, and leaves fewer than a million microseconds:
/// whole seconds are carried into the seconds counter.
pub proof fn lemma_clock_add_carries(c: EgmClock, d: Duration)
    requires
        clock_add_fits(c, d),
    ensures
        clock_micros(clock_add(c, d)) == clock_micros(c) + duration_nanos(d) / 1_000,
        clock_add(c, d).usec < 1_000_000,
{
    let t = clock_micros(c) + duration_nanos(d) / 1_000;
    assert(t == t / 1_000_000 * 1_000_000 + t % 1_000_000);
}

impl EgmClock {
    /// Create a new time point from seconds and microseconds.
    pub fn new(sec: u64, usec: u64) -> (r: EgmClock)
        ensures
            r.sec == sec,
            r.usec == usec,
    {
        EgmClock { sec, usec }
    }

    /// Get the elapsed time since the epoch as [`Duration`].
    ///
    /// Note that the duration will have only a microsecond resolution.
    pub fn elapsed_since_epoch(&self) -> (r: Duration)
        requires
            self.sec + self.usec / 1_000_000 <= u64::MAX,
        ensures
            duration_nanos(r) == clock_micros(*self) * 1_000,
    {
        let secs = self.sec + self.usec / MICROS_PER_SEC;
        let nanos = (self.usec % MICROS_PER_SEC) as u32 * 1_000;
        assert(self.usec == self.usec / 1_000_000 * 1_000_000 + self.usec % 1_000_000);
        Duration::new(secs, nanos)
    }

    /// Get the elapsed time as milliseconds since the epoch.
    ///
    /// The count wraps around to fit the 32 bits of a message header.
    pub fn as_timestamp_ms(&self) -> (r: u32)
        ensures
            r == clock_timestamp_ms(*self),
    {
        let sec_ms = (self.sec % TIMESTAMP_MODULUS) * 1_000;
        let total = sec_ms + self.usec / 1_000;
        proof {
            let m = 0x1_0000_0000int;
            lemma_mul_mod_noop_left(self.sec as int, 1000, m);
            lemma_add_mod_noop(self.sec * 1000, (self.usec / 1000) as int, m);
            lemma_add_mod_noop(sec_ms as int, (self.usec / 1000) as int, m);
        }
        (total % TIMESTAMP_MODULUS) as u32
    }

    /// The time point `right` after this one, or `None` if it does not fit
    /// the counters.
    pub fn checked_add_duration(self, right: Duration) -> (r: Option<EgmClock>)
        ensures
            clock_add_fits(self, right) ==> r == Some(clock_add(self, right)),
            !clock_add_fits(self, right) ==> r is None,
    {
        let usec = match self.usec.checked_add(right.subsec_micros() as u64) {
            Some(u) => u,
            None => return None,
        };
        let sec = match self.sec.checked_add(right.as_secs()) {
            Some(s) => s,
            None => {
                proof {
                    let n = duration_nanos(right);
                    assert(n / 1000 >= n / 1_000_000_000 * 1_000_000) by (nonlinear_arith);
                    assert((clock_micros(self) + n / 1000) / 1_000_000 >= self.sec + n
                        / 1_000_000_000) by (nonlinear_arith)
                        requires
                            n / 1000 >= n / 1_000_000_000 * 1_000_000,
                            clock_micros(self) == self.sec * 1_000_000 + self.usec,
                    ;
                }
                return None;
            },
        };
        proof {
            let n = duration_nanos(right);
            assert(n == n / 1_000_000_000 * 1_000_000_000 + n % 1_000_000_000);
            assert(n % 1_000_000_000 == n % 1_000_000_000 / 1000 * 1000 + n % 1_000_000_000 % 1000);
            assert(n / 1000 == n / 1_000_000_000 * 1_000_000 + n % 1_000_000_000 / 1000)
                by (nonlinear_arith)
                requires
                    n == n / 1_000_000_000 * 1_000_000_000 + n % 1_000_000_000,
                    n % 1_000_000_000 == n % 1_000_000_000 / 1000 * 1000 + n % 1_000_000_000 % 1000,
                    n % 1_000_000_000 % 1000 < 1000;
        }
        if sec.checked_add(usec / MICROS_PER_SEC).is_none() {
            return None;
        }
        Some(self.add_duration(right))
    }

    /// The time point `right` after this one.
    ///
    /// Microseconds that pass a whole second are carried into the seconds.
    pub fn add_duration(self, right: Duration) -> (r: EgmClock)
        requires
            clock_add_fits(self, right),
        ensures
            r == clock_add(self, right),
            r.usec < 1_000_000,
    {
        let usec = self.usec + right.subsec_micros() as u64;
        let sec = self.sec + right.as_secs() + usec / MICROS_PER_SEC;
        proof {
            let n = duration_nanos(right);
            assert(n == n / 1_000_000_000 * 1_000_000_000 + n % 1_000_000_000);
            assert(n % 1_000_000_000 == n % 1_000_000_000 / 1000 * 1000 + n % 1_000_000_000 % 1000);
            assert(n / 1000 == n / 1_000_000_000 * 1_000_000 + n % 1_000_000_000 / 1000)
                by (nonlinear_arith)
                requires
                    n == n / 1_000_000_000 * 1_000_000_000 + n % 1_000_000_000,
                    n % 1_000_000_000 == n % 1_000_000_000 / 1000 * 1000 + n % 1_000_000_000 % 1000,
                    n % 1_000_000_000 % 1000 < 1000;
        }
        EgmClock { sec, usec: usec % MICROS_PER_SEC }
    }
}

impl core::ops::Add<Duration> for EgmClock {
    type Output = EgmClock;

    fn add(self, right: Duration) -> (r: EgmClock) {
        self.add_duration(right)
    }
}

impl vstd::std_specs::ops::AddSpecImpl<Duration> for EgmClock {
    open spec fn obeys_add_spec() -> bool {
        true
    }

    open spec fn add_req(self, right: Duration) -> bool {
        clock_add_fits(self, right)
    }

    open spec fn add_spec(self, right: Duration) -> EgmClock {
        clock_add(self, right)
    }
}

impl core::ops::Add<EgmClock> for Duration {
    type Output = EgmClock;

    fn add(self, right: EgmClock) -> (r: EgmClock) {
        right.add_duration(self)
    }
}

impl vstd::std_specs::ops::AddSpecImpl<EgmClock> for Duration {
    open spec fn obeys_add_spec() -> bool {
        true
    }

    open spec fn add_req(self, right: EgmClock) -> bool {
        clock_add_fits(right, self)
    }

    open spec fn add_spec(self, right: EgmClock) -> EgmClock {
        clock_add(right, self)
    }
}

impl<'a, 'b> core::ops::Add<&'b Duration> for &'a EgmClock {
    type Output = EgmClock;

    fn add(self, right: &'b Duration) -> (r: EgmClock) {
        self.add_duration(*right)
    }
}

impl<'a, 'b> vstd::std_specs::ops::AddSpecImpl<&'b Duration> for &'a EgmClock {
    open spec fn obeys_add_spec() -> bool {
        true
    }

    open spec fn add_req(self, right: &'b Duration) -> bool {
        clock_add_fits(*self, *right)
    }

    open spec fn add_spec(self, right: &'b Duration) -> EgmClock {
        clock_add(*self, *right)
    }
}

impl<'a, 'b> core::ops::Add<&'b EgmClock> for &'a Duration {
    type Output = EgmClock;

    fn add(self, right: &'b EgmClock) -> (r: EgmClock) {
        right.add_duration(*self)
    }
}

impl<'a, 'b> vstd::std_specs::ops::AddSpecImpl<&'b EgmClock> for &'a Duration {
    open spec fn obeys_add_spec() -> bool {
        true
    }

    open spec fn add_req(self, right: &'b EgmClock) -> bool {
        clock_add_fits(*right, *self)
    }

    open spec fn add_spec(self, right: &'b EgmClock) -> EgmClock {
        clock_add(*right, *self)
    }
}

impl<'a> core::ops::AddAssign<&'a Duration> for EgmClock {
    fn add_assign(&mut self, right: &'a Duration)
        requires
            clock_add_fits(*old(self), *right),
        ensures
            *final(self) == clock_add(*old(self), *right),
    {
        *self = self.add_duration(*right);
    }
}

impl core::ops::AddAssign<Duration> for EgmClock {
    fn add_assign(&mut self, right: Duration)
        requires
            clock_add_fits(*old(self), right),
        ensures
            *final(self) == clock_add(*old(self), right),
    {
        *self = self.add_duration(right);
    }
}

} // verus!
