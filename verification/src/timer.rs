//! The system timer.
//!
//! The hardware counter is a free-running 64-bit microsecond count exposed
//! as two 32-bit words that are read by separate bus transactions. The model
//! keeps the full count and lets it advance by one microsecond at every word
//! read, so a read of the low word and a read of the high word can straddle
//! a wraparound of the low word exactly as they can on the bus. `read`
//! therefore re-reads the high word and retries on a mismatch, and its
//! contract pins the result to a count that the counter actually held during
//! the call.

use vstd::prelude::*;

verus! {

/// Upper bound, in model microseconds, on the time one `Timer::read` takes:
/// at most five word reads, one microsecond each.
pub const READ_SLACK: u64 = 5;

/// Upper bound, in model microseconds, on how long past its deadline
/// `spin_sleep` may return.
pub const SLEEP_SLACK: u64 = 17;

/// The system timer: the 64-bit microsecond counter made of the two
/// hardware words. Reading either word costs one bus transaction, during
/// which the counter advances by one microsecond.
pub struct Timer {
    micros: u64,
}

impl Timer {
    /// The microsecond count the counter holds now.
    pub closed spec fn spec_micros(self) -> u64 {
        self.micros
    }

    /// Returns the timer as it stands when the board comes up, with the
    /// counter at zero.
    pub fn new() -> (r: Timer)
        ensures
            r.spec_micros() == 0,
    {
        Timer { micros: 0 }
    }

    /// Time passes: the counter advances by `dt` microseconds.
    pub fn advance(&mut self, dt: u64)
        requires
            old(self).spec_micros() + dt <= u64::MAX,
        ensures
            final(self).spec_micros() == old(self).spec_micros() + dt,
    {
        self.micros = self.micros + dt;
    }

    /// Reads the low counter word; the counter advances by the one
    /// microsecond the bus transaction takes.
    fn counter_lo(&mut self) -> (r: u32)
        requires
            old(self).spec_micros() < u64::MAX,
        ensures
            r as u64 == old(self).spec_micros() & 0xFFFF_FFFF,
            final(self).spec_micros() == old(self).spec_micros() + 1,
    {
        let ghost m = self.micros;
        let r = (self.micros & 0xFFFF_FFFF) as u32;
        proof {
            assert(m & 0xFFFF_FFFF <= 0xFFFF_FFFF) by (bit_vector);
        }
        self.micros = self.micros + 1;
        r
    }

    /// Reads the high counter word; the counter advances by the one
    /// microsecond the bus transaction takes.
    fn counter_hi(&mut self) -> (r: u32)
        requires
            old(self).spec_micros() < u64::MAX,
        ensures
            r as u64 == old(self).spec_micros() >> 32,
            final(self).spec_micros() == old(self).spec_micros() + 1,
    {
        let ghost m = self.micros;
        let r = (self.micros >> 32) as u32;
        proof {
            assert((m >> 32) <= 0xFFFF_FFFF) by (bit_vector);
        }
        self.micros = self.micros + 1;
        r
    }

    /// Reads the counter: high word, low word, high word again, retrying
    /// until the two high reads agree, so a value torn by a low-word
    /// wraparound is never returned. The result is the count the counter
    /// held at the low-word read: above the count at entry and below the
    /// count at return, which is at most `READ_SLACK` past entry.
    pub fn read(&mut self) -> (r: u64)
        requires
            old(self).spec_micros() + READ_SLACK <= u64::MAX,
        ensures
            old(self).spec_micros() < r,
            r < final(self).spec_micros(),
            final(self).spec_micros() <= old(self).spec_micros() + READ_SLACK,
    {
        let ghost m0 = self.micros;
        let mut h1 = self.counter_hi();
        loop
            invariant
                m0 == old(self).spec_micros(),
                m0 + READ_SLACK <= u64::MAX,
                self.spec_micros() >= 1,
                h1 as u64 == ((self.spec_micros() - 1) as u64) >> 32,
                self.spec_micros() == m0 + 1 || self.spec_micros() == m0 + 3,
                self.spec_micros() == m0 + 3 ==> ((self.spec_micros() - 1) as u64) >> 32 == ((
                self.spec_micros() + 1) as u64) >> 32,
            decreases m0 + 3 - self.spec_micros(),
        {
            let ghost m = self.micros;
            let lo = self.counter_lo();
            let h2 = self.counter_hi();
            if h1 == h2 {
                let r = ((h1 as u64) << 32) | (lo as u64);
                proof {
                    assert(vstd::prelude::sub(m, 1) == (m - 1) as u64);
                    assert(vstd::prelude::add(m, 1) == (m + 1) as u64);
                    assert((((vstd::prelude::sub(m, 1) >> 32) << 32) | (m & 0xFFFF_FFFF)) == m)
                        by (bit_vector)
                        requires
                            m >= 1,
                            m < u64::MAX,
                            vstd::prelude::sub(m, 1) >> 32 == vstd::prelude::add(m, 1) >> 32,
                    ;
                }
                return r;
            }
            proof {
                let a: u64 = (m - 1) as u64;
                assert(vstd::prelude::add(a, 2) == (m + 1) as u64);
                assert(vstd::prelude::add(a, 4) == (m + 3) as u64);
                assert(!(a >> 32 != vstd::prelude::add(a, 2) >> 32 && vstd::prelude::add(a, 2) >> 32
                    != vstd::prelude::add(a, 4) >> 32)) by (bit_vector)
                    requires
                        a <= 0xFFFF_FFFF_FFFF_FFFB,
                ;
            }
            h1 = h2;
        }
    }
}

/// Returns the current time in microseconds, as one counter read.
pub fn current_time(timer: &mut Timer) -> (r: u64)
    requires
        old(timer).spec_micros() + READ_SLACK <= u64::MAX,
    ensures
        old(timer).spec_micros() < r,
        r < final(timer).spec_micros(),
        final(timer).spec_micros() <= old(timer).spec_micros() + READ_SLACK,
{
    timer.read()
}

/// Spins until at least `d` microseconds have passed since the call began:
/// the deadline is the first read plus `d`, and the loop polls the counter
/// until a read reaches it. Never returns early, and returns at most
/// `SLEEP_SLACK` microseconds late.
pub fn spin_sleep(timer: &mut Timer, d: u64)
    requires
        old(timer).spec_micros() + d + SLEEP_SLACK + READ_SLACK <= u64::MAX,
    ensures
        final(timer).spec_micros() >= old(timer).spec_micros() + d,
        final(timer).spec_micros() <= old(timer).spec_micros() + d + SLEEP_SLACK,
{
    let ghost m0 = timer.micros;
    let start = timer.read();
    let deadline = start + d;
    let mut now = timer.read();
    while now < deadline
        invariant
            deadline == start + d,
            m0 < start,
            start <= m0 + READ_SLACK,
            m0 + d + SLEEP_SLACK + READ_SLACK <= u64::MAX,
            timer.spec_micros() <= now + 4,
            now < timer.spec_micros(),
            now <= deadline + 8,
        decreases deadline + 8 - now,
    {
        now = timer.read();
    }
}

/// Law: sequential timer reads are monotonic. A read leaves the counter
/// strictly above its result, the counter never decreases, and a later read
/// returns strictly above the counter it started from, so without a
/// wraparound of the full 64-bit count (excluded by `read`'s precondition)
/// the later result is at least the earlier one.
pub proof fn lemma_reads_monotonic(t1: u64, m: u64, m2: u64, t2: u64)
    requires
        t1 < m,
        m <= m2,
        m2 < t2,
    ensures
        t2 >= t1,
{
}

} // verus!
