//! Busy-wait delays on the RISC-V machine-mode cycle counter (`mcycle`).

use vstd::prelude::*;

verus! {

/// Number of values a 64-bit counter takes before it wraps.
pub open spec fn counter_modulus() -> int {
    0x1_0000_0000_0000_0000
}

/// Cycles from counter value `start` to counter value `now`, counted modulo 2^64
/// so that one wrap of the counter in between is allowed for.
pub open spec fn elapsed(start: u64, now: u64) -> int {
    (now as int - start as int) % counter_modulus()
}

/// Whole cycles in `us` microseconds at `frequency` Hz, rounded down.
pub open spec fn us_to_cycles(us: u64, frequency: u32) -> int {
    (us as int * frequency as int) / 1_000_000
}

/// Whole cycles in `ms` milliseconds at `frequency` Hz, rounded down.
pub open spec fn ms_to_cycles(ms: u64, frequency: u32) -> int {
    (ms as int * frequency as int) / 1_000
}

/// Relies on riscv::register::mcycle::read64: the current value of the
/// hart's free-running cycle counter. Nothing is promised of the value. The
/// riscv crate reads the counter only when built for a RISC-V target; on any
/// other target its stub panics.
#[verifier::external_body]
fn read_mcycle() -> (r: u64) {
    riscv::register::mcycle::read64()
}

/// Use RISCV machine-mode cycle counter (`mcycle`) as a delay provider.
///
/// This can be used for high resolution delays for device initialization,
/// bit-banging protocols, etc
#[derive(Clone, Copy)]
pub struct McycleDelay {
    core_frequency: u32,
}

impl McycleDelay {
    /// The core clock frequency in Hz that the provider converts times with.
    pub closed spec fn frequency(self) -> u32 {
        self.core_frequency
    }

    /// Constructs the delay provider based on core clock frequency `freq`
    pub fn new(freq: u32) -> (r: Self)
        ensures
            r.frequency() == freq,
    {
        McycleDelay { core_frequency: freq }
    }

    /// The core clock frequency in Hz.
    pub fn core_frequency(&self) -> (r: u32)
        ensures
            r == self.frequency(),
    {
        self.core_frequency
    }

    /// Retrieves the cycle count for the current HART
    pub fn get_cycle_count() -> u64 {
        read_mcycle()
    }

    /// Cycles from counter value `start` to counter value `now`, with
    /// wraparound.
    pub fn elapsed_cycles(start: u64, now: u64) -> (r: u64)
        ensures
            r as int == elapsed(start, now),
    {
        now.wrapping_sub(start)
    }

    /// Returns the number of elapsed cycles since `previous_cycle_count`
    pub fn cycles_since(previous_cycle_count: u64) -> u64 {
        McycleDelay::elapsed_cycles(previous_cycle_count, read_mcycle())
    }

    /// Whether a wait for `cycle_count` cycles that started at counter value
    /// `start` is over at counter value `now`: more than `cycle_count` cycles
    /// have elapsed.
    pub fn wait_finished(start: u64, now: u64, cycle_count: u64) -> (r: bool)
        ensures
            r == (elapsed(start, now) > cycle_count),
    {
        McycleDelay::elapsed_cycles(start, now) > cycle_count
    }

    /// Performs a busy-wait loop until the number of cycles `cycle_count` has
    /// elapsed: until the counter, read once per pass, is more than
    /// `cycle_count` past its value at the start. The loop gives up after
    /// `u64::MAX` passes, which take longer than any wait that a 64-bit
    /// counter can measure.
    pub fn delay_cycles(cycle_count: u64) {
        let start_cycle_count = McycleDelay::get_cycle_count();
        let mut passes: u64 = 0;
        while passes < u64::MAX
            decreases u64::MAX - passes,
        {
            let now = McycleDelay::get_cycle_count();
            if McycleDelay::wait_finished(start_cycle_count, now, cycle_count) {
                break;
            }
            passes = passes + 1;
        }
    }

    /// The number of whole cycles in `us` microseconds, rounded down.
    pub fn us_to_cycles(&self, us: u64) -> (r: u64)
        requires
            us as int * self.frequency() as int <= u64::MAX,
        ensures
            r as int == us_to_cycles(us, self.frequency()),
    {
        (us * (self.core_frequency as u64)) / 1_000_000
    }

    /// The number of whole cycles in `ms` milliseconds, rounded down.
    pub fn ms_to_cycles(&self, ms: u64) -> (r: u64)
        requires
            ms as int * self.frequency() as int <= u64::MAX,
        ensures
            r as int == ms_to_cycles(ms, self.frequency()),
    {
        (ms * (self.core_frequency as u64)) / 1_000
    }

    /// Performs a busy-wait loop until the number of microseconds `us` has elapsed
    pub fn delay_us(&mut self, us: u64)
        requires
            us as int * old(self).frequency() as int <= u64::MAX,
        ensures
            *final(self) == *old(self),
    {
        McycleDelay::delay_cycles(self.us_to_cycles(us));
    }

    /// Performs a busy-wait loop until the number of milliseconds `ms` has elapsed
    pub fn delay_ms(&mut self, ms: u64)
        requires
            ms as int * old(self).frequency() as int <= u64::MAX,
        ensures
            *final(self) == *old(self),
    {
        McycleDelay::delay_cycles(self.ms_to_cycles(ms));
    }
}

/// When the counter has wrapped between `start` and `now` (`now < start`), the
/// elapsed count is what remained up to the wrap plus what came after it.
pub proof fn lemma_elapsed_across_wrap(start: u64, now: u64)
    ensures
        now >= start ==> elapsed(start, now) == now - start,
        now < start ==> elapsed(start, now) == (u64::MAX - start) + now + 1,
        0 <= elapsed(start, now) <= u64::MAX,
{
}

/// A delay of `2 * t` microseconds waits for at least as many cycles as one of
/// `t`, and each waits for more cycles than the rounded-down count, hence at
/// least as long as requested: more than `us_to_cycles` whole cycles are more
/// than `us * frequency / 1_000_000` cycles.
pub proof fn lemma_delay_us_monotonic(t: u64, frequency: u32)
    requires
        2 * t as int <= u64::MAX,
        2 * t as int * frequency as int <= u64::MAX,
    ensures
        us_to_cycles((2 * t) as u64, frequency) >= us_to_cycles(t, frequency),
        (us_to_cycles(t, frequency) + 1) * 1_000_000 > t as int * frequency as int,
        (us_to_cycles((2 * t) as u64, frequency) + 1) * 1_000_000 > 2 * t as int * frequency as int,
{
    let a = t as int * frequency as int;
    assert(((2 * t) as u64) as int == 2 * t as int);
    assert(((2 * t) as u64) as int * frequency as int == 2 * a) by (nonlinear_arith)
        requires
            ((2 * t) as u64) as int == 2 * t as int,
            a == t as int * frequency as int,
    ;
    assert(a / 1_000_000 <= (2 * a) / 1_000_000) by (nonlinear_arith)
        requires
            a >= 0,
    ;
    assert((a / 1_000_000 + 1) * 1_000_000 > a) by (nonlinear_arith)
        requires
            a >= 0,
    ;
    assert(((2 * a) / 1_000_000 + 1) * 1_000_000 > 2 * a) by (nonlinear_arith)
        requires
            a >= 0,
    ;
}

/// A delay of `2 * t` milliseconds waits for at least as many cycles as one
/// of `t`, and each waits for more cycles than `ms * frequency / 1_000`.
pub proof fn lemma_delay_ms_monotonic(t: u64, frequency: u32)
    requires
        2 * t as int <= u64::MAX,
        2 * t as int * frequency as int <= u64::MAX,
    ensures
        ms_to_cycles((2 * t) as u64, frequency) >= ms_to_cycles(t, frequency),
        (ms_to_cycles(t, frequency) + 1) * 1_000 > t as int * frequency as int,
        (ms_to_cycles((2 * t) as u64, frequency) + 1) * 1_000 > 2 * t as int * frequency as int,
{
    let a = t as int * frequency as int;
    assert(((2 * t) as u64) as int == 2 * t as int);
    assert(((2 * t) as u64) as int * frequency as int == 2 * a) by (nonlinear_arith)
        requires
            ((2 * t) as u64) as int == 2 * t as int,
            a == t as int * frequency as int,
    ;
    assert(a / 1_000 <= (2 * a) / 1_000) by (nonlinear_arith)
        requires
            a >= 0,
    ;
    assert((a / 1_000 + 1) * 1_000 > a) by (nonlinear_arith)
        requires
            a >= 0,
    ;
    assert(((2 * a) / 1_000 + 1) * 1_000 > 2 * a) by (nonlinear_arith)
        requires
            a >= 0,
    ;
}

} // verus!
