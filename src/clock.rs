//! Millisecond clock kept in software, advanced once per timer interrupt.
use vstd::prelude::*;
use crate::timer::TimerConfig;

verus! {

/// One more than the largest `u32`: the clock counts modulo this.
pub open spec fn wrap() -> int {
    0x1_0000_0000
}

/// Milliseconds from `earlier` to `later` on a counter that wraps at 32 bits.
pub open spec fn spec_elapsed(earlier: u32, later: u32) -> int {
    (later as int - earlier as int) % wrap()
}

/// Wraparound-safe distance between two clock readings; correct whenever
/// less than 2^32 ms (about 49.7 days) separate them.
pub fn elapsed_ms(earlier: u32, later: u32) -> (r: u32)
    ensures
        r == spec_elapsed(earlier, later),
{
    later.wrapping_sub(earlier)
}

/// A millisecond counter advanced by a fixed increment on every tick and
/// wrapping silently at 32 bits.
pub struct SoftwareClock {
    counter_ms: u32,
    increment_ms: u32,
}

impl SoftwareClock {
    pub closed spec fn counter(self) -> u32 {
        self.counter_ms
    }

    pub closed spec fn increment(self) -> u32 {
        self.increment_ms
    }

    /// The clock after `n` more ticks.
    pub closed spec fn ticked(self, n: nat) -> SoftwareClock
        decreases n,
    {
        if n == 0 {
            self
        } else {
            let prev = self.ticked((n - 1) as nat);
            SoftwareClock {
                counter_ms: ((prev.counter_ms as int + prev.increment_ms as int) % wrap()) as u32,
                increment_ms: prev.increment_ms,
            }
        }
    }

    /// A clock at zero that advances by `increment_ms` per tick.
    pub fn new(increment_ms: u32) -> (r: SoftwareClock)
        ensures
            r.counter() == 0,
            r.increment() == increment_ms,
    {
        SoftwareClock { counter_ms: 0, increment_ms }
    }

    /// A clock at zero for a planned timer: each tick adds the period in
    /// whole milliseconds (reduced modulo 2^32, which the counter does anyway).
    pub fn for_config(cfg: &TimerConfig) -> (r: SoftwareClock)
        requires
            cfg.clock_hz > 0,
        ensures
            r.counter() == 0,
            r.increment() == cfg.spec_tick_ms() % wrap(),
    {
        let ms = cfg.tick_increment_ms();
        SoftwareClock::new((ms % 0x1_0000_0000) as u32)
    }

    /// One timer tick: the counter moves on by the increment, wrapping at 32 bits.
    pub fn advance(&mut self)
        ensures
            *final(self) == old(self).ticked(1),
            final(self).counter() == (old(self).counter() + old(self).increment()) % wrap(),
            final(self).increment() == old(self).increment(),
    {
        proof {
            reveal_with_fuel(SoftwareClock::ticked, 2);
        }
        self.counter_ms = self.counter_ms.wrapping_add(self.increment_ms);
    }

    /// The current reading in milliseconds.
    pub fn now(&self) -> (r: u32)
        ensures
            r == self.counter(),
    {
        self.counter_ms
    }

    /// Milliseconds added per tick.
    pub fn increment_ms(&self) -> (r: u32)
        ensures
            r == self.increment(),
    {
        self.increment_ms
    }

    /// After `n` ticks the counter has moved on by `n` increments, modulo 2^32.
    pub proof fn lemma_ticked(self, n: nat)
        ensures
            self.ticked(n).increment() == self.increment(),
            self.ticked(n).counter() == (self.counter() + n * self.increment()) % wrap(),
        decreases n,
    {
        if n > 0 {
            self.lemma_ticked((n - 1) as nat);
            let a = self.counter() + (n - 1) * self.increment();
            vstd::arithmetic::div_mod::lemma_add_mod_noop(a, self.increment() as int, wrap());
            vstd::arithmetic::div_mod::lemma_mod_twice(self.increment() as int, wrap());
            vstd::arithmetic::div_mod::lemma_add_mod_noop(a % wrap(), self.increment() as int, wrap());
            assert(a + self.increment() == self.counter() + n * self.increment()) by (nonlinear_arith)
                requires a == self.counter() + (n - 1) * self.increment();
        }
    }

    /// One more tick after `n` ticks is `n + 1` ticks: `advance` called `n`
    /// times from this clock leaves `self.ticked(n)`.
    pub proof fn lemma_ticked_step(self, n: nat)
        ensures
            self.ticked(n).ticked(1) == self.ticked(n + 1),
    {
        assert(self.ticked(n).ticked(0) == self.ticked(n));
    }

    /// Readings taken `t1` and `t2` ticks from now (`t1 <= t2`) are
    /// `(t2 - t1)` increments apart, modulo 2^32.
    pub proof fn lemma_elapsed_between_ticks(self, t1: nat, t2: nat)
        requires
            t1 <= t2,
        ensures
            spec_elapsed(self.ticked(t1).counter(), self.ticked(t2).counter())
                == ((t2 - t1) * self.increment()) % wrap(),
    {
        self.lemma_ticked(t1);
        self.lemma_ticked(t2);
        let a = self.counter() + t1 * self.increment();
        let b = self.counter() + t2 * self.increment();
        assert(b - a == (t2 - t1) * self.increment()) by (nonlinear_arith)
            requires
                a == self.counter() + t1 * self.increment(),
                b == self.counter() + t2 * self.increment(),
                t1 <= t2;
        vstd::arithmetic::div_mod::lemma_sub_mod_noop(b, a, wrap());
    }
}

} // verus!
