//! Decimation of timer ticks into sensor reads.
use vstd::prelude::*;

verus! {

/// Millihertz in one kilohertz: a rate in mHz times a span in ms, over this,
/// is a count of periods.
pub const MHZ_MS_PER_PERIOD: u64 = 1_000_000;

/// Ticks per read: the desired interval over the tick period, rounded up so
/// that reads are never closer than the desired interval, and at least one.
pub open spec fn spec_threshold(desired_interval_ms: int, tick_rate_mhz: int) -> int {
    let k = (desired_interval_ms * tick_rate_mhz + 999_999) / 1_000_000;
    if k < 1 { 1 } else { k }
}

/// The decimation threshold `K = ceil(desired_interval_ms / tick_period_ms)`
/// for a timer ticking at `tick_rate_mhz` millihertz (its period is
/// `1_000_000 / tick_rate_mhz` ms), and at least one. Pass the rate the timer
/// was planned for: the achieved period differs from it only by the planner's
/// rounding, which would otherwise push an exact ratio such as 10 s over
/// 3.333 s up to the next integer.
pub fn decimation_threshold(desired_interval_ms: u32, tick_rate_mhz: u32) -> (r: u64)
    ensures
        r == spec_threshold(desired_interval_ms as int, tick_rate_mhz as int),
        r >= 1,
{
    assert(desired_interval_ms as int * tick_rate_mhz as int <= 0xffff_ffff * 0xffff_ffff) by (nonlinear_arith);
    let span: u64 = desired_interval_ms as u64 * tick_rate_mhz as u64;
    let k = (span + (MHZ_MS_PER_PERIOD - 1)) / MHZ_MS_PER_PERIOD;
    if k < 1 { 1 } else { k }
}

/// Counts ticks and signals a read on every `K`th one.
pub struct SamplingScheduler {
    sub_ticks: u64,
    threshold: u64,
}

impl SamplingScheduler {
    /// Ticks counted since the last read.
    pub closed spec fn sub_ticks(self) -> nat {
        self.sub_ticks as nat
    }

    /// The decimation threshold `K`.
    pub closed spec fn threshold(self) -> nat {
        self.threshold as nat
    }

    pub open spec fn wf(self) -> bool {
        0 <= self.sub_ticks() < self.threshold()
    }

    /// A read is due on the next tick.
    pub open spec fn fires_next(self) -> bool {
        self.sub_ticks() + 1 == self.threshold()
    }

    /// The scheduler after one tick.
    pub closed spec fn ticked_once(self) -> SamplingScheduler {
        SamplingScheduler {
            sub_ticks: if self.sub_ticks + 1 == self.threshold { 0 } else { (self.sub_ticks + 1) as u64 },
            threshold: self.threshold,
        }
    }

    /// The scheduler after `n` more ticks.
    pub open spec fn ticked(self, n: nat) -> SamplingScheduler
        decreases n,
    {
        if n == 0 {
            self
        } else {
            self.ticked((n - 1) as nat).ticked_once()
        }
    }

    /// Reads signalled during the next `n` ticks.
    pub open spec fn reads_in(self, n: nat) -> nat
        decreases n,
    {
        if n == 0 {
            0
        } else {
            self.reads_in((n - 1) as nat) + if self.ticked((n - 1) as nat).fires_next() { 1nat } else { 0nat }
        }
    }

    /// An idle scheduler (no ticks counted) with threshold `K`.
    pub fn new(threshold: u64) -> (r: SamplingScheduler)
        requires
            threshold >= 1,
        ensures
            r.wf(),
            r.sub_ticks() == 0,
            r.threshold() == threshold,
    {
        SamplingScheduler { sub_ticks: 0, threshold }
    }

    /// Counts one tick; returns true exactly when this tick is the `K`th since
    /// the last read, and then starts counting again from zero.
    pub fn on_tick(&mut self) -> (r: bool)
        requires
            old(self).wf(),
        ensures
            final(self).wf(),
            *final(self) == old(self).ticked_once(),
            r == old(self).fires_next(),
            final(self).threshold() == old(self).threshold(),
            final(self).sub_ticks() == (old(self).sub_ticks() + 1) % old(self).threshold(),
    {
        proof {
            self.lemma_ticked_once();
        }
        if self.sub_ticks + 1 == self.threshold {
            self.sub_ticks = 0;
            true
        } else {
            self.sub_ticks = self.sub_ticks + 1;
            false
        }
    }

    /// Ticks counted since the last read.
    pub fn pending_ticks(&self) -> (r: u64)
        ensures
            r == self.sub_ticks(),
    {
        self.sub_ticks
    }

    /// The decimation threshold `K`.
    pub fn threshold_ticks(&self) -> (r: u64)
        ensures
            r == self.threshold(),
    {
        self.threshold
    }

    proof fn lemma_ticked_once(self)
        requires
            self.wf(),
        ensures
            self.ticked_once().wf(),
            self.ticked_once().threshold() == self.threshold(),
            self.ticked_once().sub_ticks() == (self.sub_ticks() + 1) % self.threshold(),
    {
        if self.sub_ticks() + 1 == self.threshold() {
            vstd::arithmetic::div_mod::lemma_mod_self_0(self.threshold() as int);
        } else {
            vstd::arithmetic::div_mod::lemma_small_mod(self.sub_ticks() + 1, self.threshold());
        }
    }

    /// After `n` ticks the count is `(c + n) mod K`, and `(c + n) / K` reads
    /// have been signalled, where `c` is the count to start with.
    pub proof fn lemma_reads_counted(self, n: nat)
        requires
            self.wf(),
        ensures
            self.ticked(n).wf(),
            self.ticked(n).threshold() == self.threshold(),
            self.ticked(n).sub_ticks() == (self.sub_ticks() + n) % self.threshold(),
            self.reads_in(n) == (self.sub_ticks() + n) / self.threshold(),
        decreases n,
    {
        if n == 0 {
            vstd::arithmetic::div_mod::lemma_small_mod(self.sub_ticks(), self.threshold());
            vstd::arithmetic::div_mod::lemma_basic_div(self.sub_ticks() as int, self.threshold() as int);
        } else {
            let m = (n - 1) as nat;
            self.lemma_reads_counted(m);
            let prev = self.ticked(m);
            prev.lemma_ticked_once();
            let k = self.threshold() as int;
            let x: int = self.sub_ticks() as int + m as int;
            vstd::arithmetic::div_mod::lemma_fundamental_div_mod(x, k);
            assert(x == (x / k) * k + x % k) by (nonlinear_arith)
                requires x == k * (x / k) + x % k;
            if x % k + 1 == k {
                assert((x / k + 1) * k == (x / k) * k + k) by (nonlinear_arith);
                vstd::arithmetic::div_mod::lemma_fundamental_div_mod_converse(x + 1, k, x / k + 1, 0);
            } else {
                vstd::arithmetic::div_mod::lemma_fundamental_div_mod_converse(x + 1, k, x / k, x % k + 1);
            }
        }
    }

    /// From an idle scheduler, `n` ticks signal exactly `n / K` reads, and any
    /// `K` consecutive ticks signal exactly one.
    pub proof fn lemma_exactly_once_per_threshold(self, n: nat)
        requires
            self.wf(),
            self.sub_ticks() == 0,
        ensures
            self.reads_in(n) == n / self.threshold(),
            self.reads_in(n + self.threshold()) == self.reads_in(n) + 1,
    {
        let k = self.threshold() as int;
        self.lemma_reads_counted(n);
        self.lemma_reads_counted(n + self.threshold());
        vstd::arithmetic::div_mod::lemma_div_plus_one(n as int, k);
    }
}

} // verus!
