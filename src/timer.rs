//! Choice of prescaler and compare value for a periodic timer interrupt.
use vstd::prelude::*;

verus! {

/// Largest number of timer input counts in one interrupt period: the 16-bit
/// compare register holds `counts - 1`.
pub const MAX_PERIOD_COUNTS: u64 = 65536;

/// Millihertz in one hertz.
pub const MHZ_PER_HZ: u64 = 1000;

/// Why no timer configuration could be planned.
#[derive(Clone, Copy, Debug, PartialEq, Eq, Structural)]
pub enum ConfigError {
    /// No prescaler of the set gives a period that fits the compare register.
    NoValidPrescaler,
}

/// A planned timer: clock and target rate, the chosen prescaler and the value
/// written to the compare register. The timer fires every
/// `prescaler * (compare + 1)` clock cycles.
#[derive(Clone, Copy, Debug, PartialEq, Eq, Structural)]
pub struct TimerConfig {
    pub clock_hz: u32,
    /// Target interrupt rate in millihertz (a 3.333 s period is 300 mHz).
    pub target_mhz: u32,
    pub prescaler: u16,
    pub compare: u16,
}

/// Timer input counts per period for one prescaler: the exact ratio
/// `clock / (target * prescaler)` rounded to the nearest integer, halves up.
pub open spec fn period_counts(clock_hz: int, target_mhz: int, prescaler: int) -> int {
    (2 * clock_hz * 1000 + target_mhz * prescaler) / (2 * target_mhz * prescaler)
}

/// A period of `counts` input counts can be written to the compare register.
pub open spec fn counts_fit(counts: int) -> bool {
    1 <= counts <= MAX_PERIOD_COUNTS
}

/// Prescaler `prescalers[i]` gives a period that fits the compare register.
pub open spec fn candidate_fits(clock_hz: int, target_mhz: int, prescalers: Seq<u16>, i: int) -> bool {
    counts_fit(period_counts(clock_hz, target_mhz, prescalers[i] as int))
}

pub open spec fn abs(x: int) -> int {
    if x < 0 { -x } else { x }
}

/// Numerator of the frequency error of a period of `counts` input counts: the
/// achieved rate is `clock * 1000 / (prescaler * counts)` mHz and its distance
/// to the target is `freq_error_num / (prescaler * counts)`.
pub open spec fn freq_error_num(clock_hz: int, target_mhz: int, prescaler: int, counts: int) -> int {
    abs(clock_hz * 1000 - target_mhz * prescaler * counts)
}

/// Candidate `i` reaches a strictly smaller frequency error than candidate `j`.
pub open spec fn closer(clock_hz: int, target_mhz: int, prescalers: Seq<u16>, i: int, j: int) -> bool {
    let pi = prescalers[i] as int;
    let pj = prescalers[j] as int;
    let ci = period_counts(clock_hz, target_mhz, pi);
    let cj = period_counts(clock_hz, target_mhz, pj);
    freq_error_num(clock_hz, target_mhz, pi, ci) * (pj * cj) < freq_error_num(clock_hz, target_mhz, pj, cj) * (pi * ci)
}

/// Candidate `i` fits, no fitting candidate is closer to the target, and every
/// fitting candidate before it is farther (ties go to the earliest).
pub open spec fn best_candidate(clock_hz: int, target_mhz: int, prescalers: Seq<u16>, i: int) -> bool {
    &&& 0 <= i < prescalers.len()
    &&& candidate_fits(clock_hz, target_mhz, prescalers, i)
    &&& forall|j: int| 0 <= j < prescalers.len() && candidate_fits(clock_hz, target_mhz, prescalers, j)
            ==> !closer(clock_hz, target_mhz, prescalers, j, i)
    &&& forall|j: int| 0 <= j < i && candidate_fits(clock_hz, target_mhz, prescalers, j)
            ==> closer(clock_hz, target_mhz, prescalers, i, j)
}

/// No prescaler of the set gives a period that fits the compare register.
pub open spec fn no_candidate_fits(clock_hz: int, target_mhz: int, prescalers: Seq<u16>) -> bool {
    forall|i: int| 0 <= i < prescalers.len() ==> !candidate_fits(clock_hz, target_mhz, prescalers, i)
}

/// `cfg` is the plan for this clock, target and prescaler set: the best
/// candidate's prescaler and its rounded period.
pub open spec fn planned(clock_hz: u32, target_mhz: u32, prescalers: Seq<u16>, cfg: TimerConfig) -> bool {
    &&& cfg.clock_hz == clock_hz
    &&& cfg.target_mhz == target_mhz
    &&& exists|i: int| best_candidate(clock_hz as int, target_mhz as int, prescalers, i)
        && cfg.prescaler == prescalers[i]
        && cfg.counts() == period_counts(clock_hz as int, target_mhz as int, prescalers[i] as int)
}

impl TimerConfig {
    /// Input counts in one interrupt period.
    pub open spec fn counts(self) -> int {
        self.compare as int + 1
    }

    /// The achieved period is within half an input count of the target period.
    pub open spec fn within_half_count(self) -> bool {
        2 * freq_error_num(self.clock_hz as int, self.target_mhz as int, self.prescaler as int, self.counts())
            <= self.target_mhz as int * self.prescaler as int
    }

    /// Whole milliseconds in one period, truncated.
    pub open spec fn spec_tick_ms(self) -> int {
        self.prescaler as int * self.counts() * 1000 / self.clock_hz as int
    }

    /// The achieved rate is within 1% of the target rate.
    pub open spec fn within_one_percent(self) -> bool {
        100 * freq_error_num(self.clock_hz as int, self.target_mhz as int, self.prescaler as int, self.counts())
            <= self.target_mhz as int * self.prescaler as int * self.counts()
    }
}

impl TimerConfig {
    /// Whole milliseconds in one interrupt period,
    /// `prescaler * (compare + 1) * 1000 / clock`, truncated; the dropped
    /// fraction is a steady bias of the software clock.
    pub fn tick_increment_ms(&self) -> (r: u64)
        requires
            self.clock_hz > 0,
        ensures
            r == self.spec_tick_ms(),
    {
        let counts: u64 = self.compare as u64 + 1;
        assert(self.prescaler as int * counts <= 0xffff * 65536) by (nonlinear_arith)
            requires
                counts <= 65536,
        ;
        let cycles: u64 = self.prescaler as u64 * counts;
        cycles * MHZ_PER_HZ / self.clock_hz as u64
    }
}

proof fn lemma_closer_transitive(e1: int, d1: int, e2: int, d2: int, e3: int, d3: int)
    requires
        d1 > 0,
        d2 > 0,
        d3 > 0,
        e1 * d2 < e2 * d1,
        e2 * d3 <= e3 * d2,
    ensures
        e1 * d3 < e3 * d1,
{
    assert(e1 * d2 * d3 < e2 * d1 * d3) by (nonlinear_arith)
        requires
            e1 * d2 < e2 * d1,
            d3 > 0,
    ;
    assert(e2 * d3 * d1 <= e3 * d2 * d1) by (nonlinear_arith)
        requires
            e2 * d3 <= e3 * d2,
            d1 > 0,
    ;
    assert(e1 * d3 * d2 < e3 * d1 * d2) by (nonlinear_arith)
        requires
            e1 * d2 * d3 < e2 * d1 * d3,
            e2 * d3 * d1 <= e3 * d2 * d1,
    ;
    assert(e1 * d3 < e3 * d1) by (nonlinear_arith)
        requires
            e1 * d3 * d2 < e3 * d1 * d2,
            d2 > 0,
    ;
}

proof fn lemma_not_closer_transitive(e1: int, d1: int, e2: int, d2: int, e3: int, d3: int)
    requires
        d1 > 0,
        d2 > 0,
        d3 > 0,
        e1 * d2 < e2 * d1,
        !(e3 * d2 < e2 * d3),
    ensures
        e1 * d3 < e3 * d1,
{
    lemma_closer_transitive(e1, d1, e2, d2, e3, d3);
}

/// Rounding to the nearest count leaves at most half a count of error.
proof fn lemma_rounding_error(x: int, d: int)
    requires
        x >= 0,
        d > 0,
    ensures
        2 * abs(x - d * ((2 * x + d) / (2 * d))) <= d,
{
    let c = (2 * x + d) / (2 * d);
    vstd::arithmetic::div_mod::lemma_fundamental_div_mod(2 * x + d, 2 * d);
    let r = (2 * x + d) % (2 * d);
    assert(0 <= r < 2 * d);
    assert(2 * d * c == 2 * (d * c)) by (nonlinear_arith);
}

/// Frequency error and period length of one candidate, computed exactly.
fn candidate(clock_hz: u32, target_mhz: u32, prescaler: u16) -> (r: (u64, u128, u128))
    requires
        target_mhz > 0,
        prescaler > 0,
    ensures
        r.0 == period_counts(clock_hz as int, target_mhz as int, prescaler as int),
        counts_fit(r.0 as int) ==> r.1 == freq_error_num(clock_hz as int, target_mhz as int, prescaler as int, r.0 as int),
        counts_fit(r.0 as int) ==> r.2 == prescaler as int * r.0,
        counts_fit(r.0 as int) ==> r.1 <= 0xffff_ffff_ffff_ffff,
        counts_fit(r.0 as int) ==> r.2 <= 0xffff * 65536,
{
    assert(target_mhz as int * prescaler as int <= 0xffff_ffff * 0xffff) by (nonlinear_arith);
    let rate: u64 = target_mhz as u64 * prescaler as u64;
    assert(rate <= 0xffff_ffff * 0xffff) by (nonlinear_arith)
        requires
            rate == target_mhz as int * prescaler as int,
    ;
    assert(rate > 0) by (nonlinear_arith)
        requires
            rate == target_mhz as int * prescaler as int,
            target_mhz > 0,
            prescaler > 0,
    ;
    let scaled: u64 = clock_hz as u64 * MHZ_PER_HZ;
    let counts: u64 = (2 * scaled + rate) / (2 * rate);
    assert(2 * target_mhz as int * prescaler as int == 2 * rate) by (nonlinear_arith)
        requires
            rate == target_mhz as int * prescaler as int,
    ;
    assert(counts == period_counts(clock_hz as int, target_mhz as int, prescaler as int));
    if counts < 1 || counts > MAX_PERIOD_COUNTS {
        return (counts, 0, 0);
    }
    assert(rate as int * counts as int <= 0xffff_ffff * 0xffff * 65536) by (nonlinear_arith)
        requires
            rate <= 0xffff_ffff * 0xffff,
            counts <= 65536,
    ;
    let span: u128 = rate as u128 * counts as u128;
    assert(span == target_mhz as int * prescaler as int * counts) by (nonlinear_arith)
        requires
            span == rate * counts,
            rate == target_mhz as int * prescaler as int,
    ;
    let err: u128 = if scaled as u128 >= span {
        scaled as u128 - span
    } else {
        span - scaled as u128
    };
    assert(prescaler as int * counts as int <= 0xffff * 65536) by (nonlinear_arith)
        requires
            counts <= 65536,
    ;
    let len: u128 = prescaler as u128 * counts as u128;
    assert(len <= 0xffff * 65536) by (nonlinear_arith)
        requires
            len == prescaler * counts,
            counts <= 65536,
    ;
    (counts, err, len)
}

/// Plans the timer for a target rate: among the prescalers, the one whose
/// rounded period fits the compare register and whose achieved rate is closest
/// to the target (the earliest on a tie). Fails when no prescaler fits.
pub fn plan(clock_hz: u32, target_mhz: u32, prescalers: &[u16]) -> (r: Result<TimerConfig, ConfigError>)
    requires
        clock_hz > 0,
        target_mhz > 0,
        forall|i: int| 0 <= i < prescalers@.len() ==> prescalers@[i] > 0,
    ensures
        r is Err <==> no_candidate_fits(clock_hz as int, target_mhz as int, prescalers@),
        r matches Ok(cfg) ==> planned(clock_hz, target_mhz, prescalers@, cfg),
        r matches Ok(cfg) ==> cfg.within_half_count(),
        r matches Ok(cfg) ==> (cfg.counts() >= 50 ==> cfg.within_one_percent()),
{
    let ghost ps = prescalers@;
    let ghost ck = clock_hz as int;
    let ghost tg = target_mhz as int;
    // (index, counts, error numerator, period length) of the best so far
    let mut best: Option<(usize, u64, u128, u128)> = None;
    let mut i: usize = 0;
    while i < prescalers.len()
        invariant
            i <= ps.len(),
            ps == prescalers@,
            ck == clock_hz as int,
            tg == target_mhz as int,
            tg > 0,
            forall|k: int| 0 <= k < ps.len() ==> ps[k] > 0,
            best is None ==> forall|j: int| 0 <= j < i ==> !candidate_fits(ck, tg, ps, j),
            best matches Some(b) ==> {
                &&& b.0 < i
                &&& candidate_fits(ck, tg, ps, b.0 as int)
                &&& b.1 == period_counts(ck, tg, ps[b.0 as int] as int)
                &&& b.2 == freq_error_num(ck, tg, ps[b.0 as int] as int, b.1 as int)
                &&& b.3 == ps[b.0 as int] as int * b.1
                &&& b.2 <= 0xffff_ffff_ffff_ffff
                &&& b.3 <= 0xffff * 65536
                &&& forall|j: int| 0 <= j < i && candidate_fits(ck, tg, ps, j) ==> !closer(ck, tg, ps, j, b.0 as int)
                &&& forall|j: int| 0 <= j < b.0 && candidate_fits(ck, tg, ps, j) ==> closer(ck, tg, ps, b.0 as int, j)
            },
        decreases prescalers.len() - i,
    {
        let p = prescalers[i];
        let (counts, err, len) = candidate(clock_hz, target_mhz, p);
        if 1 <= counts && counts <= MAX_PERIOD_COUNTS {
            assert(candidate_fits(ck, tg, ps, i as int));
            assert(len > 0) by (nonlinear_arith)
                requires
                    len == p as int * counts,
                    p > 0,
                    counts >= 1,
            ;
            match best {
                None => {
                    best = Some((i, counts, err, len));
                },
                Some(b) => {
                    assert(b.3 > 0) by (nonlinear_arith)
                        requires
                            b.3 == ps[b.0 as int] as int * b.1,
                            ps[b.0 as int] > 0,
                            b.1 >= 1,
                    ;
                    assert(err * b.3 <= 0xffff_ffff_ffff_ffff * (0xffff * 65536)) by (nonlinear_arith)
                        requires
                            err <= 0xffff_ffff_ffff_ffff,
                            b.3 <= 0xffff * 65536,
                    ;
                    assert(b.2 * len <= 0xffff_ffff_ffff_ffff * (0xffff * 65536)) by (nonlinear_arith)
                        requires
                            b.2 <= 0xffff_ffff_ffff_ffff,
                            len <= 0xffff * 65536,
                    ;
                    if err * b.3 < b.2 * len {
                        assert(closer(ck, tg, ps, i as int, b.0 as int));
                        assert forall|j: int| 0 <= j < i + 1 && candidate_fits(ck, tg, ps, j)
                            implies !closer(ck, tg, ps, j, i as int) by {
                            if j < i {
                                let pj = ps[j] as int;
                                let cj = period_counts(ck, tg, pj);
                                assert(pj * cj > 0) by (nonlinear_arith)
                                    requires pj > 0, cj >= 1;
                                if closer(ck, tg, ps, j, i as int) {
                                    lemma_closer_transitive(
                                        freq_error_num(ck, tg, pj, cj), pj * cj,
                                        err as int, len as int,
                                        b.2 as int, b.3 as int,
                                    );
                                }
                            }
                        }
                        assert forall|j: int| 0 <= j < i && candidate_fits(ck, tg, ps, j)
                            implies closer(ck, tg, ps, i as int, j) by {
                            let pj = ps[j] as int;
                            let cj = period_counts(ck, tg, pj);
                            assert(pj * cj > 0) by (nonlinear_arith)
                                requires pj > 0, cj >= 1;
                            lemma_not_closer_transitive(
                                err as int, len as int,
                                b.2 as int, b.3 as int,
                                freq_error_num(ck, tg, pj, cj), pj * cj,
                            );
                        }
                        best = Some((i, counts, err, len));
                    } else {
                        assert(!closer(ck, tg, ps, i as int, b.0 as int));
                    }
                },
            }
        } else {
            assert(!candidate_fits(ck, tg, ps, i as int));
        }
        i += 1;
    }
    match best {
        None => Err(ConfigError::NoValidPrescaler),
        Some(b) => {
            let cfg = TimerConfig {
                clock_hz,
                target_mhz,
                prescaler: prescalers[b.0],
                compare: (b.1 - 1) as u16,
            };
            assert(best_candidate(ck, tg, ps, b.0 as int));
            proof {
                let d = tg * (cfg.prescaler as int);
                assert(cfg.prescaler > 0);
                assert(d > 0) by (nonlinear_arith)
                    requires tg > 0, cfg.prescaler > 0, d == tg * (cfg.prescaler as int);
                assert(2 * ck * 1000 + tg * cfg.prescaler as int == 2 * (ck * 1000) + d);
                assert(2 * tg * cfg.prescaler as int == 2 * d) by (nonlinear_arith)
                    requires d == tg * (cfg.prescaler as int);
                lemma_rounding_error(ck * 1000, d);
                assert(tg * cfg.prescaler as int * cfg.counts() == d * cfg.counts()) by (nonlinear_arith)
                    requires d == tg * (cfg.prescaler as int);
                assert(cfg.within_half_count());
                if cfg.counts() >= 50 {
                    assert(d * 50 <= d * cfg.counts()) by (nonlinear_arith)
                        requires cfg.counts() >= 50, d > 0;
                }
            }
            Ok(cfg)
        },
    }
}

/// The prescalers of the 16-bit Timer1.
pub open spec fn timer1_prescalers() -> Seq<u16> {
    seq![1u16, 8, 64, 256, 1024]
}

/// Clock-select bits (CS12:10 of TCCR1B) for a Timer1 prescaler.
pub open spec fn clock_select(prescaler: int) -> Option<u8> {
    if prescaler == 1 {
        Some(1u8)
    } else if prescaler == 8 {
        Some(2u8)
    } else if prescaler == 64 {
        Some(3u8)
    } else if prescaler == 256 {
        Some(4u8)
    } else if prescaler == 1024 {
        Some(5u8)
    } else {
        None
    }
}

/// WGM12 in TCCR1B: clear the counter on a compare match with OCR1A.
pub const TCCR1B_CTC: u8 = 0b0000_1000;

/// OCIE1A in TIMSK1: interrupt on a compare match with OCR1A.
pub const TIMSK1_OCIE1A: u8 = 0b0000_0010;

/// The values written to Timer1's registers for a plan.
#[derive(Clone, Copy, Debug, PartialEq, Eq, Structural)]
pub struct TimerRegisters {
    pub tccr1a: u8,
    pub tccr1b: u8,
    pub ocr1a: u16,
    pub timsk1: u8,
}

/// Registers for compare-match mode at the plan's period, with its interrupt enabled.
pub open spec fn registers_for(cfg: TimerConfig, cs: u8) -> TimerRegisters {
    TimerRegisters { tccr1a: 0, tccr1b: (TCCR1B_CTC + cs) as u8, ocr1a: cfg.compare, timsk1: TIMSK1_OCIE1A }
}

/// Timer1's register values for a plan; `None` when its prescaler is not one
/// that Timer1 has.
pub fn timer1_registers(cfg: &TimerConfig) -> (r: Option<TimerRegisters>)
    ensures
        r == match clock_select(cfg.prescaler as int) {
            Some(cs) => Some(registers_for(*cfg, cs)),
            None => None,
        },
{
    let cs: u8 = if cfg.prescaler == 1 {
        1
    } else if cfg.prescaler == 8 {
        2
    } else if cfg.prescaler == 64 {
        3
    } else if cfg.prescaler == 256 {
        4
    } else if cfg.prescaler == 1024 {
        5
    } else {
        return None;
    };
    Some(TimerRegisters { tccr1a: 0, tccr1b: TCCR1B_CTC + cs, ocr1a: cfg.compare, timsk1: TIMSK1_OCIE1A })
}

} // verus!
