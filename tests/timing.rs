use temp_monitor::clock::{elapsed_ms, SoftwareClock};
use temp_monitor::scheduler::{decimation_threshold, SamplingScheduler};
use temp_monitor::monitor::setup_timer;
use temp_monitor::timer::{plan, timer1_registers, ConfigError, TimerConfig, TimerRegisters};

const PRESCALERS: [u16; 5] = [1, 8, 64, 256, 1024];

fn within_percent(cfg: &TimerConfig, percent: u128) -> bool {
    let scaled = cfg.clock_hz as u128 * 1000;
    let span = cfg.target_mhz as u128 * cfg.prescaler as u128 * (cfg.compare as u128 + 1);
    let err = if scaled > span { scaled - span } else { span - scaled };
    100 * err <= percent * span
}

#[test]
fn plan_three_and_a_third_seconds() {
    let cfg = plan(16_000_000, 300, &PRESCALERS).unwrap();
    assert_eq!(cfg.prescaler, 1024);
    assert_eq!(cfg.compare, 52082);
    assert!(within_percent(&cfg, 1));
    assert_eq!(cfg.tick_increment_ms(), 3333);
    assert_eq!(decimation_threshold(10_000, cfg.target_mhz), 3);
}

#[test]
fn plan_three_point_three_seconds() {
    let cfg = plan(16_000_000, 303, &[1024]).unwrap();
    assert_eq!(cfg.prescaler, 1024);
    assert_eq!(cfg.compare, 51567);
    assert!(within_percent(&cfg, 1));
    assert_eq!(cfg.tick_increment_ms(), 3300);
}

#[test]
fn plan_prefers_exact_and_earliest() {
    let cfg = plan(16_000_000, 1_000_000, &PRESCALERS).unwrap();
    assert_eq!(cfg.prescaler, 1);
    assert_eq!(cfg.compare, 15999);
    let cfg = plan(16_000_000, 1_000_000, &[1024, 256, 64]).unwrap();
    assert_eq!(cfg.prescaler, 64);
    assert_eq!(cfg.compare, 249);
}

#[test]
fn plan_rounds_to_nearest_count() {
    // 16 MHz / (1 Hz * 256) = 62500 counts exactly; at 1024, 15625 counts
    let cfg = plan(16_000_000, 1000, &[256, 1024]).unwrap();
    assert_eq!(cfg.prescaler, 256);
    assert_eq!(cfg.compare, 62499);
    // 16 MHz / (300 Hz * 1024) = 52.08 counts, rounded to 52
    let cfg = plan(16_000_000, 300_000, &[1024]).unwrap();
    assert_eq!(cfg.compare, 51);
    assert!(within_percent(&cfg, 1));
}

#[test]
fn plan_fails_when_period_too_long() {
    assert_eq!(plan(16_000_000, 1, &PRESCALERS), Err(ConfigError::NoValidPrescaler));
}

#[test]
fn plan_fails_when_period_too_short() {
    assert_eq!(plan(16_000_000, 100_000_000, &[1024]), Err(ConfigError::NoValidPrescaler));
}

#[test]
fn plan_fails_on_empty_set() {
    assert_eq!(plan(16_000_000, 300, &[]), Err(ConfigError::NoValidPrescaler));
}

#[test]
fn clock_advances_by_increment() {
    let mut clock = SoftwareClock::new(3333);
    assert_eq!(clock.now(), 0);
    clock.advance();
    clock.advance();
    clock.advance();
    assert_eq!(clock.now(), 9999);
    assert_eq!(clock.increment_ms(), 3333);
}

#[test]
fn clock_for_config() {
    let cfg = plan(16_000_000, 300, &PRESCALERS).unwrap();
    let mut clock = SoftwareClock::for_config(&cfg);
    assert_eq!(clock.increment_ms(), 3333);
    clock.advance();
    assert_eq!(clock.now(), 3333);
}

#[test]
fn clock_wraps_at_32_bits() {
    let mut clock = SoftwareClock::new(0x8000_0000);
    clock.advance();
    let t1 = clock.now();
    clock.advance();
    let t2 = clock.now();
    assert_eq!(t2, 0);
    assert_eq!(elapsed_ms(t1, t2), 0x8000_0000);
}

#[test]
fn clock_elapsed_across_wrap() {
    let mut clock = SoftwareClock::new(7);
    let mut readings = Vec::new();
    for _ in 0..5 {
        readings.push(clock.now());
        clock.advance();
    }
    assert_eq!(elapsed_ms(readings[1], readings[4]), 21);
    assert_eq!(elapsed_ms(0xffff_fff0, 0x10), 0x20);
}

#[test]
fn threshold_rounds_up() {
    assert_eq!(decimation_threshold(10_000, 300), 3);
    assert_eq!(decimation_threshold(10_000, 301), 4);
    assert_eq!(decimation_threshold(1000, 300), 1);
    assert_eq!(decimation_threshold(0, 300), 1);
    assert_eq!(decimation_threshold(u32::MAX, u32::MAX), 18_446_744_065_120);
}

#[test]
fn scheduler_fires_every_third_tick() {
    let mut s = SamplingScheduler::new(3);
    let fired: Vec<bool> = (0..9).map(|_| s.on_tick()).collect();
    assert_eq!(fired, vec![false, false, true, false, false, true, false, false, true]);
    assert_eq!(s.pending_ticks(), 0);
    assert_eq!(s.threshold_ticks(), 3);
}

#[test]
fn scheduler_counts_exactly() {
    for k in 1..6u64 {
        let mut s = SamplingScheduler::new(k);
        let n = 47;
        let reads = (0..n).filter(|_| s.on_tick()).count() as u64;
        assert_eq!(reads, n / k);
        assert_eq!(s.pending_ticks(), n % k);
    }
}

#[test]
fn scheduler_threshold_one_fires_always() {
    let mut s = SamplingScheduler::new(1);
    assert!(s.on_tick());
    assert!(s.on_tick());
}

#[test]
fn setup_timer_for_three_and_a_third_seconds() {
    let s = setup_timer(16_000_000, 300).ok().unwrap();
    assert_eq!(s.config.prescaler, 1024);
    assert_eq!(s.config.compare, 52082);
    assert_eq!(
        s.registers,
        TimerRegisters { tccr1a: 0, tccr1b: 0b0000_1101, ocr1a: 52082, timsk1: 0b0000_0010 }
    );
    assert_eq!(s.shared.now(), 0);
    assert!(!s.shared.reading_ready());
}

#[test]
fn setup_timer_unreachable_rate() {
    assert!(matches!(setup_timer(16_000_000, 1), Err(ConfigError::NoValidPrescaler)));
}

#[test]
fn timer1_registers_need_a_timer1_prescaler() {
    let cfg = TimerConfig { clock_hz: 16_000_000, target_mhz: 1000, prescaler: 3, compare: 100 };
    assert_eq!(timer1_registers(&cfg), None);
    let cfg = TimerConfig { prescaler: 8, ..cfg };
    assert_eq!(timer1_registers(&cfg).unwrap().tccr1b, 0b0000_1010);
}

#[test]
fn plan_few_counts_stays_within_half_a_count() {
    // 16 MHz / 3 MHz is 5.33 counts: the nearest period, 5 counts, runs at 3.2 MHz
    let cfg = plan(16_000_000, 3_000_000_000, &PRESCALERS).unwrap();
    assert_eq!(cfg.prescaler, 1);
    assert_eq!(cfg.compare, 4);
    assert!(!within_percent(&cfg, 1));
    assert!(within_percent(&cfg, 7));
}
