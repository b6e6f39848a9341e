use temp_monitor::clock::SoftwareClock;
use temp_monitor::mailbox::{Mailbox, Measurement};
use temp_monitor::monitor::{SharedState, TickOutcome};
use temp_monitor::scheduler::SamplingScheduler;
use temp_monitor::sensor::{ScriptedSensor, SensorDriver, SensorError};

fn m(t: i16, ts: u32) -> Measurement {
    Measurement { temperature_tenths: t, timestamp_ms: ts }
}

#[test]
fn mailbox_take_after_publish() {
    let mut mb = Mailbox::new();
    assert!(!mb.is_ready());
    assert_eq!(mb.take(), None);
    mb.publish(m(370, 100));
    assert!(mb.is_ready());
    assert_eq!(mb.take(), Some(m(370, 100)));
    assert!(!mb.is_ready());
    assert_eq!(mb.take(), None);
}

#[test]
fn mailbox_last_publish_wins() {
    let mut mb = Mailbox::new();
    mb.publish(m(370, 100));
    mb.publish(m(371, 200));
    assert_eq!(mb.take(), Some(m(371, 200)));
    assert_eq!(mb.take(), None);
}

#[test]
fn mailbox_take_then_publish() {
    let mut mb = Mailbox::new();
    mb.publish(m(1, 1));
    assert_eq!(mb.take(), Some(m(1, 1)));
    mb.publish(m(2, 2));
    assert_eq!(mb.take(), Some(m(2, 2)));
}

#[test]
fn scripted_sensor_replays_then_times_out() {
    let mut s = ScriptedSensor::new(vec![Ok(250), Err(SensorError::ChecksumMismatch)]);
    assert_eq!(s.measure(), Ok(250));
    assert_eq!(s.measure(), Err(SensorError::ChecksumMismatch));
    assert_eq!(s.measure(), Err(SensorError::Timeout));
    assert_eq!(s.reads(), 2);
}

#[test]
fn error_messages() {
    assert_eq!(SensorError::Timeout.message(), "Timeout!");
    assert_eq!(SensorError::ChecksumMismatch.message(), "Checksum Mismatch!");
    assert_eq!(SensorError::PinFault.message(), "Pin Error!");
}

#[test]
fn ticks_publish_every_third() {
    let mut shared = SharedState::new(SoftwareClock::new(3333));
    let mut sched = SamplingScheduler::new(3);
    let mut sensor = ScriptedSensor::new(vec![Ok(370), Ok(371)]);
    assert_eq!(shared.service_tick(&mut sched, &mut sensor), TickOutcome::Idle);
    assert_eq!(shared.service_tick(&mut sched, &mut sensor), TickOutcome::Idle);
    assert!(!shared.reading_ready());
    assert_eq!(shared.service_tick(&mut sched, &mut sensor), TickOutcome::Published(m(370, 9999)));
    assert!(shared.reading_ready());
    assert_eq!(shared.take(), Some(m(370, 9999)));
    assert_eq!(shared.take(), None);
    assert_eq!(sensor.reads(), 1);
    for _ in 0..3 {
        shared.service_tick(&mut sched, &mut sensor);
    }
    assert_eq!(shared.now(), 19998);
    assert_eq!(shared.take(), Some(m(371, 19998)));
}

#[test]
fn sensor_error_leaves_mailbox_unchanged() {
    let mut shared = SharedState::new(SoftwareClock::new(1000));
    let mut sched = SamplingScheduler::new(1);
    let mut sensor = ScriptedSensor::new(vec![
        Err(SensorError::Timeout),
        Ok(200),
        Err(SensorError::PinFault),
    ]);
    assert_eq!(shared.service_tick(&mut sched, &mut sensor), TickOutcome::Failed(SensorError::Timeout));
    assert!(!shared.reading_ready());
    assert_eq!(shared.service_tick(&mut sched, &mut sensor), TickOutcome::Published(m(200, 2000)));
    assert_eq!(shared.service_tick(&mut sched, &mut sensor), TickOutcome::Failed(SensorError::PinFault));
    assert!(shared.reading_ready());
    assert_eq!(shared.take(), Some(m(200, 2000)));
}

#[test]
fn record_sample_pairs_with_clock() {
    let mut clock = SoftwareClock::new(250);
    clock.advance();
    let mut shared = SharedState::new(clock);
    assert_eq!(shared.record_sample(Ok(-15)), TickOutcome::Published(m(-15, 250)));
    assert_eq!(shared.record_sample(Err(SensorError::ChecksumMismatch)), TickOutcome::Failed(SensorError::ChecksumMismatch));
    assert_eq!(shared.take(), Some(m(-15, 250)));
}
