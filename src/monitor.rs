//! The state shared by the timer interrupt and the main loop, and the
//! procedure the interrupt runs on every tick.
use vstd::prelude::*;
use crate::clock::{wrap, SoftwareClock};
use crate::mailbox::{Mailbox, Measurement};
use crate::scheduler::SamplingScheduler;
use crate::sensor::{SensorDriver, SensorError};
use crate::timer::{
    clock_select, no_candidate_fits, plan, planned, registers_for, timer1_prescalers, timer1_registers,
    ConfigError, TimerConfig, TimerRegisters,
};

verus! {

/// What one tick did.
#[derive(Clone, Copy, Debug, PartialEq, Eq, Structural)]
pub enum TickOutcome {
    /// No read was due.
    Idle,
    /// A read was due and succeeded; this measurement was published.
    Published(Measurement),
    /// A read was due and failed; nothing was published.
    Failed(SensorError),
}

/// The clock and the mailbox: the only state that both contexts touch, and
/// only through these methods. The platform keeps it behind a critical
/// section; the tick procedure and the consumer each hold it exclusively.
pub struct SharedState {
    clock: SoftwareClock,
    mailbox: Mailbox,
}

impl SharedState {
    pub closed spec fn clock(self) -> SoftwareClock {
        self.clock
    }

    pub closed spec fn mailbox(self) -> Mailbox {
        self.mailbox
    }

    pub open spec fn wf(self) -> bool {
        self.mailbox().wf()
    }

    /// Fresh state: the given clock and an empty mailbox.
    pub fn new(clock: SoftwareClock) -> (r: SharedState)
        ensures
            r.wf(),
            r.clock() == clock,
            r.mailbox()@ is None,
            !r.mailbox().flag(),
    {
        SharedState { clock, mailbox: Mailbox::new() }
    }

    /// The clock reading in milliseconds.
    pub fn now(&self) -> (r: u32)
        ensures
            r == self.clock().counter(),
    {
        self.clock.now()
    }

    /// The ready flag of the mailbox.
    pub fn reading_ready(&self) -> (r: bool)
        requires
            self.wf(),
        ensures
            r == self.mailbox().flag(),
            r == self.mailbox()@ is Some,
    {
        self.mailbox.is_ready()
    }

    /// Main-loop side: takes the pending measurement, if any.
    pub fn take(&mut self) -> (r: Option<Measurement>)
        requires
            old(self).wf(),
        ensures
            final(self).wf(),
            r == old(self).mailbox()@,
            final(self).mailbox()@ is None,
            !final(self).mailbox().flag(),
            final(self).clock() == old(self).clock(),
    {
        self.mailbox.take()
    }

    /// Finishes a due read with its outcome: on success the temperature is
    /// paired with the current clock value and published; on failure the
    /// mailbox, ready flag included, is left as it was.
    pub fn record_sample(&mut self, reading: Result<i16, SensorError>) -> (r: TickOutcome)
        requires
            old(self).wf(),
        ensures
            final(self).wf(),
            final(self).clock() == old(self).clock(),
            match reading {
                Ok(t) => {
                    let m = Measurement { temperature_tenths: t, timestamp_ms: old(self).clock().counter() };
                    &&& r == TickOutcome::Published(m)
                    &&& final(self).mailbox() == old(self).mailbox().published(m)
                    &&& final(self).mailbox()@ == Some(m)
                },
                Err(e) => {
                    &&& r == TickOutcome::Failed(e)
                    &&& final(self).mailbox() == old(self).mailbox()
                },
            },
    {
        match reading {
            Ok(t) => {
                let m = Measurement { temperature_tenths: t, timestamp_ms: self.clock.now() };
                self.mailbox.publish(m);
                TickOutcome::Published(m)
            },
            Err(e) => TickOutcome::Failed(e),
        }
    }

    /// Interrupt side, once per timer tick: advances the clock, counts the
    /// tick, and when a read is due reads the sensor and records the outcome.
    /// The read runs inside the tick, so the worst-case tick lasts one full
    /// sensor transaction.
    pub fn service_tick<S: SensorDriver>(&mut self, scheduler: &mut SamplingScheduler, sensor: &mut S) -> (r: TickOutcome)
        requires
            old(self).wf(),
            old(scheduler).wf(),
        ensures
            final(self).wf(),
            final(scheduler).wf(),
            *final(scheduler) == old(scheduler).ticked_once(),
            final(self).clock() == old(self).clock().ticked(1),
            final(self).clock().counter() == (old(self).clock().counter() + old(self).clock().increment()) % wrap(),
            !old(scheduler).fires_next() ==> r == TickOutcome::Idle && final(self).mailbox() == old(self).mailbox(),
            old(scheduler).fires_next() ==> match r {
                TickOutcome::Published(m) => {
                    &&& m.timestamp_ms == final(self).clock().counter()
                    &&& final(self).mailbox() == old(self).mailbox().published(m)
                },
                TickOutcome::Failed(_) => final(self).mailbox() == old(self).mailbox(),
                TickOutcome::Idle => false,
            },
    {
        self.clock.advance();
        if scheduler.on_tick() {
            let reading = sensor.measure();
            self.record_sample(reading)
        } else {
            TickOutcome::Idle
        }
    }
}

/// Everything the start-up code needs for the sampling timer: the plan, the
/// register values that realise it, and the shared state with its clock at zero.
pub struct TimerSetup {
    pub config: TimerConfig,
    pub registers: TimerRegisters,
    pub shared: SharedState,
}

/// Plans Timer1 for `target_mhz` over its prescalers and prepares the state
/// the interrupt will drive: a clock at zero advancing by the period in whole
/// milliseconds, and an empty mailbox.
pub fn setup_timer(clock_hz: u32, target_mhz: u32) -> (r: Result<TimerSetup, ConfigError>)
    requires
        clock_hz > 0,
        target_mhz > 0,
    ensures
        r is Err <==> no_candidate_fits(clock_hz as int, target_mhz as int, timer1_prescalers()),
        r matches Ok(s) ==> {
            &&& planned(clock_hz, target_mhz, timer1_prescalers(), s.config)
            &&& s.config.within_half_count()
            &&& clock_select(s.config.prescaler as int) matches Some(cs)
            &&& s.registers == registers_for(s.config, cs)
            &&& s.shared.wf()
            &&& s.shared.clock().counter() == 0
            &&& s.shared.clock().increment() == s.config.spec_tick_ms() % wrap()
            &&& s.shared.mailbox()@ is None
        },
{
    let prescalers: [u16; 5] = [1, 8, 64, 256, 1024];
    assert(prescalers@ == timer1_prescalers());
    let config = plan(clock_hz, target_mhz, &prescalers)?;
    let registers = match timer1_registers(&config) {
        Some(regs) => regs,
        None => {
            // every prescaler of Timer1 has clock-select bits
            assert(false);
            return Err(ConfigError::NoValidPrescaler);
        },
    };
    let shared = SharedState::new(SoftwareClock::for_config(&config));
    Ok(TimerSetup { config, registers, shared })
}

} // verus!
