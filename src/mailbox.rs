//! Single-slot handoff of a measurement from the interrupt context to the main loop.
use vstd::prelude::*;

verus! {

/// One temperature reading with the clock value taken together with it.
#[derive(Clone, Copy, Debug, PartialEq, Eq, Structural)]
pub struct Measurement {
    /// Tenths of a degree (the sensor reports Celsius).
    pub temperature_tenths: i16,
    pub timestamp_ms: u32,
}

/// A single slot with a ready flag. The flag and the slot change together in
/// every operation, so a reader sees either no value or one whole measurement.
/// Each operation takes the mailbox by `&mut`: sharing it between an
/// interrupt and the main loop puts it behind a critical section, which makes
/// each operation one indivisible step.
pub struct Mailbox {
    ready: bool,
    pending: Option<Measurement>,
}

impl View for Mailbox {
    type V = Option<Measurement>;

    closed spec fn view(&self) -> Option<Measurement> {
        if self.ready { self.pending } else { None }
    }
}

impl Mailbox {
    /// The ready flag and the slot agree.
    pub closed spec fn wf(self) -> bool {
        self.ready <==> self.pending is Some
    }

    /// The ready flag.
    pub closed spec fn flag(self) -> bool {
        self.ready
    }

    /// The mailbox after publishing `m`: whatever was pending is dropped.
    pub closed spec fn published(self, m: Measurement) -> Mailbox {
        Mailbox { ready: true, pending: Some(m) }
    }

    /// What a take returns, and the mailbox after it.
    pub closed spec fn taken(self) -> (Option<Measurement>, Mailbox) {
        (self@, Mailbox { ready: false, pending: None })
    }

    /// An empty mailbox.
    pub fn new() -> (r: Mailbox)
        ensures
            r.wf(),
            r@ is None,
            !r.flag(),
    {
        Mailbox { ready: false, pending: None }
    }

    /// Producer side: stores `m`, replacing any value not yet taken, and sets
    /// the ready flag.
    pub fn publish(&mut self, m: Measurement)
        requires
            old(self).wf(),
        ensures
            final(self).wf(),
            *final(self) == old(self).published(m),
            final(self)@ == Some(m),
            final(self).flag(),
    {
        self.pending = Some(m);
        self.ready = true;
    }

    /// Consumer side: returns the pending measurement, if any, and clears the
    /// slot and the ready flag in the same step.
    pub fn take(&mut self) -> (r: Option<Measurement>)
        requires
            old(self).wf(),
        ensures
            final(self).wf(),
            (r, *final(self)) == old(self).taken(),
            r == old(self)@,
            final(self)@ is None,
            !final(self).flag(),
    {
        let r = if self.ready { self.pending } else { None };
        self.pending = None;
        self.ready = false;
        r
    }

    /// The ready flag: a measurement waits to be taken.
    pub fn is_ready(&self) -> (r: bool)
        requires
            self.wf(),
        ensures
            r == self.flag(),
            r == self@ is Some,
    {
        self.ready
    }

    /// A publish and a take, in either order, hand the consumer one whole
    /// measurement: the one pending before, or the one published; never the
    /// timestamp of one with the temperature of the other.
    pub proof fn lemma_publish_take_whole(self, m: Measurement)
        requires
            self.wf(),
        ensures
            self.taken().0 == self@,
            self.taken().1.published(m)@ == Some(m),
            self.published(m).taken().0 == Some(m),
            self.published(m).taken().1@ is None,
            forall|x: Measurement| self.taken().0 == Some(x) ==> self@ == Some(x),
    {
    }

    /// Two publishes with no take between them leave only the second value:
    /// the next take returns it, and the one after returns nothing.
    pub proof fn lemma_last_publish_wins(self, first: Measurement, second: Measurement)
        requires
            self.wf(),
        ensures
            self.published(first).published(second).taken().0 == Some(second),
            self.published(first).published(second).taken().1.taken().0 is None,
    {
    }
}

} // verus!
