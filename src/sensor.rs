//! The sensor seam: a hardware-backed driver or a scripted one.
use vstd::prelude::*;

verus! {

/// Why a sensor read failed. Every one is recovered from by trying again at
/// the next read.
#[derive(Clone, Copy, Debug, PartialEq, Eq, Structural)]
pub enum SensorError {
    /// The sensor did not answer within its protocol's time limit.
    Timeout,
    /// The frame arrived but its checksum did not match.
    ChecksumMismatch,
    /// The data pin could not be driven or read.
    PinFault,
}

impl SensorError {
    /// The line reported on the output channel for this error.
    pub fn message(&self) -> (r: &'static str)
        ensures
            r@ == match *self {
                SensorError::Timeout => "Timeout!"@,
                SensorError::ChecksumMismatch => "Checksum Mismatch!"@,
                SensorError::PinFault => "Pin Error!"@,
            },
    {
        match self {
            SensorError::Timeout => "Timeout!",
            SensorError::ChecksumMismatch => "Checksum Mismatch!",
            SensorError::PinFault => "Pin Error!",
        }
    }
}

/// A temperature sensor. The sampling logic depends only on this, never on a
/// concrete sensor.
pub trait SensorDriver {
    /// One read: the temperature in tenths of a degree Celsius. The caller
    /// pairs it with the clock value.
    fn measure(&mut self) -> Result<i16, SensorError>;
}

/// A sensor that replays a fixed list of outcomes, one per read, and then
/// times out on every further read.
pub struct ScriptedSensor {
    outcomes: Vec<Result<i16, SensorError>>,
    next: usize,
}

impl ScriptedSensor {
    pub closed spec fn script(self) -> Seq<Result<i16, SensorError>> {
        self.outcomes@
    }

    /// Reads made so far.
    pub closed spec fn position(self) -> nat {
        self.next as nat
    }

    /// The outcome of the next read.
    pub open spec fn upcoming(self) -> Result<i16, SensorError> {
        if self.position() < self.script().len() {
            self.script()[self.position() as int]
        } else {
            Err(SensorError::Timeout)
        }
    }

    /// A sensor that will give `outcomes` in order.
    pub fn new(outcomes: Vec<Result<i16, SensorError>>) -> (r: ScriptedSensor)
        ensures
            r.script() == outcomes@,
            r.position() == 0,
    {
        ScriptedSensor { outcomes, next: 0 }
    }

    /// Gives the next outcome of the script, or `Timeout` once it is used up.
    pub fn next_outcome(&mut self) -> (r: Result<i16, SensorError>)
        ensures
            r == old(self).upcoming(),
            final(self).script() == old(self).script(),
            final(self).position() == if old(self).position() < old(self).script().len() {
                old(self).position() + 1
            } else {
                old(self).position()
            },
    {
        if self.next < self.outcomes.len() {
            let r = self.outcomes[self.next];
            self.next = self.next + 1;
            r
        } else {
            Err(SensorError::Timeout)
        }
    }

    /// Reads made so far.
    pub fn reads(&self) -> (r: usize)
        ensures
            r == self.position(),
    {
        self.next
    }
}

impl SensorDriver for ScriptedSensor {
    fn measure(&mut self) -> Result<i16, SensorError> {
        self.next_outcome()
    }
}

} // verus!
