use vstd::prelude::*;

verus! {

/// The kind of failure reported by the driver.
#[derive(Clone, Copy, Debug, PartialEq, Eq, Structural)]
pub enum Mb85rcErrorKind {
    /// A transport-level failure (NACK, timeout, bus fault) reported by the bus.
    Bus,
    /// A seek target at or beyond the device capacity, or a stream operation
    /// that would run past the end of the device.
    OutOfRange,
    /// A seek whose resulting position would be negative.
    InvalidArgument,
    /// Automatic capacity detection failed during construction.
    Identification,
}

/// Error type for anything that might happen on the I2C side of things, and
/// for the driver's own bounds and construction failures.
#[derive(Debug)]
pub struct Mb85rcError {
    /// Which failure occurred.
    pub kind: Mb85rcErrorKind,
    /// Human-readable diagnostic message.
    pub details: String,
}

impl Mb85rcError {
    /// Wraps a transport-level diagnostic message as a bus error.
    pub fn new(msg: &str) -> (r: Mb85rcError)
        ensures
            r.kind == Mb85rcErrorKind::Bus,
            r.details@ == msg@,
    {
        Mb85rcError { kind: Mb85rcErrorKind::Bus, details: msg.to_string() }
    }

    /// Message describing the failure.
    pub fn message(&self) -> (r: &str)
        ensures
            r@ == self.details@,
    {
        self.details.as_str()
    }
}

} // verus!
