use vstd::prelude::*;
use embedded_hal::blocking::delay::DelayUs;
use embedded_hal::digital::v2::{InputPin, OutputPin};
use crate::error::Error;

verus! {

/// An output pin, with the level it was last driven to (none before the first drive).
pub struct Line<Q> {
    pin: Q,
    level: Ghost<Option<bool>>,
}

impl<Q> Line<Q> {
    /// The level the line was last driven to.
    pub closed spec fn level(&self) -> Option<bool> {
        self.level@
    }

    pub fn new(pin: Q) -> (r: Self)
        ensures
            r.level() == None::<bool>,
    {
        Line { pin, level: Ghost(None) }
    }

    /// The pin itself.
    pub fn into_pin(self) -> Q {
        self.pin
    }
}

/// Relies on embedded_hal's `OutputPin::set_low`: drives the line low, or reports the pin's
/// failure.
#[verifier::external_body]
pub(crate) fn drive_low<Q: OutputPin>(line: &mut Line<Q>) -> (r: Result<(), Error>)
    ensures
        r matches Err(e) ==> e == Error::PinConfigError,
        final(line).level() == (if r matches Ok(_) {
            Some(false)
        } else {
            old(line).level()
        }),
{
    line.pin.set_low().map_err(|_| Error::PinConfigError)
}

/// Relies on embedded_hal's `OutputPin::set_high`: drives the line high, or reports the pin's
/// failure.
#[verifier::external_body]
pub(crate) fn drive_high<Q: OutputPin>(line: &mut Line<Q>) -> (r: Result<(), Error>)
    ensures
        r matches Err(e) ==> e == Error::PinConfigError,
        final(line).level() == (if r matches Ok(_) {
            Some(true)
        } else {
            old(line).level()
        }),
{
    line.pin.set_high().map_err(|_| Error::PinConfigError)
}

/// Drives the line to `high`.
pub(crate) fn drive<Q: OutputPin>(line: &mut Line<Q>, high: bool) -> (r: Result<(), Error>)
    ensures
        r matches Err(e) ==> e == Error::PinConfigError,
        final(line).level() == (if r matches Ok(_) {
            Some(high)
        } else {
            old(line).level()
        }),
{
    if high {
        drive_high(line)
    } else {
        drive_low(line)
    }
}

/// Relies on embedded_hal's `InputPin::is_high`: whether the line is high, or the pin's failure.
#[verifier::external_body]
pub(crate) fn sense_high<P: InputPin>(pin: &P) -> (r: Result<bool, Error>)
    ensures
        r matches Err(e) ==> e == Error::PinConfigError,
{
    pin.is_high().map_err(|_| Error::PinConfigError)
}

/// Relies on embedded_hal's `DelayUs::delay_us`: waits `us` microseconds.
#[verifier::external_body]
pub(crate) fn pause_us<D: DelayUs<u32>>(delay: &mut D, us: u32)
{
    delay.delay_us(us)
}

/// Relies on std's `From<[T; N]> for Vec<T>`: the vector holds the array's items in order.
#[verifier::external_body]
pub(crate) fn vec_from_array<T, const N: usize>(a: [T; N]) -> (r: Vec<T>)
    ensures
        r@ == a@,
{
    Vec::from(a)
}

/// Wraps each pin as a line, in order.
pub(crate) fn lines_of<Q>(pins: Vec<Q>) -> (r: Vec<Line<Q>>)
    ensures
        r@.len() == pins@.len(),
        forall|k: int| 0 <= k < r@.len() ==> (#[trigger] r@[k]).level() == None::<bool>,
{
    let mut pins = pins;
    let ghost n = pins@.len();
    let mut lines: Vec<Line<Q>> = Vec::new();
    while pins.len() > 0
        invariant
            lines@.len() + pins@.len() == n,
            forall|k: int| 0 <= k < lines@.len() ==> (#[trigger] lines@[k]).level() == None::<bool>,
        decreases pins@.len(),
    {
        let p = pins.remove(0);
        lines.push(Line::new(p));
    }
    lines
}

} // verus!
