use vstd::prelude::*;
use embedded_hal::digital::v2::{InputPin, OutputPin};
use crate::error::Error;
use crate::pins::{drive, sense_high, vec_from_array, Line};

verus! {

/// Number of lines of the strobe bus.
pub const STROBE_WIDTH: usize = 6;

/// The right to drive the lines of a strobe bus. Each bus has exactly one, handed out with the
/// bus by `make_bus`; it cannot be copied, and every change of the bus's direction takes it, so
/// at most one holder drives the lines at any time.
pub struct BusLock {}

/// A pin that can be turned into an output pin.
pub trait TryIntoOutputPin {
    type Pin;

    fn try_into_output_pin(self) -> Result<Self::Pin, Error>;
}

/// A pin that can be turned into an input pin.
pub trait TryIntoInputPin {
    type Pin;

    fn try_into_input_pin(self) -> Result<Self::Pin, Error>;
}

/// The strobe bus with its lines as inputs.
pub struct InputBus<P> {
    pins: Vec<P>,
}

/// The strobe bus with its lines as outputs; holds the bus's lock while it is so.
pub struct OutputBus<Q> {
    pins: Vec<Line<Q>>,
    lock: BusLock,
}

impl<P> InputBus<P> {
    /// One pin per line.
    pub closed spec fn wf(&self) -> bool {
        self.pins@.len() == STROBE_WIDTH
    }
}

impl<Q> OutputBus<Q> {
    /// One pin per line.
    pub closed spec fn wf(&self) -> bool {
        self.pins@.len() == STROBE_WIDTH
    }

    /// The level each line was last driven to.
    pub closed spec fn levels(&self) -> Seq<Option<bool>> {
        self.pins@.map_values(|l: Line<Q>| l.level())
    }
}

/// The bit of `b` as a number.
fn bit_of(b: bool) -> (r: u8)
    ensures
        r == (if b {
            1u8
        } else {
            0u8
        }),
{
    if b {
        1
    } else {
        0
    }
}

/// Packs six line levels into one word, the first level as the most significant of six bits.
pub fn word_of(levels: [bool; 6]) -> (w: u8)
    ensures
        w < 64,
        forall|i: int| 0 <= i < 6 ==> (((w >> ((5 - i) as u8)) & 1u8 == 1u8) == #[trigger] levels@[i]),
{
    let b0 = bit_of(levels[0]);
    let b1 = bit_of(levels[1]);
    let b2 = bit_of(levels[2]);
    let b3 = bit_of(levels[3]);
    let b4 = bit_of(levels[4]);
    let b5 = bit_of(levels[5]);
    let w = (b0 << 5u8) | (b1 << 4u8) | (b2 << 3u8) | (b3 << 2u8) | (b4 << 1u8) | b5;
    assert(b0 <= 1 && b1 <= 1 && b2 <= 1 && b3 <= 1 && b4 <= 1 && b5 <= 1 ==> {
        &&& w < 64
        &&& ((w >> 5u8) & 1u8 == 1u8) == (b0 == 1)
        &&& ((w >> 4u8) & 1u8 == 1u8) == (b1 == 1)
        &&& ((w >> 3u8) & 1u8 == 1u8) == (b2 == 1)
        &&& ((w >> 2u8) & 1u8 == 1u8) == (b3 == 1)
        &&& ((w >> 1u8) & 1u8 == 1u8) == (b4 == 1)
        &&& ((w >> 0u8) & 1u8 == 1u8) == (b5 == 1)
    }) by (bit_vector)
        requires
            w == (b0 << 5u8) | (b1 << 4u8) | (b2 << 3u8) | (b3 << 2u8) | (b4 << 1u8) | b5,
    ;
    assert forall|i: int| 0 <= i < 6 implies (((w >> ((5 - i) as u8)) & 1u8 == 1u8)
        == #[trigger] levels@[i]) by {
        if i == 0 {
        } else if i == 1 {
        } else if i == 2 {
        } else if i == 3 {
        } else if i == 4 {
        } else {
        }
    }
    w
}

/// A strobe bus on the given input pins, and its lock.
pub fn make_bus<P: InputPin>(pins: [P; 6]) -> (r: (InputBus<P>, BusLock))
    ensures
        r.0.wf(),
{
    (InputBus { pins: vec_from_array(pins) }, BusLock {})
}

impl<P: InputPin> InputBus<P> {
    /// The levels of the lines as one word (see `word_of`): line 0 is the most significant of
    /// the `STROBE_WIDTH` bits, the last line the least significant. A line that cannot be
    /// sensed fails the read with `PinConfigError`.
    pub fn read(&self) -> (r: Result<u8, Error>)
        requires
            self.wf(),
        ensures
            r matches Ok(w) ==> w < 64,
            r matches Err(e) ==> e == Error::PinConfigError,
    {
        let mut levels = [false; 6];
        let mut i: usize = 0;
        while i < STROBE_WIDTH
            invariant
                i <= STROBE_WIDTH,
                self.wf(),
            decreases STROBE_WIDTH - i,
        {
            levels[i] = sense_high(&self.pins[i])?;
            i = i + 1;
        }
        Ok(word_of(levels))
    }
}

impl<Q: OutputPin> OutputBus<Q> {
    /// Drives line `i` to bit `i` of `state`. A line that cannot be driven stops the write with
    /// `PinConfigError`.
    pub fn write(&mut self, state: u8) -> (r: Result<(), Error>)
        requires
            old(self).wf(),
        ensures
            final(self).wf(),
            r matches Err(e) ==> e == Error::PinConfigError,
            r is Ok ==> forall|i: int|
                0 <= i < STROBE_WIDTH ==> #[trigger] final(self).levels()[i] == Some(
                    (state >> (i as u8)) & 1u8 == 1u8,
                ),
    {
        let mut i: usize = 0;
        while i < STROBE_WIDTH
            invariant
                i <= STROBE_WIDTH,
                self.wf(),
                forall|k: int|
                    0 <= k < i ==> #[trigger] self.levels()[k] == Some((state >> (k as u8)) & 1u8
                        == 1u8),
            decreases STROBE_WIDTH - i,
        {
            let ghost before = self.levels();
            drive(&mut self.pins[i], (state >> (i as u8)) & 1 == 1)?;
            assert(self.levels() =~= before.update(
                i as int,
                Some((state >> (i as u8)) & 1u8 == 1u8),
            ));
            i = i + 1;
        }
        Ok(())
    }
}

impl<P> InputBus<P> {
    /// Turns every line into an output; takes the bus's lock, which the output bus holds. A
    /// line that cannot be turned fails the switch.
    pub fn into_output_bus<Q>(self, lock: BusLock) -> (r: Result<OutputBus<Q>, Error>) where
        P: TryIntoOutputPin<Pin = Q>,
        Q: TryIntoInputPin<Pin = P>,

        requires
            self.wf(),
        ensures
            r matches Ok(bus) ==> bus.wf(),
    {
        let mut pins = self.pins;
        let mut out: Vec<Line<Q>> = Vec::new();
        while pins.len() > 0
            invariant
                out@.len() + pins@.len() == STROBE_WIDTH,
            decreases pins@.len(),
        {
            let p = pins.remove(0);
            out.push(Line::new(p.try_into_output_pin()?));
        }
        Ok(OutputBus { pins: out, lock })
    }
}

impl<Q> OutputBus<Q> {
    /// Turns every line back into an input and hands the lock back with the input bus. A line
    /// that cannot be turned fails the switch.
    pub fn into_input_bus<P>(self) -> (r: Result<(InputBus<P>, BusLock), Error>) where
        Q: TryIntoInputPin<Pin = P>,
        P: TryIntoOutputPin<Pin = Q>,

        requires
            self.wf(),
        ensures
            r matches Ok(res) ==> res.0.wf(),
    {
        let OutputBus { pins, lock } = self;
        let mut pins = pins;
        let mut inp: Vec<P> = Vec::new();
        while pins.len() > 0
            invariant
                inp@.len() + pins@.len() == STROBE_WIDTH,
            decreases pins@.len(),
        {
            let q = pins.remove(0).into_pin();
            inp.push(q.try_into_input_pin()?);
        }
        Ok((InputBus { pins: inp }, lock))
    }
}

} // verus!
