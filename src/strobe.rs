use vstd::prelude::*;
use embedded_hal::blocking::delay::DelayUs;
use embedded_hal::digital::v2::{InputPin, OutputPin};
use crate::bus::{BusLock, InputBus, TryIntoInputPin, TryIntoOutputPin, STROBE_WIDTH};
use crate::error::Error;
use crate::pins::{drive_high, drive_low, lines_of, pause_us, Line};
use crate::prelude::{KeyIndex, RegIndex, MAX_REGS};
use crate::vkeyboard::{
    events_of, new_event_list, push_event, run_events, EventList, KeyEvent, KeyboardState,
    VKeyboard,
};

verus! {

/// Bit `i` of word `w` is set.
pub open spec fn word_bit(w: u8, i: int) -> bool {
    (w >> (i as u8)) & 1u8 == 1u8
}

/// What a switch did between two samples: `Some(true)` when it went from 0 to 1 (pressed),
/// `Some(false)` when it went from 1 to 0 (released), `None` when the samples are equal.
pub open spec fn edge(old: bool, new: bool) -> Option<bool> {
    if old == new {
        None
    } else {
        Some(new)
    }
}

/// The key events of the first `n` bits of a register read `new` after `old`, in bit order:
/// each bit that reads a key and changed gives a `Down` (0 to 1) or an `Up` (1 to 0).
pub open spec fn word_events(keys: Seq<Option<KeyIndex>>, old: u8, new: u8, n: int) -> Seq<
    KeyEvent,
>
    decreases n,
{
    if n <= 0 {
        Seq::empty()
    } else {
        let prev = word_events(keys, old, new, n - 1);
        match (keys[n - 1], edge(word_bit(old, n - 1), word_bit(new, n - 1))) {
            (Some(k), Some(true)) => prev.push(KeyEvent::Down(k)),
            (Some(k), Some(false)) => prev.push(KeyEvent::Up(k)),
            _ => prev,
        }
    }
}

/// The state of a strobed switch matrix, as the contracts speak of it: for each register the
/// key read by each bit (if any), and the register's last sample.
pub struct StrobeState {
    pub keys: Seq<Seq<Option<KeyIndex>>>,
    pub words: Seq<u8>,
}

/// Scanning register `r` and reading `w`: the new state and the key events, in bit order.
pub open spec fn strobe_step(sm: StrobeState, r: int, w: u8) -> (StrobeState, Seq<KeyEvent>) {
    (
        StrobeState { words: sm.words.update(r, w), ..sm },
        word_events(sm.keys[r], sm.words[r], w, STROBE_WIDTH as int),
    )
}

/// Scanning registers 0, 1, ... on words `rd[0]`, `rd[1]`, ..., each register's key events going
/// to the keyboard before the next is scanned, and stopping once a reboot is asked for. Gives the
/// states, whether the report changed, and whether the scan stopped for a reboot.
pub open spec fn strobe_scan(sm: StrobeState, kb: KeyboardState, rd: Seq<u8>) -> (
    StrobeState,
    KeyboardState,
    bool,
    bool,
)
    decreases rd.len(),
{
    if rd.len() == 0 {
        (sm, kb, false, false)
    } else {
        let (sm0, kb0, c0, stop0) = strobe_scan(sm, kb, rd.drop_last());
        if stop0 {
            (sm0, kb0, c0, stop0)
        } else {
            let (sm1, evs) = strobe_step(sm0, rd.len() - 1, rd.last());
            let (kb1, c1) = run_events(kb0, evs);
            (sm1, kb1, c0 || c1, kb1.reset)
        }
    }
}

/// A register whose sample did not change reports nothing.
pub proof fn lemma_steady_word_is_quiet(keys: Seq<Option<KeyIndex>>, w: u8, n: int)
    ensures
        word_events(keys, w, w, n) == Seq::<KeyEvent>::empty(),
    decreases n,
{
    if n > 0 {
        lemma_steady_word_is_quiet(keys, w, n - 1);
    }
}

/// The events of a register are exactly its switches' transitions: a `Down(k)` for each bit
/// reading key `k` that went from 0 to 1, an `Up(k)` for each that went from 1 to 0, and nothing
/// else.
pub proof fn lemma_word_events_are_edges(keys: Seq<Option<KeyIndex>>, old: u8, new: u8, n: int, k: KeyIndex)
    requires
        0 <= n <= keys.len(),
    ensures
        word_events(keys, old, new, n).contains(KeyEvent::Down(k)) <==> exists|b: int|
            0 <= b < n && keys[b] == Some(k) && !word_bit(old, b) && #[trigger] word_bit(new, b),
        word_events(keys, old, new, n).contains(KeyEvent::Up(k)) <==> exists|b: int|
            0 <= b < n && keys[b] == Some(k) && word_bit(old, b) && !#[trigger] word_bit(new, b),
    decreases n,
{
    if n > 0 {
        lemma_word_events_are_edges(keys, old, new, n - 1, k);
        let prev = word_events(keys, old, new, n - 1);
        let cur = word_events(keys, old, new, n);
        let b = n - 1;
        if keys[b] == Some(k) && !word_bit(old, b) && word_bit(new, b) {
            assert(cur[cur.len() - 1] == KeyEvent::Down(k));
        }
        if keys[b] == Some(k) && word_bit(old, b) && !word_bit(new, b) {
            assert(cur[cur.len() - 1] == KeyEvent::Up(k));
        }
        assert forall|e: KeyEvent| cur.contains(e) implies prev.contains(e) || (e == KeyEvent::Down(
            k,
        ) ==> keys[b] == Some(k) && !word_bit(old, b) && word_bit(new, b)) && (e == KeyEvent::Up(k)
            ==> keys[b] == Some(k) && word_bit(old, b) && !word_bit(new, b)) by {
            let j = choose|j: int| 0 <= j < cur.len() && cur[j] == e;
            if j < prev.len() {
                assert(prev[j] == e);
            }
        }
        assert forall|e: KeyEvent| prev.contains(e) implies cur.contains(e) by {
            let j = choose|j: int| 0 <= j < prev.len() && prev[j] == e;
            assert(cur[j] == e);
        }
    }
}

/// Register `r` scanned again and again, reading `ws[0]`, `ws[1]`, ...: the final state and the
/// events of each scan.
pub open spec fn strobe_run(sm: StrobeState, r: int, ws: Seq<u8>) -> (StrobeState, Seq<Seq<KeyEvent>>)
    decreases ws.len(),
{
    if ws.len() == 0 {
        (sm, Seq::empty())
    } else {
        let (sm0, evs) = strobe_run(sm, r, ws.drop_last());
        let (sm1, e) = strobe_step(sm0, r, ws.last());
        (sm1, evs.push(e))
    }
}

/// Over a run of samples of one register, each scan reports exactly the bits that changed
/// since the sample before it (the register's stored sample for the first scan), and a scan
/// whose sample repeats the one before reports nothing.
pub proof fn lemma_strobe_run_edges(sm: StrobeState, r: int, ws: Seq<u8>)
    requires
        0 <= r < sm.words.len(),
    ensures
        strobe_run(sm, r, ws).1.len() == ws.len(),
        strobe_run(sm, r, ws).0.keys == sm.keys,
        strobe_run(sm, r, ws).0.words == (if ws.len() == 0 {
            sm.words
        } else {
            sm.words.update(r, ws.last())
        }),
        forall|t: int|
            0 <= t < ws.len() ==> #[trigger] strobe_run(sm, r, ws).1[t] == word_events(
                sm.keys[r],
                if t == 0 {
                    sm.words[r]
                } else {
                    ws[t - 1]
                },
                ws[t],
                STROBE_WIDTH as int,
            ),
        forall|t: int|
            0 <= t < ws.len() && ws[t] == (if t == 0 {
                sm.words[r]
            } else {
                ws[t - 1]
            }) ==> #[trigger] strobe_run(sm, r, ws).1[t] == Seq::<KeyEvent>::empty(),
    decreases ws.len(),
{
    if ws.len() > 0 {
        let init = ws.drop_last();
        lemma_strobe_run_edges(sm, r, init);
        let n = ws.len() - 1;
        let prev = if n == 0 {
            sm.words[r]
        } else {
            ws[n - 1]
        };
        assert(n > 0 ==> init.last() == ws[n - 1]);
        assert(strobe_run(sm, r, init).0.words[r] == prev);
        assert forall|t: int| 0 <= t < ws.len() implies #[trigger] strobe_run(sm, r, ws).1[t]
            == word_events(
            sm.keys[r],
            if t == 0 {
                sm.words[r]
            } else {
                ws[t - 1]
            },
            ws[t],
            STROBE_WIDTH as int,
        ) by {
            if t < n {
                assert(init[t] == ws[t]);
                if t > 0 {
                    assert(init[t - 1] == ws[t - 1]);
                }
            }
        }
        assert forall|t: int|
            0 <= t < ws.len() && ws[t] == (if t == 0 {
                sm.words[r]
            } else {
                ws[t - 1]
            }) implies #[trigger] strobe_run(sm, r, ws).1[t] == Seq::<KeyEvent>::empty() by {
            lemma_steady_word_is_quiet(sm.keys[r], ws[t], STROBE_WIDTH as int);
        }
    }
}

/// What one switch did at scan `t` of a run of samples that follows sample `first`.
pub open spec fn edge_at(first: bool, samples: Seq<bool>, t: int) -> Option<bool> {
    edge(if t == 0 { first } else { samples[t - 1] }, samples[t])
}

proof fn lemma_quiet_keeps_sample(first: bool, samples: Seq<bool>, t1: int, t2: int)
    requires
        0 <= t1 < t2 <= samples.len(),
        forall|t: int| t1 < t < t2 ==> #[trigger] edge_at(first, samples, t) is None,
    ensures
        samples[t2 - 1] == samples[t1],
    decreases t2 - t1,
{
    if t2 - 1 > t1 {
        assert(edge_at(first, samples, t2 - 1) is None);
        lemma_quiet_keeps_sample(first, samples, t1, t2 - 1);
    }
}

/// The events of one switch alternate: two events with none between them are one press and one
/// release, and a switch whose samples start from 0 is pressed before it is released.
pub proof fn lemma_edges_alternate(first: bool, samples: Seq<bool>, t1: int, t2: int)
    requires
        0 <= t1 < t2 < samples.len(),
        edge_at(first, samples, t1) is Some,
        edge_at(first, samples, t2) is Some,
        forall|t: int| t1 < t < t2 ==> #[trigger] edge_at(first, samples, t) is None,
    ensures
        edge_at(first, samples, t1) != edge_at(first, samples, t2),
{
    lemma_quiet_keeps_sample(first, samples, t1, t2);
}

/// The first event of a switch whose samples start from 0 is a press.
pub proof fn lemma_first_edge_is_press(samples: Seq<bool>, t: int)
    requires
        0 <= t < samples.len(),
        edge_at(false, samples, t) is Some,
        forall|u: int| 0 <= u < t ==> #[trigger] edge_at(false, samples, u) is None,
    ensures
        edge_at(false, samples, t) == Some(true),
    decreases t,
{
    if t > 0 {
        assert(edge_at(false, samples, t - 1) is None);
        if t - 1 > 0 {
            lemma_quiet_keeps_sample(false, samples, 0, t);
            assert(edge_at(false, samples, 0) is None);
        }
    }
}

/// The last sample of each register.
pub type Samples = heapless::Vec<u8, MAX_REGS>;

/// The samples held, in register order.
pub uninterp spec fn samples_of(v: Samples) -> Seq<u8>;

/// Relies on heapless::Vec::new: the new vector is empty.
#[verifier::external_body]
fn new_samples() -> (r: Samples)
    ensures
        samples_of(r) == Seq::<u8>::empty(),
{
    heapless::Vec::new()
}

/// Relies on heapless::Vec::push: appends when the length is under the capacity, else hands
/// the item back and leaves the vector as it was.
#[verifier::external_body]
fn push_sample(v: &mut Samples, x: u8) -> (r: Result<(), u8>)
    ensures
        samples_of(*final(v)) == (if samples_of(*old(v)).len() < MAX_REGS {
            samples_of(*old(v)).push(x)
        } else {
            samples_of(*old(v))
        }),
        r == (if samples_of(*old(v)).len() < MAX_REGS {
            Ok::<(), u8>(())
        } else {
            Err(x)
        }),
{
    v.push(x)
}

/// Relies on heapless::Vec::as_slice: the slice holds the vector's items, which never outnumber
/// its capacity.
#[verifier::external_body]
fn sample_slice(v: &Samples) -> (r: &[u8])
    ensures
        r@ == samples_of(*v),
        r@.len() <= MAX_REGS,
{
    v.as_slice()
}

/// Relies on heapless::Vec::as_mut_slice: the item at `i` is replaced, the others stay.
#[verifier::external_body]
fn set_sample(v: &mut Samples, i: usize, x: u8)
    requires
        i < samples_of(*old(v)).len(),
    ensures
        samples_of(*final(v)) == samples_of(*old(v)).update(i as int, x),
{
    v.as_mut_slice()[i] = x;
}

/// A switch matrix read through the strobe bus: register `r` is enabled by driving its enable
/// line low, and the bus then carries one bit per switch. Each register's previous sample is
/// kept; a change of a bit is a key event.
pub struct SwitchMatrix<Q> {
    regs: Vec<[Option<KeyIndex>; 6]>,
    reg_en_pins: Vec<Line<Q>>,
    reg_state: Samples,
    enables_at_read: Ghost<Seq<Option<bool>>>,
}

impl<Q> View for SwitchMatrix<Q> {
    type V = StrobeState;

    closed spec fn view(&self) -> StrobeState {
        StrobeState {
            keys: self.regs@.map_values(|a: [Option<KeyIndex>; 6]| a@),
            words: samples_of(self.reg_state),
        }
    }
}

impl<Q> SwitchMatrix<Q> {
    /// One enable line and one sample per register, at most `MAX_REGS` registers.
    pub closed spec fn wf(&self) -> bool {
        &&& self.regs@.len() <= MAX_REGS
        &&& self.reg_en_pins@.len() == self.regs@.len()
        &&& samples_of(self.reg_state).len() == self.regs@.len()
    }

    /// The level each enable line was last driven to.
    pub closed spec fn en_levels(&self) -> Seq<Option<bool>> {
        self.reg_en_pins@.map_values(|l: Line<Q>| l.level())
    }

    /// The levels of the enable lines while the bus was last read.
    pub closed spec fn enables_at_read(&self) -> Seq<Option<bool>> {
        self.enables_at_read@
    }

    /// Number of registers to scan.
    pub fn num_regs(&self) -> (r: usize)
        requires
            self.wf(),
        ensures
            r == self@.keys.len(),
            r == self@.words.len(),
            r <= MAX_REGS,
    {
        self.regs.len()
    }

    /// Runs register `i_reg` on sample `new_state`: returns the key events of the bits that
    /// changed since its previous sample, in bit order, and keeps the new sample.
    pub fn update_word(&mut self, i_reg: RegIndex, new_state: u8) -> (r: Result<EventList, Error>)
        requires
            old(self).wf(),
            (i_reg as int) < old(self)@.keys.len(),
        ensures
            final(self).wf(),
            final(self).en_levels() == old(self).en_levels(),
            final(self).enables_at_read() == old(self).enables_at_read(),
            r matches Ok(evs) && (final(self)@, events_of(evs)) == strobe_step(
                old(self)@,
                i_reg as int,
                new_state,
            ),
    {
        let r = i_reg as usize;
        let old_state = sample_slice(&self.reg_state)[r];
        let keys = self.regs[r];
        let mut events = new_event_list();
        let mut i: usize = 0;
        while i < STROBE_WIDTH
            invariant
                i <= STROBE_WIDTH,
                keys@ == old(self)@.keys[r as int],
                old_state == old(self)@.words[r as int],
                events_of(events) == word_events(keys@, old_state, new_state, i as int),
                events_of(events).len() <= i,
            decreases STROBE_WIDTH - i,
        {
            let new_bit = (new_state >> (i as u8)) & 1;
            let old_bit = (old_state >> (i as u8)) & 1;
            proof {
                let k = i as u8;
                assert((new_state >> k) & 1u8 == 0 || (new_state >> k) & 1u8 == 1) by (bit_vector);
                assert((old_state >> k) & 1u8 == 0 || (old_state >> k) & 1u8 == 1) by (bit_vector);
            }
            match keys[i] {
                Some(key) => {
                    if new_bit != old_bit {
                        if new_bit == 0 {
                            if push_event(&mut events, KeyEvent::Up(key)).is_err() {
                                return Err(Error::VecOverflow);
                            }
                        } else {
                            if push_event(&mut events, KeyEvent::Down(key)).is_err() {
                                return Err(Error::VecOverflow);
                            }
                        }
                    }
                },
                None => {},
            }
            i = i + 1;
        }
        set_sample(&mut self.reg_state, r, new_state);
        assert(self.en_levels() =~= old(self).en_levels());
        Ok(events)
    }
}

impl<Q: OutputPin> SwitchMatrix<Q> {
    /// A switch matrix for the given registers, each enabled by the pin of the same index; all
    /// registers start disabled (every enable line driven high) with an all-zero previous
    /// sample. Fails with `SizeMismatch` when the counts of registers and enable pins differ or
    /// exceed `MAX_REGS`, and with `PinConfigError` when an enable line cannot be driven.
    pub fn new(regs: Vec<[Option<KeyIndex>; 6]>, reg_en_pins: Vec<Q>) -> (r: Result<Self, Error>)
        ensures
            (regs@.len() != reg_en_pins@.len() || regs@.len() > MAX_REGS) <==> r == Err::<
                Self,
                Error,
            >(Error::SizeMismatch),
            r matches Err(e) ==> e == Error::SizeMismatch || e == Error::PinConfigError,
            regs@.len() == 0 && reg_en_pins@.len() == 0 ==> r is Ok,
            r matches Ok(sm) ==> {
                &&& sm.wf()
                &&& sm@.keys == regs@.map_values(|a: [Option<KeyIndex>; 6]| a@)
                &&& sm@.words == Seq::new(regs@.len(), |i: int| 0u8)
                &&& forall|k: int| 0 <= k < regs@.len() ==> #[trigger] sm.en_levels()[k] == Some(true)
            },
    {
        if regs.len() != reg_en_pins.len() || regs.len() > MAX_REGS {
            return Err(Error::SizeMismatch);
        }
        let mut pins = lines_of(reg_en_pins);
        let mut reg_state = new_samples();
        let mut i: usize = 0;
        while i < pins.len()
            invariant
                i <= pins@.len(),
                pins@.len() == regs@.len(),
                reg_en_pins@.len() == regs@.len(),
                regs@.len() <= MAX_REGS,
                samples_of(reg_state) == Seq::new(i as nat, |k: int| 0u8),
                forall|k: int| 0 <= k < i ==> (#[trigger] pins@[k]).level() == Some(true),
            decreases pins@.len() - i,
        {
            let ghost before = pins@;
            if drive_high(&mut pins[i]).is_err() {
                return Err(Error::PinConfigError);
            }
            assert(forall|k: int| 0 <= k < pins@.len() && k != i ==> pins@[k] == before[k]);
            let pushed = push_sample(&mut reg_state, 0);
            assert(samples_of(reg_state) =~= Seq::new((i + 1) as nat, |k: int| 0u8));
            i = i + 1;
        }
        let sm = SwitchMatrix { regs, reg_en_pins: pins, reg_state, enables_at_read: Ghost(Seq::empty()) };
        assert forall|k: int| 0 <= k < sm.regs@.len() implies #[trigger] sm.en_levels()[k] == Some(true) by {
            assert(sm.en_levels()[k] == sm.reg_en_pins@[k].level());
        }
        Ok(sm)
    }

    /// Scans register `i_reg`: with the bus lock, turns the bus into an output and enables the
    /// register (its enable line low), waits for the lines to settle, turns the bus back into an
    /// input, reads it, and disables the register again; then runs the register on the word
    /// read. Hands the bus and its lock back with the events. While the bus is read, the enable
    /// line of `i_reg` is low and every other enable line keeps its level. A line that cannot be
    /// driven, read or turned aborts the scan with an error.
    pub fn subtick<D: DelayUs<u32>, P: InputPin, O>(
        &mut self,
        i_reg: RegIndex,
        bus: InputBus<P>,
        lock: BusLock,
        delay: &mut D,
    ) -> (r: Result<(EventList, InputBus<P>, BusLock), Error>) where
        P: TryIntoOutputPin<Pin = O>,
        O: TryIntoInputPin<Pin = P>,

        requires
            old(self).wf(),
            bus.wf(),
            (i_reg as int) < old(self)@.keys.len(),
        ensures
            final(self).wf(),
            r matches Ok(res) ==> res.1.wf() && exists|w: u8|
                w < 64 && (final(self)@, events_of(res.0)) == #[trigger] strobe_step(
                    old(self)@,
                    i_reg as int,
                    w,
                ),
            r is Ok ==> final(self).enables_at_read() == old(self).en_levels().update(
                i_reg as int,
                Some(false),
            ),
            r is Ok ==> final(self).en_levels() == old(self).en_levels().update(
                i_reg as int,
                Some(true),
            ),
            r is Err ==> final(self)@ == old(self)@,
    {
        let r = i_reg as usize;
        let out = match bus.into_output_bus(lock) {
            Ok(out) => out,
            Err(e) => {
                return Err(e);
            },
        };
        let ghost levels0 = self.en_levels();
        if let Err(e) = drive_low(&mut self.reg_en_pins[r]) {
            return Err(e);
        }
        assert(self.en_levels() =~= levels0.update(r as int, Some(false)));
        pause_us(delay, 3);
        let (bus, lock) = match out.into_input_bus() {
            Ok(res) => res,
            Err(e) => {
                return Err(e);
            },
        };
        self.enables_at_read = Ghost(self.en_levels());
        let new_state = match bus.read() {
            Ok(w) => w,
            Err(e) => {
                return Err(e);
            },
        };
        if let Err(e) = drive_high(&mut self.reg_en_pins[r]) {
            return Err(e);
        }
        assert(self.en_levels() =~= levels0.update(r as int, Some(true)));
        let events = match self.update_word(i_reg, new_state) {
            Ok(evs) => evs,
            Err(e) => {
                return Err(e);
            },
        };
        Ok((events, bus, lock))
    }
}

/// One scan pass over the strobe bus: every register in index order, each one's key events
/// applied to the keyboard before the next is scanned, stopping early once a reboot is asked
/// for. The bus and its lock go through each register's scan and are handed back. The outcome
/// is that of `strobe_scan` on the words that the bus gave. A line that cannot be driven, read
/// or turned aborts the pass with an error: the registers before the failing one have been
/// scanned, the later ones are left alone. With no register the pass does nothing and succeeds.
pub fn tick<D: DelayUs<u32>, P: InputPin, O, Q: OutputPin>(
    bus: InputBus<P>,
    bus_lock: BusLock,
    switches: &mut SwitchMatrix<Q>,
    vkbd: &mut VKeyboard,
    delay: &mut D,
) -> (r: Result<(bool, InputBus<P>, BusLock), Error>) where
    P: TryIntoOutputPin<Pin = O>,
    O: TryIntoInputPin<Pin = P>,

    requires
        old(switches).wf(),
        old(vkbd).wf(),
        bus.wf(),
    ensures
        final(switches).wf(),
        final(vkbd).wf(),
        r matches Ok(res) ==> res.1.wf() && exists|rd: Seq<u8>|
            {
                &&& (#[trigger] strobe_scan(old(switches)@, old(vkbd)@, rd)).0 == final(switches)@
                &&& strobe_scan(old(switches)@, old(vkbd)@, rd).1 == final(vkbd)@
                &&& strobe_scan(old(switches)@, old(vkbd)@, rd).2 == res.0
                &&& rd.len() <= old(switches)@.keys.len()
                &&& (strobe_scan(old(switches)@, old(vkbd)@, rd).3 || rd.len() == old(
                    switches,
                )@.keys.len())
            },
        old(switches)@.keys.len() == 0 ==> (r matches Ok(res) && !res.0),
        r is Err ==> exists|rd: Seq<u8>|
            {
                &&& (#[trigger] strobe_scan(old(switches)@, old(vkbd)@, rd)).0 == final(switches)@
                &&& strobe_scan(old(switches)@, old(vkbd)@, rd).1 == final(vkbd)@
                &&& !strobe_scan(old(switches)@, old(vkbd)@, rd).3
                &&& rd.len() < old(switches)@.keys.len()
            },
{
    let mut bus = bus;
    let mut bus_lock = bus_lock;
    let n = switches.num_regs();
    let mut updated = false;
    let mut stopped = false;
    let ghost mut rd: Seq<u8> = Seq::empty();
    let mut i: usize = 0;
    while i < n && !stopped
        invariant
            switches.wf(),
            vkbd.wf(),
            bus.wf(),
            n == switches@.keys.len(),
            n == old(switches)@.keys.len(),
            n <= MAX_REGS,
            i <= n,
            rd.len() == i,
            strobe_scan(old(switches)@, old(vkbd)@, rd) == (switches@, vkbd@, updated, stopped),
        decreases n - i,
    {
        let ghost sm0 = switches@;
        let reg = i as RegIndex;
        let (key_events, in_bus, lock) = match switches.subtick(reg, bus, bus_lock, delay) {
            Ok(res) => res,
            Err(e) => {
                return Err(e);
            },
        };
        bus = in_bus;
        bus_lock = lock;
        let ghost w: u8 = choose|w: u8|
            w < 64 && (switches@, events_of(key_events)) == #[trigger] strobe_step(sm0, reg as int, w);
        let now_updated = vkbd.update(key_events)?;
        updated = updated || now_updated;
        proof {
            let prev = rd;
            rd = rd.push(w);
            assert(rd.drop_last() =~= prev);
            assert(rd.last() == w);
            assert(strobe_scan(old(switches)@, old(vkbd)@, rd) == (switches@, vkbd@, updated, vkbd@.reset));
        }
        if vkbd.reset_requested() {
            stopped = true;
        }
        i = i + 1;
    }
    Ok((updated, bus, bus_lock))
}

} // verus!
