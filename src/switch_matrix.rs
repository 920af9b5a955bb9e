use vstd::prelude::*;
use embedded_hal::blocking::delay::DelayUs;
use embedded_hal::digital::v2::OutputPin;
use crate::board::{
    reg_calibration_of, reg_calibration_slice, reg_keys_of, reg_keys_slice, settings_ok, Polarity,
    RegMap, SwitchSettings,
};
use crate::error::Error;
use crate::pins::{drive, lines_of, pause_us, vec_from_array, Line};
use crate::prelude::{KeyIndex, RegIndex, RegValue, BUS_WIDTH, MAX_REGS, SEL_WIDTH};
use crate::vkeyboard::{events_of, new_event_list, push_event, EventList, KeyEvent};

verus! {

/// An analog bus: samples every sense line of the register that the select lines address.
pub trait AnalogBus {
    fn read(&mut self) -> RegValue;
}

/// What one switch did during one scan.
#[derive(Debug, Clone, Copy, PartialEq, Eq, Structural)]
pub enum RegEvent {
    NoChange,
    SwitchDown,
    SwitchUp,
}

/// One hysteresis step of an analog switch that reads `v`: whether it is down afterwards, and
/// what it did. With polarity `S` an up switch goes down below `trig_down` and a down switch goes
/// up above `trig_up`; with polarity `N` the comparisons are reversed. Readings inside the band
/// between the thresholds change nothing.
pub open spec fn hysteresis(is_down: bool, s: SwitchSettings, v: u16) -> (bool, RegEvent) {
    match s.polarity {
        Polarity::S => if is_down && v > s.trig_up {
            (false, RegEvent::SwitchUp)
        } else if !is_down && v < s.trig_down {
            (true, RegEvent::SwitchDown)
        } else {
            (is_down, RegEvent::NoChange)
        },
        Polarity::N => if is_down && v < s.trig_up {
            (false, RegEvent::SwitchUp)
        } else if !is_down && v > s.trig_down {
            (true, RegEvent::SwitchDown)
        } else {
            (is_down, RegEvent::NoChange)
        },
    }
}

/// One switch run through the readings `vs` in order from state `is_down`: its final state
/// and what it did on each reading.
pub open spec fn switch_run(is_down: bool, s: SwitchSettings, vs: Seq<u16>) -> (bool, Seq<RegEvent>)
    decreases vs.len(),
{
    if vs.len() == 0 {
        (is_down, Seq::empty())
    } else {
        let (d, evs) = switch_run(is_down, s, vs.drop_last());
        let (d2, e) = hysteresis(d, s, vs.last());
        (d2, evs.push(e))
    }
}

/// Reading `v` lies in the hysteresis band, between the two thresholds.
pub open spec fn in_band(s: SwitchSettings, v: u16) -> bool {
    match s.polarity {
        Polarity::S => s.trig_down <= v && v <= s.trig_up,
        Polarity::N => s.trig_up <= v && v <= s.trig_down,
    }
}

/// Readings inside the hysteresis band never move a switch: whatever their number and order,
/// the switch keeps its state and reports nothing.
pub proof fn lemma_band_is_quiet(is_down: bool, s: SwitchSettings, vs: Seq<u16>)
    requires
        forall|i: int| 0 <= i < vs.len() ==> in_band(s, #[trigger] vs[i]),
    ensures
        switch_run(is_down, s, vs) == (is_down, Seq::new(vs.len(), |i: int| RegEvent::NoChange)),
    decreases vs.len(),
{
    if vs.len() > 0 {
        let prefix = vs.drop_last();
        assert forall|i: int| 0 <= i < prefix.len() implies in_band(s, #[trigger] prefix[i]) by {
            assert(prefix[i] == vs[i]);
        }
        lemma_band_is_quiet(is_down, s, prefix);
        assert(in_band(s, vs[vs.len() - 1]));
        assert(Seq::new(prefix.len(), |i: int| RegEvent::NoChange).push(RegEvent::NoChange)
            =~= Seq::new(vs.len(), |i: int| RegEvent::NoChange));
    }
}

/// A switch only ever alternates: it goes down only while up and up only while down, so its
/// events alternate between `SwitchDown` and `SwitchUp`.
pub proof fn lemma_hysteresis_alternates(is_down: bool, s: SwitchSettings, v: u16)
    ensures
        hysteresis(is_down, s, v).1 == RegEvent::SwitchDown ==> !is_down && hysteresis(is_down, s, v).0,
        hysteresis(is_down, s, v).1 == RegEvent::SwitchUp ==> is_down && !hysteresis(is_down, s, v).0,
        hysteresis(is_down, s, v).1 == RegEvent::NoChange ==> hysteresis(is_down, s, v).0 == is_down,
{
}

/// One step of a register bit: a bit that reads a key follows `hysteresis`, any other bit keeps
/// its state and does nothing.
pub open spec fn switch_step(is_down: bool, s: SwitchSettings, key: Option<KeyIndex>, v: u16) -> (
    bool,
    RegEvent,
) {
    if key is Some {
        hysteresis(is_down, s, v)
    } else {
        (is_down, RegEvent::NoChange)
    }
}

/// The key events of the first `n` bits of a register, in bit order: a `Down` or `Up` for each
/// bit that reads a key and went down or up.
pub open spec fn key_events(keys: Seq<Option<KeyIndex>>, evs: Seq<RegEvent>, n: int) -> Seq<
    KeyEvent,
>
    decreases n,
{
    if n <= 0 {
        Seq::empty()
    } else {
        let prev = key_events(keys, evs, n - 1);
        match (keys[n - 1], evs[n - 1]) {
            (Some(k), RegEvent::SwitchDown) => prev.push(KeyEvent::Down(k)),
            (Some(k), RegEvent::SwitchUp) => prev.push(KeyEvent::Up(k)),
            _ => prev,
        }
    }
}

/// The state of the switch matrix, as the contracts speak of it: for each register and bit,
/// the key it reads, the switch's calibration, and whether the switch is down.
pub struct MatrixState {
    pub keys: Seq<Seq<Option<KeyIndex>>>,
    pub settings: Seq<Seq<SwitchSettings>>,
    pub down: Seq<Seq<bool>>,
}

/// Scanning register `r` with readings `v`: the new state of the matrix and the key events, in
/// bit order.
pub open spec fn register_step(sm: MatrixState, r: int, v: Seq<u16>) -> (MatrixState, Seq<KeyEvent>) {
    let steps = Seq::new(
        BUS_WIDTH as nat,
        |b: int| switch_step(sm.down[r][b], sm.settings[r][b], sm.keys[r][b], v[b]),
    );
    (
        MatrixState { down: sm.down.update(r, Seq::new(BUS_WIDTH as nat, |b: int| steps[b].0)), ..sm },
        key_events(sm.keys[r], Seq::new(BUS_WIDTH as nat, |b: int| steps[b].1), BUS_WIDTH as int),
    )
}

/// A matrix state with the same number of registers in each part, `BUS_WIDTH` bits each, and
/// valid calibrations.
pub open spec fn matrix_ok(sm: MatrixState) -> bool {
    &&& sm.keys.len() <= MAX_REGS
    &&& sm.settings.len() == sm.keys.len()
    &&& sm.down.len() == sm.keys.len()
    &&& forall|r: int| 0 <= r < sm.keys.len() ==> #[trigger] sm.keys[r].len() == BUS_WIDTH
    &&& forall|r: int| 0 <= r < sm.keys.len() ==> #[trigger] sm.settings[r].len() == BUS_WIDTH
    &&& forall|r: int| 0 <= r < sm.keys.len() ==> #[trigger] sm.down[r].len() == BUS_WIDTH
    &&& forall|r: int, b: int|
        0 <= r < sm.keys.len() && 0 <= b < BUS_WIDTH ==> settings_ok(#[trigger] sm.settings[r][b])
}

/// One analog switch: whether it is down, and its calibration.
#[derive(Debug, Clone, Copy)]
pub struct SwitchState {
    is_down: bool,
    settings: SwitchSettings,
}

impl SwitchState {
    fn new(settings: SwitchSettings) -> (r: Self)
        ensures
            r == (SwitchState { is_down: false, settings }),
    {
        SwitchState { is_down: false, settings }
    }
}

/// The switches of one register, and which of them read a key.
#[derive(Debug, Clone, Copy)]
pub struct RegState {
    is_enabled: [bool; 4],
    state: [SwitchState; 4],
}

impl RegState {
    spec fn down_view(&self) -> Seq<bool> {
        Seq::new(BUS_WIDTH as nat, |b: int| self.state@[b].is_down)
    }

    spec fn settings_view(&self) -> Seq<SwitchSettings> {
        Seq::new(BUS_WIDTH as nat, |b: int| self.state@[b].settings)
    }

    fn new(calib: [SwitchSettings; 4]) -> (r: Self)
        ensures
            r.down_view() == Seq::new(BUS_WIDTH as nat, |b: int| false),
            r.settings_view() == calib@,
            forall|b: int| 0 <= b < BUS_WIDTH ==> !#[trigger] r.is_enabled@[b],
    {
        let r = RegState {
            is_enabled: [false; 4],
            state: [
                SwitchState::new(calib[0]),
                SwitchState::new(calib[1]),
                SwitchState::new(calib[2]),
                SwitchState::new(calib[3]),
            ],
        };
        assert(r.down_view() =~= Seq::new(BUS_WIDTH as nat, |b: int| false));
        assert(r.settings_view() =~= calib@);
        r
    }

    /// Runs the hysteresis of every enabled switch on its reading.
    fn update(&mut self, new_values: RegValue) -> (r: [RegEvent; 4])
        requires
            forall|b: int| 0 <= b < BUS_WIDTH ==> settings_ok(#[trigger] old(self).state@[b].settings),
        ensures
            final(self).is_enabled == old(self).is_enabled,
            final(self).settings_view() == old(self).settings_view(),
            forall|b: int|
                0 <= b < BUS_WIDTH ==> (#[trigger] final(self).state@[b].is_down, r@[b]) == (if old(
                    self,
                ).is_enabled@[b] {
                    hysteresis(old(self).state@[b].is_down, old(self).state@[b].settings, new_values@[b])
                } else {
                    (old(self).state@[b].is_down, RegEvent::NoChange)
                }),
    {
        let mut events = [RegEvent::NoChange; 4];
        let mut i: usize = 0;
        while i < BUS_WIDTH
            invariant
                i <= BUS_WIDTH,
                self.is_enabled == old(self).is_enabled,
                forall|b: int| 0 <= b < BUS_WIDTH ==> (#[trigger] self.state@[b]).settings == old(self).state@[b].settings,
                forall|b: int| i <= b < BUS_WIDTH ==> #[trigger] self.state@[b] == old(self).state@[b],
                forall|b: int| i <= b < BUS_WIDTH ==> #[trigger] events@[b] == RegEvent::NoChange,
                forall|b: int|
                    0 <= b < i ==> (#[trigger] self.state@[b].is_down, events@[b]) == (if old(
                        self,
                    ).is_enabled@[b] {
                        hysteresis(old(self).state@[b].is_down, old(self).state@[b].settings, new_values@[b])
                    } else {
                        (old(self).state@[b].is_down, RegEvent::NoChange)
                    }),
            decreases BUS_WIDTH - i,
        {
            if self.is_enabled[i] {
                let mut state = self.state[i];
                let settings = state.settings;
                let value = new_values[i];
                match settings.polarity {
                    Polarity::S => {
                        if state.is_down && value > settings.trig_up {
                            state.is_down = false;
                            events[i] = RegEvent::SwitchUp;
                        } else if !state.is_down && value < settings.trig_down {
                            state.is_down = true;
                            events[i] = RegEvent::SwitchDown;
                        }
                    },
                    Polarity::N => {
                        if state.is_down && value < settings.trig_up {
                            state.is_down = false;
                            events[i] = RegEvent::SwitchUp;
                        } else if !state.is_down && value > settings.trig_down {
                            state.is_down = true;
                            events[i] = RegEvent::SwitchDown;
                        }
                    },
                }
                self.state[i] = state;
            }
            i = i + 1;
        }
        assert(self.settings_view() =~= old(self).settings_view());
        events
    }
}

/// The state of each register's switches.
pub type RegStates = heapless::Vec<RegState, MAX_REGS>;

/// The register states held, in register order.
pub uninterp spec fn reg_states_of(v: RegStates) -> Seq<RegState>;

/// Relies on heapless::Vec::new: the new vector is empty.
#[verifier::external_body]
fn new_reg_states() -> (r: RegStates)
    ensures
        reg_states_of(r) == Seq::<RegState>::empty(),
{
    heapless::Vec::new()
}

/// Relies on heapless::Vec::push: appends when the length is under the capacity, else hands
/// the item back and leaves the vector as it was.
#[verifier::external_body]
fn push_reg_state(v: &mut RegStates, x: RegState) -> (r: Result<(), RegState>)
    ensures
        reg_states_of(*final(v)) == (if reg_states_of(*old(v)).len() < MAX_REGS {
            reg_states_of(*old(v)).push(x)
        } else {
            reg_states_of(*old(v))
        }),
        r == (if reg_states_of(*old(v)).len() < MAX_REGS {
            Ok::<(), RegState>(())
        } else {
            Err(x)
        }),
{
    v.push(x)
}

/// Relies on heapless::Vec::as_slice: the slice holds the vector's items, which never outnumber
/// its capacity.
#[verifier::external_body]
fn reg_state_slice(v: &RegStates) -> (r: &[RegState])
    ensures
        r@ == reg_states_of(*v),
        r@.len() <= MAX_REGS,
{
    v.as_slice()
}

/// Relies on heapless::Vec::as_mut_slice: the item at `i` is replaced, the others stay.
#[verifier::external_body]
fn set_reg_state(v: &mut RegStates, i: usize, x: RegState)
    requires
        i < reg_states_of(*old(v)).len(),
    ensures
        reg_states_of(*final(v)) == reg_states_of(*old(v)).update(i as int, x),
{
    v.as_mut_slice()[i] = x;
}

/// The analog switch matrix: addresses one register at a time through the select lines, runs
/// the hysteresis of each switch on the readings and reports key events.
pub struct SwitchMatrix<Q> {
    reg_map: RegMap,
    sel_pins: Vec<Line<Q>>,
    reg_state: RegStates,
}

/// The levels that address register `i_reg` on the select lines: line `k` carries bit `k` of
/// the register index.
pub fn select_levels(i_reg: RegIndex) -> (r: [bool; 4])
    ensures
        forall|k: int| 0 <= k < SEL_WIDTH ==> #[trigger] r@[k] == ((i_reg >> (k as u8)) & 1u8 == 1u8),
{
    let mut r = [false; 4];
    let mut k: usize = 0;
    while k < SEL_WIDTH
        invariant
            k <= SEL_WIDTH,
            forall|j: int| 0 <= j < k ==> #[trigger] r@[j] == ((i_reg >> (j as u8)) & 1u8 == 1u8),
        decreases SEL_WIDTH - k,
    {
        r[k] = (i_reg >> (k as u8)) & 1 == 1;
        k = k + 1;
    }
    r
}

impl<Q> View for SwitchMatrix<Q> {
    type V = MatrixState;

    closed spec fn view(&self) -> MatrixState {
        MatrixState {
            keys: reg_keys_of(self.reg_map.regs).map_values(|a: [Option<KeyIndex>; 4]| a@),
            settings: reg_states_of(self.reg_state).map_values(|s: RegState| s.settings_view()),
            down: reg_states_of(self.reg_state).map_values(|s: RegState| s.down_view()),
        }
    }
}

impl<Q> SwitchMatrix<Q> {
    /// The matrix state is well formed, and a switch takes part in scanning exactly when its
    /// bit reads a key.
    pub closed spec fn wf(&self) -> bool {
        &&& matrix_ok(self@)
        &&& self.sel_pins@.len() == SEL_WIDTH
        &&& reg_states_of(self.reg_state).len() == reg_keys_of(self.reg_map.regs).len()
        &&& forall|r: int, b: int|
            0 <= r < reg_states_of(self.reg_state).len() && 0 <= b < BUS_WIDTH ==> (#[trigger] reg_states_of(self.reg_state)[r].is_enabled@[b]
                <==> reg_keys_of(self.reg_map.regs)[r]@[b] is Some)
    }

    /// The level each select line was last driven to.
    pub closed spec fn sel_levels(&self) -> Seq<Option<bool>> {
        self.sel_pins@.map_values(|l: Line<Q>| l.level())
    }

    /// A switch matrix for a register map, every switch up.
    pub fn new(reg_map: RegMap, sel_pins: [Q; 4]) -> (r: Result<Self, Error>)
        requires
            reg_map.wf(),
        ensures
            r matches Ok(sm) && sm.wf() && sm@ == (MatrixState {
                keys: reg_keys_of(reg_map.regs).map_values(|a: [Option<KeyIndex>; 4]| a@),
                settings: reg_calibration_of(reg_map.calibration).map_values(|a: [SwitchSettings; 4]| a@),
                down: Seq::new(reg_keys_of(reg_map.regs).len(), |r: int| Seq::new(BUS_WIDTH as nat, |b: int| false)),
            }),
    {
        let n = reg_keys_slice(&reg_map.regs).len();
        let mut reg_state = new_reg_states();
        let mut i: usize = 0;
        while i < n
            invariant
                reg_map.wf(),
                n == reg_keys_of(reg_map.regs).len(),
                i <= n,
                reg_states_of(reg_state).len() == i,
                forall|r: int| 0 <= r < i ==> (#[trigger] reg_states_of(reg_state)[r]).settings_view() == reg_calibration_of(reg_map.calibration)[r]@,
                forall|r: int| 0 <= r < i ==> (#[trigger] reg_states_of(reg_state)[r]).down_view() == Seq::new(BUS_WIDTH as nat, |b: int| false),
                forall|r: int, b: int|
                    0 <= r < i && 0 <= b < BUS_WIDTH ==> (#[trigger] reg_states_of(reg_state)[r].is_enabled@[b]
                        <==> reg_keys_of(reg_map.regs)[r]@[b] is Some),
            decreases n - i,
        {
            let mut st = RegState::new(reg_calibration_slice(&reg_map.calibration)[i]);
            let keys = reg_keys_slice(&reg_map.regs)[i];
            let mut j: usize = 0;
            while j < BUS_WIDTH
                invariant
                    j <= BUS_WIDTH,
                    st.down_view() == Seq::new(BUS_WIDTH as nat, |b: int| false),
                    st.settings_view() == reg_calibration_of(reg_map.calibration)[i as int]@,
                    forall|b: int| 0 <= b < j ==> (#[trigger] st.is_enabled@[b] <==> keys@[b] is Some),
                    forall|b: int| j <= b < BUS_WIDTH ==> !#[trigger] st.is_enabled@[b],
                decreases BUS_WIDTH - j,
            {
                if keys[j].is_some() {
                    st.is_enabled[j] = true;
                }
                j = j + 1;
                assert(st.down_view() =~= Seq::new(BUS_WIDTH as nat, |b: int| false));
            }
            let pushed = push_reg_state(&mut reg_state, st);
            i = i + 1;
        }
        let sel_pins = lines_of(vec_from_array(sel_pins));
        let sm = SwitchMatrix { reg_map, sel_pins, reg_state };
        assert(sm@.settings =~= reg_calibration_of(sm.reg_map.calibration).map_values(|a: [SwitchSettings; 4]| a@));
        assert(sm@.down =~= Seq::new(n as nat, |r: int| Seq::new(BUS_WIDTH as nat, |b: int| false)));
        Ok(sm)
    }

    /// Number of registers to scan.
    pub fn num_regs(&self) -> (r: usize)
        requires
            self.wf(),
        ensures
            r == self@.keys.len(),
            r <= MAX_REGS,
    {
        reg_keys_slice(&self.reg_map.regs).len()
    }

    /// Runs register `i_reg` on readings `values`: updates its switches and returns their key
    /// events in bit order.
    pub fn update_register(&mut self, i_reg: RegIndex, values: RegValue) -> (r: Result<EventList, Error>)
        requires
            old(self).wf(),
            (i_reg as int) < old(self)@.keys.len(),
        ensures
            final(self).wf(),
            final(self).sel_levels() == old(self).sel_levels(),
            r matches Ok(evs) && (final(self)@, events_of(evs)) == register_step(
                old(self)@,
                i_reg as int,
                values@,
            ),
    {
        let r = i_reg as usize;
        let mut st = reg_state_slice(&self.reg_state)[r];
        proof {
            assert forall|b: int| 0 <= b < BUS_WIDTH implies settings_ok(#[trigger] st.state@[b].settings) by {
                assert(st.settings_view()[b] == self@.settings[r as int][b]);
            }
        }
        let ghost old_st = st;
        let reg_events = st.update(values);
        set_reg_state(&mut self.reg_state, r, st);
        let ghost old_sm = old(self)@;
        let ghost steps = Seq::new(
            BUS_WIDTH as nat,
            |b: int| switch_step(old_sm.down[r as int][b], old_sm.settings[r as int][b], old_sm.keys[r as int][b], values@[b]),
        );
        let keys = reg_keys_slice(&self.reg_map.regs)[r];
        assert(keys@ == old_sm.keys[r as int]);
        assert forall|b: int| 0 <= b < BUS_WIDTH implies #[trigger] steps[b] == (
            st.state@[b].is_down,
            reg_events@[b],
        ) by {
            assert(old_sm.down[r as int][b] == old_st.down_view()[b]);
            assert(old_sm.settings[r as int][b] == old_st.settings_view()[b]);
            assert(old_st.is_enabled@[b] <==> old_sm.keys[r as int][b] is Some);
        }
        assert(st.down_view() =~= Seq::new(BUS_WIDTH as nat, |b: int| steps[b].0));
        assert(self@.down =~= old_sm.down.update(r as int, Seq::new(BUS_WIDTH as nat, |b: int| steps[b].0)));
        let mut events = new_event_list();
        let mut i: usize = 0;
        while i < BUS_WIDTH
            invariant
                i <= BUS_WIDTH,
                keys@ == old_sm.keys[r as int],
                forall|b: int| 0 <= b < BUS_WIDTH ==> #[trigger] reg_events@[b] == steps[b].1,
                events_of(events) == key_events(keys@, Seq::new(BUS_WIDTH as nat, |b: int| steps[b].1), i as int),
                events_of(events).len() <= i,
            decreases BUS_WIDTH - i,
        {
            let ghost evs = Seq::new(BUS_WIDTH as nat, |b: int| steps[b].1);
            assert(evs[i as int] == reg_events@[i as int]);
            match keys[i] {
                Some(key) => match reg_events[i] {
                    RegEvent::NoChange => {},
                    RegEvent::SwitchUp => {
                        if push_event(&mut events, KeyEvent::Up(key)).is_err() {
                            return Err(Error::VecOverflow);
                        }
                    },
                    RegEvent::SwitchDown => {
                        if push_event(&mut events, KeyEvent::Down(key)).is_err() {
                            return Err(Error::VecOverflow);
                        }
                    },
                },
                None => {},
            }
            i = i + 1;
        }
        assert(self@.settings =~= old_sm.settings);
        assert(self.sel_levels() =~= old(self).sel_levels());
        Ok(events)
    }
}

impl<Q: OutputPin> SwitchMatrix<Q> {
    /// Scans register `i_reg`: drives the select lines with its index in binary, waits for the
    /// lines to settle, samples the bus and runs the register on the readings. A select line
    /// that cannot be driven aborts the scan with `PinConfigError`.
    pub fn subtick<D: DelayUs<u32>, B: AnalogBus>(
        &mut self,
        i_reg: RegIndex,
        bus: &mut B,
        delay: &mut D,
    ) -> (r: Result<EventList, Error>)
        requires
            old(self).wf(),
            (i_reg as int) < old(self)@.keys.len(),
        ensures
            final(self).wf(),
            r is Ok ==> forall|k: int|
                0 <= k < SEL_WIDTH ==> #[trigger] final(self).sel_levels()[k] == Some(
                    (i_reg >> (k as u8)) & 1u8 == 1u8,
                ),
            r matches Ok(evs) ==> exists|v: RegValue|
                (final(self)@, events_of(evs)) == #[trigger] register_step(old(self)@, i_reg as int, v@),
            r matches Err(e) ==> e == Error::PinConfigError && final(self)@ == old(self)@,
    {
        let levels = select_levels(i_reg);
        let mut i: usize = 0;
        while i < SEL_WIDTH
            invariant
                i <= SEL_WIDTH,
                self.wf(),
                self@ == old(self)@,
                forall|k: int| 0 <= k < i ==> #[trigger] self.sel_levels()[k] == Some(levels@[k]),
            decreases SEL_WIDTH - i,
        {
            let ghost before = self.sel_levels();
            match drive(&mut self.sel_pins[i], levels[i]) {
                Ok(()) => {},
                Err(e) => {
                    return Err(e);
                },
            }
            assert(self.sel_levels() =~= before.update(i as int, Some(levels@[i as int])));
            i = i + 1;
        }
        pause_us(delay, 2);
        let read_values = bus.read();
        let events = self.update_register(i_reg, read_values);
        pause_us(delay, 1);
        events
    }
}

} // verus!
