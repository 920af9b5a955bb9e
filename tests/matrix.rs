use std::cell::RefCell;
use std::rc::Rc;

use embedded_hal::blocking::delay::DelayUs;
use embedded_hal::digital::v2::OutputPin;
use keeb::board::{make_reg_map, Board, Polarity, RegMap, SwitchSettings};
use keeb::error::Error;
use keeb::layout::{get_layout, Behavior, Keymap, LayoutKind};
use keeb::prelude::RegValue;
use keeb::switch_matrix::{AnalogBus, SwitchMatrix};
use keeb::tick;
use keeb::vkeyboard::{KeyEvent, VKeyboard};

fn keymap(layers: Vec<Vec<Behavior>>) -> Keymap {
    let mut ls: keeb::layout::Layers = heapless::Vec::new();
    for l in layers {
        ls.push(heapless::Vec::from_slice(&l).unwrap()).unwrap();
    }
    Keymap { layout: LayoutKind::LayoutSplit3x6_2, layers: ls }
}


#[derive(Clone)]
struct Line {
    level: Rc<RefCell<Option<bool>>>,
    broken: bool,
}

impl Line {
    fn new() -> Self {
        Line { level: Rc::new(RefCell::new(None)), broken: false }
    }
}

impl OutputPin for Line {
    type Error = ();
    fn set_low(&mut self) -> Result<(), ()> {
        if self.broken {
            return Err(());
        }
        *self.level.borrow_mut() = Some(false);
        Ok(())
    }
    fn set_high(&mut self) -> Result<(), ()> {
        if self.broken {
            return Err(());
        }
        *self.level.borrow_mut() = Some(true);
        Ok(())
    }
}

struct Clock {
    waited: u32,
}

impl DelayUs<u32> for Clock {
    fn delay_us(&mut self, us: u32) {
        self.waited += us;
    }
}

struct Samples {
    values: Vec<RegValue>,
}

impl AnalogBus for Samples {
    fn read(&mut self) -> RegValue {
        self.values.remove(0)
    }
}

fn reg_map(regs: &[[Option<u8>; 4]], calibration: &[[SwitchSettings; 4]]) -> RegMap {
    RegMap {
        regs: heapless::Vec::from_slice(regs).unwrap(),
        calibration: heapless::Vec::from_slice(calibration).unwrap(),
    }
}

fn one_switch_map(key: u8, settings: SwitchSettings) -> RegMap {
    reg_map(&[[Some(key), None, None, None]], &[[settings; 4]])
}

fn lines() -> [Line; 4] {
    [Line::new(), Line::new(), Line::new(), Line::new()]
}

fn events_of(m: &mut SwitchMatrix<Line>, v: u16) -> Vec<KeyEvent> {
    m.update_register(0, [v, 0, 0, 0]).unwrap().iter().copied().collect()
}

/// A fraction of full scale as an ADC reading.
fn counts(fraction: f32) -> u16 {
    (fraction * 4096.0) as u16
}

#[test]
fn default_settings() {
    let s = SwitchSettings::default();
    assert_eq!(s.polarity, Polarity::S);
    assert_eq!(s.trig_down, 410);
    assert_eq!(s.trig_up, 1638);
    assert!(s.is_valid());
    assert!(!SwitchSettings { polarity: Polarity::N, trig_down: 100, trig_up: 200 }.is_valid());
}

#[test]
fn analog_hysteresis_s_polarity() {
    let mut m = SwitchMatrix::new(one_switch_map(9, SwitchSettings::default()), lines()).unwrap();
    assert_eq!(events_of(&mut m, counts(0.5)), vec![]);
    assert_eq!(events_of(&mut m, counts(0.05)), vec![KeyEvent::Down(9)]);
    assert_eq!(events_of(&mut m, counts(0.05)), vec![]);
    assert_eq!(events_of(&mut m, counts(0.5)), vec![KeyEvent::Up(9)]);
}

#[test]
fn analog_band_is_quiet() {
    let mut m = SwitchMatrix::new(one_switch_map(9, SwitchSettings::default()), lines()).unwrap();
    assert_eq!(events_of(&mut m, counts(0.05)), vec![KeyEvent::Down(9)]);
    for f in [0.11f32, 0.39, 0.2, 0.3, 0.15] {
        assert_eq!(events_of(&mut m, counts(f)), vec![]);
    }
    for v in [1638u16, 410] {
        assert_eq!(events_of(&mut m, v), vec![]);
    }
    assert_eq!(events_of(&mut m, 1639), vec![KeyEvent::Up(9)]);
    for v in [1000u16, 500, 1600, 420, 410] {
        assert_eq!(events_of(&mut m, v), vec![]);
    }
}

#[test]
fn analog_hysteresis_n_polarity() {
    let s = SwitchSettings { polarity: Polarity::N, trig_down: 3000, trig_up: 1000 };
    let mut m = SwitchMatrix::new(one_switch_map(2, s), lines()).unwrap();
    assert_eq!(events_of(&mut m, 2000), vec![]);
    assert_eq!(events_of(&mut m, 3001), vec![KeyEvent::Down(2)]);
    assert_eq!(events_of(&mut m, 1500), vec![]);
    assert_eq!(events_of(&mut m, 999), vec![KeyEvent::Up(2)]);
}

#[test]
fn unmapped_bits_are_ignored() {
    let map = reg_map(&[[None, Some(4), None, Some(6)]], &[[SwitchSettings::default(); 4]]);
    let mut m = SwitchMatrix::new(map, lines()).unwrap();
    let evs: Vec<KeyEvent> = m.update_register(0, [0, 0, 0, 0]).unwrap().iter().copied().collect();
    assert_eq!(evs, vec![KeyEvent::Down(4), KeyEvent::Down(6)]);
    assert_eq!(m.num_regs(), 1);
}

#[test]
fn subtick_selects_register_and_reads() {
    let map = reg_map(
        &[[None; 4], [None; 4], [None; 4], [None; 4], [None; 4], [Some(1), None, None, None]],
        &[[SwitchSettings::default(); 4]; 6],
    );
    let sel = lines();
    let probe: Vec<Rc<RefCell<Option<bool>>>> = sel.iter().map(|l| l.level.clone()).collect();
    let mut m = SwitchMatrix::new(map, sel).unwrap();
    let mut bus = Samples { values: vec![[0, 4000, 4000, 4000]] };
    let mut clock = Clock { waited: 0 };
    let evs: Vec<KeyEvent> = m.subtick(5, &mut bus, &mut clock).unwrap().iter().copied().collect();
    assert_eq!(evs, vec![KeyEvent::Down(1)]);
    // register 5 = 0b0101 on the select lines, least significant line first
    let levels: Vec<Option<bool>> = probe.iter().map(|p| *p.borrow()).collect();
    assert_eq!(levels, vec![Some(true), Some(false), Some(true), Some(false)]);
    assert_eq!(clock.waited, 3);
}

#[test]
fn subtick_reports_broken_select_line() {
    let mut sel = lines();
    sel[2].broken = true;
    let mut m = SwitchMatrix::new(one_switch_map(1, SwitchSettings::default()), sel).unwrap();
    let mut bus = Samples { values: vec![[0, 0, 0, 0]] };
    let mut clock = Clock { waited: 0 };
    assert_eq!(m.subtick(0, &mut bus, &mut clock).unwrap_err(), Error::PinConfigError);
}

fn board(matrix: Vec<Vec<(u8, u8)>>) -> Board {
    let mut rows: keeb::board::MatrixRows = heapless::Vec::new();
    let mut calibration: keeb::board::CalibrationRows = heapless::Vec::new();
    for r in &matrix {
        rows.push(heapless::Vec::from_slice(r).unwrap()).unwrap();
        calibration.push(heapless::Vec::from_slice(&vec![SwitchSettings::default(); r.len()]).unwrap()).unwrap();
    }
    Board {
        matrix: rows,
        matrix_calibration: calibration,
        bus_pins: [29, 28, 27, 26],
        sel_pins: [0, 1, 2, 3],
        led_ind_pins: [4, 5],
    }
}

#[test]
fn reg_map_composes_matrix_and_layout() {
    let layout = get_layout(LayoutKind::LayoutSplit3x6_2);
    let b = board(vec![vec![(0, 0), (0, 1)], vec![(1, 3), (20, 0)], vec![], vec![], vec![(1, 0)]]);
    let map = make_reg_map(&b, &layout);
    assert_eq!(map.regs.len(), 2);
    assert_eq!(map.calibration.len(), 2);
    // (0,0) is key 0, (0,1) key 1, (1,0) key 12, (4,0) key 6; register 20 is dropped
    assert_eq!(map.regs[0], [Some(0), Some(1), None, None]);
    assert_eq!(map.regs[1], [Some(6), None, None, Some(12)]);
}

#[test]
fn reg_map_keeps_calibration_and_skips_wide_bits() {
    let layout = get_layout(LayoutKind::LayoutSplit3x6_2);
    let mut b = board(vec![vec![(2, 1), (0, 9)]]);
    let s = SwitchSettings { polarity: Polarity::N, trig_down: 3000, trig_up: 100 };
    b.matrix_calibration[0][0] = s;
    let map = make_reg_map(&b, &layout);
    assert_eq!(map.regs.len(), 3);
    assert_eq!(map.regs[2], [None, Some(0), None, None]);
    assert_eq!(map.regs[0], [None; 4]);
    assert_eq!(map.calibration[2][1], s);
    assert_eq!(map.calibration[2][0], SwitchSettings::default());
}

#[test]
fn analog_tick_end_to_end() {
    let layout = get_layout(LayoutKind::LayoutSplit3x6_2);
    let b = board(vec![vec![(0, 0), (1, 0)]]);
    let map = make_reg_map(&b, &layout);
    let mut m = SwitchMatrix::new(map, lines()).unwrap();
    let mut layer0 = vec![Behavior::Noop; 40];
    layer0[0] = Behavior::A;
    layer0[1] = Behavior::Reset;
    let mut kb = VKeyboard::new(keymap(vec![layer0])).unwrap();
    let mut clock = Clock { waited: 0 };
    let bus = Samples { values: vec![[100, 4000, 4000, 4000], [4000, 4000, 4000, 4000]] };
    let (changed, bus) = tick(bus, &mut m, &mut kb, &mut clock).unwrap();
    assert!(changed);
    assert_eq!(kb.get_report().boot_keys[0], 4);
    assert!(bus.values.is_empty());
    // the reset key on register 1 stops the pass after that register
    let bus = Samples { values: vec![[4000, 0, 0, 0], [100, 0, 0, 0], [0, 0, 0, 0]] };
    let (changed, bus) = tick(bus, &mut m, &mut kb, &mut clock).unwrap();
    assert!(changed);
    assert!(kb.reset_requested());
    assert_eq!(bus.values.len(), 1);
}

struct Pad {
    id: usize,
    stuck: bool,
}

impl keeb::bus::TryIntoOutputPin for Pad {
    type Pin = usize;
    fn try_into_output_pin(self) -> Result<usize, Error> {
        if self.stuck {
            return Err(Error::UsbError);
        }
        Ok(self.id)
    }
}

fn pads(ids: &[usize]) -> Vec<Pad> {
    ids.iter().map(|&id| Pad { id, stuck: false }).collect()
}

#[test]
fn split_pins_takes_named_pins() {
    let b = board(vec![]);
    let ids = vec![9, 0, 1, 2, 3, 4, 5, 7];
    let p = keeb::board::split_pins(pads(&ids), ids.clone(), &b).ok().unwrap();
    assert_eq!(p.sel_pins, [0, 1, 2, 3]);
    assert_eq!(p.led_ind_pins, [4, 5]);
}

#[test]
fn split_pins_missing_id() {
    let b = board(vec![]);
    let ids = vec![0, 1, 2, 3, 4];
    let r = keeb::board::split_pins(pads(&ids), ids.clone(), &b);
    assert_eq!(r.err().unwrap(), Error::PinConfigError);
}

#[test]
fn split_pins_conversion_failure() {
    let b = board(vec![]);
    let ids = vec![0, 1, 2, 3, 4, 5];
    let mut p = pads(&ids);
    p[1].stuck = true;
    let r = keeb::board::split_pins(p, ids.clone(), &b);
    assert_eq!(r.err().unwrap(), Error::UsbError);
}

#[test]
fn board_validity() {
    let mut b = board(vec![vec![(0, 0), (0, 1)]]);
    assert!(b.is_valid());
    b.matrix_calibration[0][1] = SwitchSettings { polarity: Polarity::S, trig_down: 500, trig_up: 400 };
    assert!(!b.is_valid());
    let mut b = board(vec![vec![(0, 0), (0, 1)]]);
    b.matrix_calibration[0].pop();
    assert!(!b.is_valid());
}

#[test]
fn select_levels_are_binary_address() {
    assert_eq!(keeb::switch_matrix::select_levels(0), [false; 4]);
    assert_eq!(keeb::switch_matrix::select_levels(6), [false, true, true, false]);
    assert_eq!(keeb::switch_matrix::select_levels(15), [true; 4]);
}

#[test]
fn reg_map_leaves_unplaced_positions_out() {
    let layout = get_layout(LayoutKind::LayoutSplit3x6_2);
    // matrix position (3, 5) holds no key of the split 3x6+2 layout
    let b = board(vec![vec![(0, 0)], vec![], vec![], vec![(0, 1), (0, 2), (1, 3), (1, 2), (0, 3), (1, 1)]]);
    let map = make_reg_map(&b, &layout);
    assert_eq!(map.regs[0], [Some(0), Some(36), Some(37), None]);
    assert_eq!(map.regs[1], [None, None, None, None]);
}

#[test]
fn analog_tick_with_no_register() {
    let map = reg_map(&[], &[]);
    let mut m = SwitchMatrix::new(map, lines()).unwrap();
    let mut kb = VKeyboard::new(keymap(vec![])).unwrap();
    let bus = Samples { values: vec![] };
    let (changed, _) = tick(bus, &mut m, &mut kb, &mut Clock { waited: 0 }).unwrap();
    assert!(!changed);
}
