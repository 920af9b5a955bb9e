use std::cell::RefCell;
use std::rc::Rc;

use embedded_hal::blocking::delay::DelayUs;
use embedded_hal::digital::v2::{InputPin, OutputPin};
use keeb::bus::{make_bus, TryIntoInputPin, TryIntoOutputPin};
use keeb::error::Error;
use keeb::layout::{Behavior, Keymap, LayoutKind};
use keeb::strobe::{tick, SwitchMatrix};
use keeb::vkeyboard::{KeyEvent, VKeyboard};

fn keymap(layers: Vec<Vec<Behavior>>) -> Keymap {
    let mut ls: keeb::layout::Layers = heapless::Vec::new();
    for l in layers {
        ls.push(heapless::Vec::from_slice(&l).unwrap()).unwrap();
    }
    Keymap { layout: LayoutKind::LayoutSplit3x6_2, layers: ls }
}


/// A line shared by its input and output ends.
type Wire = Rc<RefCell<bool>>;

struct In {
    wire: Wire,
    stuck: bool,
}

struct Out {
    wire: Wire,
}

impl InputPin for In {
    type Error = ();
    fn is_high(&self) -> Result<bool, ()> {
        Ok(*self.wire.borrow())
    }
    fn is_low(&self) -> Result<bool, ()> {
        Ok(!*self.wire.borrow())
    }
}

impl OutputPin for Out {
    type Error = ();
    fn set_low(&mut self) -> Result<(), ()> {
        *self.wire.borrow_mut() = false;
        Ok(())
    }
    fn set_high(&mut self) -> Result<(), ()> {
        *self.wire.borrow_mut() = true;
        Ok(())
    }
}

impl TryIntoOutputPin for In {
    type Pin = Out;
    fn try_into_output_pin(self) -> Result<Out, Error> {
        if self.stuck {
            return Err(Error::PinConfigError);
        }
        Ok(Out { wire: self.wire })
    }
}

impl TryIntoInputPin for Out {
    type Pin = In;
    fn try_into_input_pin(self) -> Result<In, Error> {
        Ok(In { wire: self.wire, stuck: false })
    }
}

struct Clock;

impl DelayUs<u32> for Clock {
    fn delay_us(&mut self, _us: u32) {}
}

fn wires(levels: [bool; 6]) -> Vec<Wire> {
    levels.iter().map(|l| Rc::new(RefCell::new(*l))).collect()
}

fn inputs(w: &[Wire]) -> [In; 6] {
    [0, 1, 2, 3, 4, 5].map(|i| In { wire: w[i].clone(), stuck: false })
}

fn enables(n: usize) -> Vec<Out> {
    (0..n).map(|_| Out { wire: Rc::new(RefCell::new(false)) }).collect()
}

fn word_events(m: &mut SwitchMatrix<Out>, w: u8) -> Vec<KeyEvent> {
    m.update_word(0, w).unwrap().iter().copied().collect()
}

#[test]
fn bus_reads_first_line_as_high_bit() {
    let w = wires([true, false, false, false, false, true]);
    let (bus, _lock) = make_bus(inputs(&w));
    assert_eq!(bus.read().unwrap(), 0b100001);
}

#[test]
fn bus_direction_round_trip() {
    let w = wires([false; 6]);
    let (bus, lock) = make_bus(inputs(&w));
    let mut out = bus.into_output_bus(lock).unwrap();
    out.write(0b000110).unwrap();
    let levels: Vec<bool> = w.iter().map(|x| *x.borrow()).collect();
    assert_eq!(levels, vec![false, true, true, false, false, false]);
    let (bus, _lock) = out.into_input_bus().unwrap();
    // line 1 is bit 4 and line 2 is bit 3 of the word read
    assert_eq!(bus.read().unwrap(), 0b011000);
}

#[test]
fn bus_direction_failure_is_reported() {
    let w = wires([false; 6]);
    let mut pins = inputs(&w);
    pins[3].stuck = true;
    let (bus, lock) = make_bus(pins);
    assert_eq!(bus.into_output_bus(lock).err().unwrap(), Error::PinConfigError);
}

#[test]
fn digital_events_are_transitions() {
    let mut m = SwitchMatrix::new(vec![[Some(1), Some(2), None, Some(4), None, None]], enables(1)).unwrap();
    assert_eq!(word_events(&mut m, 0b000001), vec![KeyEvent::Down(1)]);
    assert_eq!(word_events(&mut m, 0b000001), vec![]);
    assert_eq!(word_events(&mut m, 0b000001), vec![]);
    assert_eq!(word_events(&mut m, 0b001010), vec![KeyEvent::Up(1), KeyEvent::Down(2), KeyEvent::Down(4)]);
    // bit 2 reads no key
    assert_eq!(word_events(&mut m, 0b001110), vec![]);
    assert_eq!(word_events(&mut m, 0), vec![KeyEvent::Up(2), KeyEvent::Up(4)]);
}

#[test]
fn digital_matrix_size_mismatch() {
    let r = SwitchMatrix::new(vec![[None; 6], [None; 6]], enables(1));
    assert_eq!(r.err().unwrap(), Error::SizeMismatch);
    let r = SwitchMatrix::new(vec![[None; 6]; 17], enables(17));
    assert_eq!(r.err().unwrap(), Error::SizeMismatch);
}

#[test]
fn digital_matrix_disables_registers() {
    let pins = enables(2);
    let probe: Vec<Wire> = pins.iter().map(|p| p.wire.clone()).collect();
    let m = SwitchMatrix::new(vec![[None; 6], [None; 6]], pins).unwrap();
    assert_eq!(m.num_regs(), 2);
    assert!(probe.iter().all(|w| *w.borrow()));
}

#[test]
fn digital_tick_end_to_end() {
    let w = wires([false, false, false, false, false, true]);
    let (bus, lock) = make_bus(inputs(&w));
    // the bus word's bit 0 is the last line
    let mut m = SwitchMatrix::new(vec![[Some(0), None, None, None, None, None]], enables(1)).unwrap();
    let mut layer0 = vec![Behavior::Noop; 8];
    layer0[0] = Behavior::B;
    let mut kb = VKeyboard::new(keymap(vec![layer0])).unwrap();
    let (changed, bus, lock) = tick(bus, lock, &mut m, &mut kb, &mut Clock).unwrap();
    assert!(changed);
    assert_eq!(kb.get_report().boot_keys[0], 5);
    let (changed, _bus, _lock) = tick(bus, lock, &mut m, &mut kb, &mut Clock).unwrap();
    assert!(!changed);
}

#[test]
fn digital_tick_reports_direction_failure() {
    let w = wires([false; 6]);
    let mut pins = inputs(&w);
    pins[0].stuck = true;
    let (bus, lock) = make_bus(pins);
    let mut m = SwitchMatrix::new(vec![[Some(0), None, None, None, None, None]], enables(1)).unwrap();
    let mut kb = VKeyboard::new(keymap(vec![vec![Behavior::A; 8]])).unwrap();
    let r = tick(bus, lock, &mut m, &mut kb, &mut Clock);
    assert_eq!(r.err().unwrap(), Error::PinConfigError);
    assert_eq!(kb.get_report().boot_keys, [0u8; 6]);
}

#[test]
fn word_packs_first_line_high() {
    assert_eq!(keeb::bus::word_of([true, false, false, false, false, false]), 32);
    assert_eq!(keeb::bus::word_of([false, true, false, true, false, true]), 0b010101);
    assert_eq!(keeb::bus::word_of([true; 6]), 63);
}

#[test]
fn empty_digital_matrix() {
    let m = SwitchMatrix::<Out>::new(vec![], vec![]).unwrap();
    assert_eq!(m.num_regs(), 0);
}
