use keeb::layout::{Behavior, Keymap, LayoutKind};
use keeb::prelude::MAX_EVENTS;
use keeb::usb::{KeyUsageAndIndex, KeyboardUsage, NKROBootKeyboardReport};
use keeb::vkeyboard::{behavior_to_action, Action, KeyEvent, VKeyboard, VirtualFunction};

fn keymap(layers: Vec<Vec<Behavior>>) -> Keymap {
    let mut ls: keeb::layout::Layers = heapless::Vec::new();
    for l in layers {
        ls.push(heapless::Vec::from_slice(&l).unwrap()).unwrap();
    }
    Keymap { layout: LayoutKind::LayoutSplit3x6_2, layers: ls }
}


fn events(list: &[KeyEvent]) -> heapless::Vec<KeyEvent, MAX_EVENTS> {
    let mut v: heapless::Vec<KeyEvent, MAX_EVENTS> = heapless::Vec::new();
    for e in list {
        v.push(*e).unwrap();
    }
    v
}

fn layer(n: usize, fill: Behavior, set: &[(usize, Behavior)]) -> Vec<Behavior> {
    let mut l = vec![fill; n];
    for (k, b) in set {
        l[*k] = *b;
    }
    l
}

fn keyboard(layers: Vec<Vec<Behavior>>) -> VKeyboard {
    VKeyboard::new(keymap(layers)).unwrap()
}

fn press(kb: &mut VKeyboard, k: u8) -> bool {
    kb.update(events(&[KeyEvent::Down(k)])).unwrap()
}

fn release(kb: &mut VKeyboard, k: u8) -> bool {
    kb.update(events(&[KeyEvent::Up(k)])).unwrap()
}

// usage 0x04 (A) sits at bit 2 of bitmap byte 0
fn a_down(r: &NKROBootKeyboardReport) -> bool {
    r.nkro_keys[0] & (1 << 2) != 0
}

#[test]
fn new_keyboard_has_empty_report() {
    let kb = keyboard(vec![layer(8, Behavior::Noop, &[])]);
    let r = kb.get_report();
    assert_eq!(r.modifier, 0);
    assert_eq!(r.boot_keys, [0u8; 6]);
    assert_eq!(r.nkro_keys, [0u8; 16]);
    assert_eq!(kb.active_layers(), 0);
    assert!(!kb.reset_requested());
}

#[test]
fn usage_places() {
    assert_eq!(
        KeyUsageAndIndex::new(KeyboardUsage::KeyboardAa),
        KeyUsageAndIndex::Normal { usage: 4, byte: 0, bit: 2 }
    );
    assert_eq!(
        KeyUsageAndIndex::new(KeyboardUsage::KeyboardVolumeDown),
        KeyUsageAndIndex::Normal { usage: 0x81, byte: 15, bit: 7 }
    );
    assert_eq!(
        KeyUsageAndIndex::new(KeyboardUsage::KeyboardLeftShift),
        KeyUsageAndIndex::Modifier { bit: 1 }
    );
    assert_eq!(KeyboardUsage::KeyboardRightGUI.code(), 231);
}

#[test]
fn behavior_actions() {
    assert_eq!(
        behavior_to_action(Behavior::Z),
        Action::SendKey(KeyUsageAndIndex::Normal { usage: 29, byte: 3, bit: 3 })
    );
    assert_eq!(
        behavior_to_action(Behavior::LayerGoto(3)),
        Action::Internal(VirtualFunction::VLayerGoto(3))
    );
    assert_eq!(behavior_to_action(Behavior::Reset), Action::Internal(VirtualFunction::VReset));
    assert_eq!(behavior_to_action(Behavior::Transparent), Action::Nothing);
    assert_eq!(behavior_to_action(Behavior::Noop), Action::Nothing);
    assert_eq!(behavior_to_action(Behavior::Tilde), Action::Nothing);
}

#[test]
fn press_and_release_normal_key() {
    let mut kb = keyboard(vec![layer(8, Behavior::Noop, &[(3, Behavior::A), (4, Behavior::LShift)])]);
    assert!(press(&mut kb, 4));
    assert_eq!(kb.get_report().modifier, 0b10);
    assert!(press(&mut kb, 3));
    let r = *kb.get_report();
    assert!(a_down(&r));
    assert_eq!(r.boot_keys, [4, 0, 0, 0, 0, 0]);
    assert_eq!(r.modifier, 0b10);
    assert!(release(&mut kb, 3));
    let r = *kb.get_report();
    assert!(!a_down(&r));
    assert_eq!(r.boot_keys, [0u8; 6]);
    assert_eq!(r.modifier, 0b10);
    assert!(release(&mut kb, 4));
    assert_eq!(kb.get_report().modifier, 0);
}

#[test]
fn rollover_slots_fill_first_fit_and_overflow_to_bitmap() {
    let keys = [Behavior::A, Behavior::B, Behavior::C, Behavior::D, Behavior::E, Behavior::F, Behavior::G];
    let set: Vec<(usize, Behavior)> = keys.iter().enumerate().map(|(i, b)| (i, *b)).collect();
    let mut kb = keyboard(vec![layer(8, Behavior::Noop, &set)]);
    for k in 0..7u8 {
        assert!(press(&mut kb, k));
    }
    let r = *kb.get_report();
    assert_eq!(r.boot_keys, [4, 5, 6, 7, 8, 9]);
    // G (usage 10) has no slot but its bitmap bit (byte 1, bit 0) is set
    assert_eq!(r.nkro_keys[1] & 1, 1);
    release(&mut kb, 1);
    assert_eq!(kb.get_report().boot_keys, [4, 0, 6, 7, 8, 9]);
    press(&mut kb, 1);
    assert_eq!(kb.get_report().boot_keys, [4, 5, 6, 7, 8, 9]);
}

#[test]
fn layer_resolution_uses_recorded_layer() {
    let l0 = layer(8, Behavior::Noop, &[(0, Behavior::LayerMod(1)), (5, Behavior::Transparent)]);
    let l1 = layer(8, Behavior::Transparent, &[(5, Behavior::A)]);
    let mut kb = keyboard(vec![l0, l1]);
    assert!(!press(&mut kb, 0));
    assert_eq!(kb.active_layers(), 0b10);
    assert!(press(&mut kb, 5));
    assert!(a_down(kb.get_report()));
    assert!(!release(&mut kb, 0));
    assert_eq!(kb.active_layers(), 0);
    assert!(release(&mut kb, 5));
    assert!(!a_down(kb.get_report()));
    assert_eq!(kb.get_report().boot_keys, [0u8; 6]);
}

#[test]
fn transparent_everywhere_is_no_op() {
    let mut kb = keyboard(vec![layer(8, Behavior::Transparent, &[]), layer(8, Behavior::A, &[])]);
    assert!(!press(&mut kb, 2));
    assert_eq!(kb.get_report().nkro_keys, [0u8; 16]);
    // key index beyond every layer is inert
    assert!(!press(&mut kb, 100));
    assert!(!release(&mut kb, 200));
}

#[test]
fn goto_sets_only_its_layer() {
    let l0 = layer(8, Behavior::D, &[(2, Behavior::LayerToggle(1)), (3, Behavior::LayerGoto(2))]);
    let l1 = layer(8, Behavior::C, &[(2, Behavior::LayerToggle(1)), (3, Behavior::LayerGoto(2))]);
    let l2 = layer(8, Behavior::Transparent, &[(1, Behavior::B)]);
    let mut kb = keyboard(vec![l0, l1, l2]);
    press(&mut kb, 2);
    release(&mut kb, 2);
    assert_eq!(kb.active_layers(), 0b010);
    press(&mut kb, 3);
    assert_eq!(kb.active_layers(), 0b100);
    release(&mut kb, 3);
    assert_eq!(kb.active_layers(), 0b100);
    // key 4 falls through layer 2 to layer 0, layer 1 being off
    press(&mut kb, 4);
    assert_eq!(kb.get_report().boot_keys[0], 7);
}

#[test]
fn mod_press_release_restores_mask() {
    let l0 = layer(8, Behavior::Noop, &[(0, Behavior::LayerToggle(1)), (1, Behavior::LayerMod(2))]);
    let l1 = layer(8, Behavior::Transparent, &[]);
    let l2 = layer(8, Behavior::Transparent, &[]);
    let mut kb = keyboard(vec![l0, l1, l2]);
    press(&mut kb, 0);
    release(&mut kb, 0);
    let before = kb.active_layers();
    assert_eq!(before, 0b010);
    press(&mut kb, 1);
    assert_eq!(kb.active_layers(), 0b110);
    release(&mut kb, 1);
    assert_eq!(kb.active_layers(), before);
}

#[test]
fn tap_toggle_acts_as_mod() {
    let mut kb = keyboard(vec![layer(8, Behavior::LayerTapToggle(3), &[]), layer(8, Behavior::Transparent, &[])]);
    press(&mut kb, 0);
    assert_eq!(kb.active_layers(), 0b1000);
    release(&mut kb, 0);
    assert_eq!(kb.active_layers(), 0);
}

#[test]
fn toggle_twice_restores_mask() {
    let l0 = layer(8, Behavior::Noop, &[(6, Behavior::LayerToggle(2))]);
    let l1 = layer(8, Behavior::Transparent, &[]);
    let l2 = layer(8, Behavior::Transparent, &[]);
    let mut kb = keyboard(vec![l0, l1, l2]);
    let before = kb.active_layers();
    press(&mut kb, 6);
    release(&mut kb, 6);
    assert_eq!(kb.active_layers(), 0b100);
    press(&mut kb, 6);
    release(&mut kb, 6);
    assert_eq!(kb.active_layers(), before);
}

#[test]
fn report_is_idempotent_without_events() {
    let mut kb = keyboard(vec![layer(8, Behavior::Noop, &[(1, Behavior::Q)])]);
    press(&mut kb, 1);
    let first = *kb.get_report();
    let second = *kb.get_report();
    assert_eq!(first, second);
    assert!(!kb.update(events(&[])).unwrap());
    assert_eq!(*kb.get_report(), first);
}

#[test]
fn reset_stops_processing_events() {
    let mut kb = keyboard(vec![layer(8, Behavior::Noop, &[(0, Behavior::Reset), (1, Behavior::A)])]);
    let changed = kb.update(events(&[KeyEvent::Down(0), KeyEvent::Down(1)])).unwrap();
    assert!(!changed);
    assert!(kb.reset_requested());
    assert!(kb.reset);
    assert!(!a_down(kb.get_report()));
}

#[test]
fn update_reports_change_of_any_event() {
    let mut kb = keyboard(vec![layer(8, Behavior::Noop, &[(1, Behavior::A)])]);
    let changed = kb.update(events(&[KeyEvent::Down(2), KeyEvent::Down(1), KeyEvent::Down(3)])).unwrap();
    assert!(changed);
    assert!(a_down(kb.get_report()));
}

#[test]
fn backlight_keys_do_nothing() {
    let mut kb = keyboard(vec![layer(8, Behavior::BacklightUp, &[])]);
    assert!(!press(&mut kb, 0));
    assert!(!release(&mut kb, 0));
    assert_eq!(kb.active_layers(), 0);
    assert_eq!(kb.get_report().nkro_keys, [0u8; 16]);
}

#[test]
fn keymap_validity() {
    let good = keymap(vec![layer(8, Behavior::LayerMod(7), &[])]);
    assert!(good.is_valid());
    let bad = keymap(vec![layer(8, Behavior::LayerGoto(8), &[])]);
    assert!(!bad.is_valid());
}
