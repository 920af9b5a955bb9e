use vstd::prelude::*;
use crate::error::Error;
use crate::layout::{behavior_ok, layer_slice, layers_slice, Behavior, Keymap};
use crate::prelude::{KeyIndex, LayerIndex, LayerMask, MAX_EVENTS, MAX_KEYS, MAX_LAYERS};
use crate::usb::{
    empty_report, first_slot, is_reportable, last_slot, place_in_range, report_press,
    report_release, usage_code, usage_place, KeyUsageAndIndex, KeyboardUsage,
    NKROBootKeyboardReport, ReportModel,
};

verus! {

/// A switch going down or up, by logical key index.
#[derive(Debug, Clone, Copy, PartialEq, Eq, Structural)]
pub enum KeyEvent {
    Down(KeyIndex),
    Up(KeyIndex),
}

#[verifier::external_type_specification]
#[verifier::external_body]
#[verifier::reject_recursive_types(T)]
pub struct ExBoundedVec<T, const N: usize>(heapless::Vec<T, N>);

/// A fixed-capacity list of key events.
pub type EventList = heapless::Vec<KeyEvent, MAX_EVENTS>;

/// The events held by an event list, in order.
pub uninterp spec fn events_of(v: EventList) -> Seq<KeyEvent>;

/// Relies on heapless::Vec::new: the new vector is empty.
#[verifier::external_body]
pub(crate) fn new_event_list() -> (r: EventList)
    ensures
        events_of(r) == Seq::<KeyEvent>::empty(),
{
    heapless::Vec::new()
}

/// Relies on heapless::Vec::push: appends when the length is under the capacity, else hands
/// the item back and leaves the vector as it was.
#[verifier::external_body]
pub(crate) fn push_event(v: &mut EventList, e: KeyEvent) -> (r: Result<(), KeyEvent>)
    ensures
        events_of(*final(v)) == (if events_of(*old(v)).len() < MAX_EVENTS {
            events_of(*old(v)).push(e)
        } else {
            events_of(*old(v))
        }),
        r == (if events_of(*old(v)).len() < MAX_EVENTS {
            Ok::<(), KeyEvent>(())
        } else {
            Err(e)
        }),
{
    v.push(e)
}

/// Relies on heapless::Vec::as_slice: the slice holds the vector's items, which never outnumber
/// its capacity.
#[verifier::external_body]
pub(crate) fn event_slice(v: &EventList) -> (r: &[KeyEvent])
    ensures
        r@ == events_of(*v),
        r@.len() <= MAX_EVENTS,
{
    v.as_slice()
}

/// Functions of the keyboard itself.
#[derive(Debug, Clone, Copy, PartialEq, Eq, Structural)]
pub enum VirtualFunction {
    VBacklightToggle,
    VBacklightUp,
    VBacklightDown,
    VReset,
    VLayerGoto(LayerIndex),
    VLayerMod(LayerIndex),
    VLayerToggle(LayerIndex),
    VLayerTapToggle(LayerIndex),
}

/// What a behavior does when its key goes down or up.
#[derive(Debug, Clone, Copy, PartialEq, Eq, Structural)]
pub enum Action {
    /// Report a usage to the host.
    SendKey(KeyUsageAndIndex),
    /// Run a function of the keyboard.
    Internal(VirtualFunction),
    /// Do nothing.
    Nothing,
}

/// The usage that a literal key behavior sends, if it is one.
pub open spec fn behavior_usage(b: Behavior) -> Option<KeyboardUsage> {
    match b {
        Behavior::A => Some(KeyboardUsage::KeyboardAa),
        Behavior::B => Some(KeyboardUsage::KeyboardBb),
        Behavior::C => Some(KeyboardUsage::KeyboardCc),
        Behavior::D => Some(KeyboardUsage::KeyboardDd),
        Behavior::E => Some(KeyboardUsage::KeyboardEe),
        Behavior::F => Some(KeyboardUsage::KeyboardFf),
        Behavior::G => Some(KeyboardUsage::KeyboardGg),
        Behavior::H => Some(KeyboardUsage::KeyboardHh),
        Behavior::I => Some(KeyboardUsage::KeyboardIi),
        Behavior::J => Some(KeyboardUsage::KeyboardJj),
        Behavior::K => Some(KeyboardUsage::KeyboardKk),
        Behavior::L => Some(KeyboardUsage::KeyboardLl),
        Behavior::M => Some(KeyboardUsage::KeyboardMm),
        Behavior::N => Some(KeyboardUsage::KeyboardNn),
        Behavior::O => Some(KeyboardUsage::KeyboardOo),
        Behavior::P => Some(KeyboardUsage::KeyboardPp),
        Behavior::Q => Some(KeyboardUsage::KeyboardQq),
        Behavior::R => Some(KeyboardUsage::KeyboardRr),
        Behavior::S => Some(KeyboardUsage::KeyboardSs),
        Behavior::T => Some(KeyboardUsage::KeyboardTt),
        Behavior::U => Some(KeyboardUsage::KeyboardUu),
        Behavior::V => Some(KeyboardUsage::KeyboardVv),
        Behavior::W => Some(KeyboardUsage::KeyboardWw),
        Behavior::X => Some(KeyboardUsage::KeyboardXx),
        Behavior::Y => Some(KeyboardUsage::KeyboardYy),
        Behavior::Z => Some(KeyboardUsage::KeyboardZz),
        Behavior::Num1 => Some(KeyboardUsage::Keyboard1Exclamation),
        Behavior::Num2 => Some(KeyboardUsage::Keyboard2At),
        Behavior::Num3 => Some(KeyboardUsage::Keyboard3Hash),
        Behavior::Num4 => Some(KeyboardUsage::Keyboard4Dollar),
        Behavior::Num5 => Some(KeyboardUsage::Keyboard5Percent),
        Behavior::Num6 => Some(KeyboardUsage::Keyboard6Caret),
        Behavior::Num7 => Some(KeyboardUsage::Keyboard7Ampersand),
        Behavior::Num8 => Some(KeyboardUsage::Keyboard8Asterisk),
        Behavior::Num9 => Some(KeyboardUsage::Keyboard9OpenParens),
        Behavior::Num0 => Some(KeyboardUsage::Keyboard0CloseParens),
        Behavior::Enter => Some(KeyboardUsage::KeyboardEnter),
        Behavior::Escape => Some(KeyboardUsage::KeyboardEscape),
        Behavior::Backspace => Some(KeyboardUsage::KeyboardBackspace),
        Behavior::Tab => Some(KeyboardUsage::KeyboardTab),
        Behavior::Space => Some(KeyboardUsage::KeyboardSpacebar),
        Behavior::Minus => Some(KeyboardUsage::KeyboardDashUnderscore),
        Behavior::Equals => Some(KeyboardUsage::KeyboardEqualPlus),
        Behavior::LBrace => Some(KeyboardUsage::KeyboardOpenBracketBrace),
        Behavior::RBrace => Some(KeyboardUsage::KeyboardCloseBracketBrace),
        Behavior::Backslash => Some(KeyboardUsage::KeyboardBackslashBar),
        Behavior::Semicolon => Some(KeyboardUsage::KeyboardSemiColon),
        Behavior::Quote => Some(KeyboardUsage::KeyboardSingleDoubleQuote),
        Behavior::Grave => Some(KeyboardUsage::KeyboardBacktickTilde),
        Behavior::Comma => Some(KeyboardUsage::KeyboardCommaLess),
        Behavior::Dot => Some(KeyboardUsage::KeyboardPeriodGreater),
        Behavior::Slash => Some(KeyboardUsage::KeyboardSlashQuestion),
        Behavior::F1 => Some(KeyboardUsage::KeyboardF1),
        Behavior::F2 => Some(KeyboardUsage::KeyboardF2),
        Behavior::F3 => Some(KeyboardUsage::KeyboardF3),
        Behavior::F4 => Some(KeyboardUsage::KeyboardF4),
        Behavior::F5 => Some(KeyboardUsage::KeyboardF5),
        Behavior::F6 => Some(KeyboardUsage::KeyboardF6),
        Behavior::F7 => Some(KeyboardUsage::KeyboardF7),
        Behavior::F8 => Some(KeyboardUsage::KeyboardF8),
        Behavior::F9 => Some(KeyboardUsage::KeyboardF9),
        Behavior::F10 => Some(KeyboardUsage::KeyboardF10),
        Behavior::F11 => Some(KeyboardUsage::KeyboardF11),
        Behavior::F12 => Some(KeyboardUsage::KeyboardF12),
        Behavior::PrintScreen => Some(KeyboardUsage::KeyboardPrintScreen),
        Behavior::Home => Some(KeyboardUsage::KeyboardHome),
        Behavior::PageUp => Some(KeyboardUsage::KeyboardPageUp),
        Behavior::Delete => Some(KeyboardUsage::KeyboardDelete),
        Behavior::End => Some(KeyboardUsage::KeyboardEnd),
        Behavior::PageDown => Some(KeyboardUsage::KeyboardPageDown),
        Behavior::ArrowRight => Some(KeyboardUsage::KeyboardRightArrow),
        Behavior::ArrowLeft => Some(KeyboardUsage::KeyboardLeftArrow),
        Behavior::ArrowDown => Some(KeyboardUsage::KeyboardDownArrow),
        Behavior::ArrowUp => Some(KeyboardUsage::KeyboardUpArrow),
        Behavior::VolMute => Some(KeyboardUsage::KeyboardMute),
        Behavior::VolUp => Some(KeyboardUsage::KeyboardVolumeUp),
        Behavior::VolDown => Some(KeyboardUsage::KeyboardVolumeDown),
        Behavior::LCtrl => Some(KeyboardUsage::KeyboardLeftControl),
        Behavior::LShift => Some(KeyboardUsage::KeyboardLeftShift),
        Behavior::LAlt => Some(KeyboardUsage::KeyboardLeftAlt),
        Behavior::LGui => Some(KeyboardUsage::KeyboardLeftGUI),
        Behavior::RCtrl => Some(KeyboardUsage::KeyboardRightControl),
        Behavior::RShift => Some(KeyboardUsage::KeyboardRightShift),
        Behavior::RAlt => Some(KeyboardUsage::KeyboardRightAlt),
        Behavior::RGui => Some(KeyboardUsage::KeyboardRightGUI),
        _ => None,
    }
}

/// Every usage that a behavior sends can be carried by the report.
pub proof fn lemma_behavior_usage_reportable(b: Behavior)
    ensures
        behavior_usage(b) matches Some(u) ==> is_reportable(usage_code(u)),
{
}

/// The action of a behavior.
pub open spec fn behavior_action(b: Behavior) -> Action {
    match behavior_usage(b) {
        Some(u) => Action::SendKey(usage_place(usage_code(u))),
        None => match b {
            Behavior::BacklightToggle => Action::Internal(VirtualFunction::VBacklightToggle),
            Behavior::BacklightUp => Action::Internal(VirtualFunction::VBacklightUp),
            Behavior::BacklightDown => Action::Internal(VirtualFunction::VBacklightDown),
            Behavior::Reset => Action::Internal(VirtualFunction::VReset),
            Behavior::LayerGoto(i) => Action::Internal(VirtualFunction::VLayerGoto(i)),
            Behavior::LayerMod(i) => Action::Internal(VirtualFunction::VLayerMod(i)),
            Behavior::LayerToggle(i) => Action::Internal(VirtualFunction::VLayerToggle(i)),
            Behavior::LayerTapToggle(i) => Action::Internal(VirtualFunction::VLayerTapToggle(i)),
            _ => Action::Nothing,
        },
    }
}

/// An action whose usage fits the report and whose layer argument names a possible layer.
pub open spec fn action_ok(a: Action) -> bool {
    match a {
        Action::SendKey(k) => place_in_range(k),
        Action::Internal(f) => match f {
            VirtualFunction::VLayerGoto(l) => l < MAX_LAYERS,
            VirtualFunction::VLayerMod(l) => l < MAX_LAYERS,
            VirtualFunction::VLayerToggle(l) => l < MAX_LAYERS,
            VirtualFunction::VLayerTapToggle(l) => l < MAX_LAYERS,
            _ => true,
        },
        Action::Nothing => true,
    }
}

pub proof fn lemma_behavior_action_ok(b: Behavior)
    requires
        behavior_ok(b),
    ensures
        action_ok(behavior_action(b)),
{
    lemma_behavior_usage_reportable(b);
    if let Some(u) = behavior_usage(b) {
        crate::usb::lemma_usage_place_in_range(usage_code(u));
    }
}

fn usage_of(b: Behavior) -> (r: Option<KeyboardUsage>)
    ensures
        r == behavior_usage(b),
{
    match b {
        Behavior::A => Some(KeyboardUsage::KeyboardAa),
        Behavior::B => Some(KeyboardUsage::KeyboardBb),
        Behavior::C => Some(KeyboardUsage::KeyboardCc),
        Behavior::D => Some(KeyboardUsage::KeyboardDd),
        Behavior::E => Some(KeyboardUsage::KeyboardEe),
        Behavior::F => Some(KeyboardUsage::KeyboardFf),
        Behavior::G => Some(KeyboardUsage::KeyboardGg),
        Behavior::H => Some(KeyboardUsage::KeyboardHh),
        Behavior::I => Some(KeyboardUsage::KeyboardIi),
        Behavior::J => Some(KeyboardUsage::KeyboardJj),
        Behavior::K => Some(KeyboardUsage::KeyboardKk),
        Behavior::L => Some(KeyboardUsage::KeyboardLl),
        Behavior::M => Some(KeyboardUsage::KeyboardMm),
        Behavior::N => Some(KeyboardUsage::KeyboardNn),
        Behavior::O => Some(KeyboardUsage::KeyboardOo),
        Behavior::P => Some(KeyboardUsage::KeyboardPp),
        Behavior::Q => Some(KeyboardUsage::KeyboardQq),
        Behavior::R => Some(KeyboardUsage::KeyboardRr),
        Behavior::S => Some(KeyboardUsage::KeyboardSs),
        Behavior::T => Some(KeyboardUsage::KeyboardTt),
        Behavior::U => Some(KeyboardUsage::KeyboardUu),
        Behavior::V => Some(KeyboardUsage::KeyboardVv),
        Behavior::W => Some(KeyboardUsage::KeyboardWw),
        Behavior::X => Some(KeyboardUsage::KeyboardXx),
        Behavior::Y => Some(KeyboardUsage::KeyboardYy),
        Behavior::Z => Some(KeyboardUsage::KeyboardZz),
        Behavior::Num1 => Some(KeyboardUsage::Keyboard1Exclamation),
        Behavior::Num2 => Some(KeyboardUsage::Keyboard2At),
        Behavior::Num3 => Some(KeyboardUsage::Keyboard3Hash),
        Behavior::Num4 => Some(KeyboardUsage::Keyboard4Dollar),
        Behavior::Num5 => Some(KeyboardUsage::Keyboard5Percent),
        Behavior::Num6 => Some(KeyboardUsage::Keyboard6Caret),
        Behavior::Num7 => Some(KeyboardUsage::Keyboard7Ampersand),
        Behavior::Num8 => Some(KeyboardUsage::Keyboard8Asterisk),
        Behavior::Num9 => Some(KeyboardUsage::Keyboard9OpenParens),
        Behavior::Num0 => Some(KeyboardUsage::Keyboard0CloseParens),
        Behavior::Enter => Some(KeyboardUsage::KeyboardEnter),
        Behavior::Escape => Some(KeyboardUsage::KeyboardEscape),
        Behavior::Backspace => Some(KeyboardUsage::KeyboardBackspace),
        Behavior::Tab => Some(KeyboardUsage::KeyboardTab),
        Behavior::Space => Some(KeyboardUsage::KeyboardSpacebar),
        Behavior::Minus => Some(KeyboardUsage::KeyboardDashUnderscore),
        Behavior::Equals => Some(KeyboardUsage::KeyboardEqualPlus),
        Behavior::LBrace => Some(KeyboardUsage::KeyboardOpenBracketBrace),
        Behavior::RBrace => Some(KeyboardUsage::KeyboardCloseBracketBrace),
        Behavior::Backslash => Some(KeyboardUsage::KeyboardBackslashBar),
        Behavior::Semicolon => Some(KeyboardUsage::KeyboardSemiColon),
        Behavior::Quote => Some(KeyboardUsage::KeyboardSingleDoubleQuote),
        Behavior::Grave => Some(KeyboardUsage::KeyboardBacktickTilde),
        Behavior::Comma => Some(KeyboardUsage::KeyboardCommaLess),
        Behavior::Dot => Some(KeyboardUsage::KeyboardPeriodGreater),
        Behavior::Slash => Some(KeyboardUsage::KeyboardSlashQuestion),
        Behavior::F1 => Some(KeyboardUsage::KeyboardF1),
        Behavior::F2 => Some(KeyboardUsage::KeyboardF2),
        Behavior::F3 => Some(KeyboardUsage::KeyboardF3),
        Behavior::F4 => Some(KeyboardUsage::KeyboardF4),
        Behavior::F5 => Some(KeyboardUsage::KeyboardF5),
        Behavior::F6 => Some(KeyboardUsage::KeyboardF6),
        Behavior::F7 => Some(KeyboardUsage::KeyboardF7),
        Behavior::F8 => Some(KeyboardUsage::KeyboardF8),
        Behavior::F9 => Some(KeyboardUsage::KeyboardF9),
        Behavior::F10 => Some(KeyboardUsage::KeyboardF10),
        Behavior::F11 => Some(KeyboardUsage::KeyboardF11),
        Behavior::F12 => Some(KeyboardUsage::KeyboardF12),
        Behavior::PrintScreen => Some(KeyboardUsage::KeyboardPrintScreen),
        Behavior::Home => Some(KeyboardUsage::KeyboardHome),
        Behavior::PageUp => Some(KeyboardUsage::KeyboardPageUp),
        Behavior::Delete => Some(KeyboardUsage::KeyboardDelete),
        Behavior::End => Some(KeyboardUsage::KeyboardEnd),
        Behavior::PageDown => Some(KeyboardUsage::KeyboardPageDown),
        Behavior::ArrowRight => Some(KeyboardUsage::KeyboardRightArrow),
        Behavior::ArrowLeft => Some(KeyboardUsage::KeyboardLeftArrow),
        Behavior::ArrowDown => Some(KeyboardUsage::KeyboardDownArrow),
        Behavior::ArrowUp => Some(KeyboardUsage::KeyboardUpArrow),
        Behavior::VolMute => Some(KeyboardUsage::KeyboardMute),
        Behavior::VolUp => Some(KeyboardUsage::KeyboardVolumeUp),
        Behavior::VolDown => Some(KeyboardUsage::KeyboardVolumeDown),
        Behavior::LCtrl => Some(KeyboardUsage::KeyboardLeftControl),
        Behavior::LShift => Some(KeyboardUsage::KeyboardLeftShift),
        Behavior::LAlt => Some(KeyboardUsage::KeyboardLeftAlt),
        Behavior::LGui => Some(KeyboardUsage::KeyboardLeftGUI),
        Behavior::RCtrl => Some(KeyboardUsage::KeyboardRightControl),
        Behavior::RShift => Some(KeyboardUsage::KeyboardRightShift),
        Behavior::RAlt => Some(KeyboardUsage::KeyboardRightAlt),
        Behavior::RGui => Some(KeyboardUsage::KeyboardRightGUI),
        _ => None,
    }
}

/// The action of a behavior.
pub fn behavior_to_action(behavior: Behavior) -> (r: Action)
    ensures
        r == behavior_action(behavior),
{
    proof {
        lemma_behavior_usage_reportable(behavior);
    }
    match usage_of(behavior) {
        Some(u) => Action::SendKey(KeyUsageAndIndex::new(u)),
        None => match behavior {
            Behavior::BacklightToggle => Action::Internal(VirtualFunction::VBacklightToggle),
            Behavior::BacklightUp => Action::Internal(VirtualFunction::VBacklightUp),
            Behavior::BacklightDown => Action::Internal(VirtualFunction::VBacklightDown),
            Behavior::Reset => Action::Internal(VirtualFunction::VReset),
            Behavior::LayerGoto(i) => Action::Internal(VirtualFunction::VLayerGoto(i)),
            Behavior::LayerMod(i) => Action::Internal(VirtualFunction::VLayerMod(i)),
            Behavior::LayerToggle(i) => Action::Internal(VirtualFunction::VLayerToggle(i)),
            Behavior::LayerTapToggle(i) => Action::Internal(VirtualFunction::VLayerTapToggle(i)),
            _ => Action::Nothing,
        },
    }
}

/// The state of the layer engine, as the contracts speak of it.
pub struct KeyboardState {
    /// The layer that is always active.
    pub default_layer: u8,
    /// Bit `l` set when layer `l` is active.
    pub mask: u8,
    /// For each key index, the layer that resolved its last press.
    pub down_layer: Seq<u8>,
    /// The keymap's layers.
    pub layers: Seq<Seq<Behavior>>,
    /// The outgoing report.
    pub report: ReportModel,
    /// Set once a reboot was asked for.
    pub reset: bool,
}

/// The bit of layer `l` in a layer mask.
pub open spec fn layer_bit(l: u8) -> u8 {
    1u8 << l
}

/// Layer `i` takes part in resolution: it is the default layer or its bit is set.
pub open spec fn layer_enabled(s: KeyboardState, i: int) -> bool {
    i == s.default_layer as int || (s.mask >> (i as u8)) & 1u8 == 1u8
}

/// The highest layer below `n` that is enabled and gives key `idx` a behavior other than
/// `Transparent`.
pub open spec fn resolve_layer(s: KeyboardState, idx: int, n: int) -> Option<int>
    decreases n,
{
    if n <= 0 {
        None
    } else if layer_enabled(s, n - 1) && idx < s.layers[n - 1].len() && s.layers[n - 1][idx]
        != Behavior::Transparent {
        Some(n - 1)
    } else {
        resolve_layer(s, idx, n - 1)
    }
}

/// The state after a keyboard function's key goes down.
pub open spec fn vfunc_down(s: KeyboardState, f: VirtualFunction) -> KeyboardState {
    match f {
        VirtualFunction::VReset => KeyboardState { reset: true, ..s },
        VirtualFunction::VLayerGoto(l) => KeyboardState { mask: layer_bit(l), ..s },
        VirtualFunction::VLayerMod(l) => KeyboardState { mask: s.mask | layer_bit(l), ..s },
        VirtualFunction::VLayerToggle(l) => KeyboardState { mask: s.mask ^ layer_bit(l), ..s },
        VirtualFunction::VLayerTapToggle(l) => KeyboardState { mask: s.mask | layer_bit(l), ..s },
        _ => s,
    }
}

/// The state after a keyboard function's key goes up.
pub open spec fn vfunc_up(s: KeyboardState, f: VirtualFunction) -> KeyboardState {
    match f {
        VirtualFunction::VLayerMod(l) => KeyboardState { mask: s.mask & !layer_bit(l), ..s },
        VirtualFunction::VLayerTapToggle(l) => KeyboardState { mask: s.mask & !layer_bit(l), ..s },
        _ => s,
    }
}

/// The state after an action's key goes down, and whether the report changed.
pub open spec fn action_down(s: KeyboardState, a: Action) -> (KeyboardState, bool) {
    match a {
        Action::SendKey(k) => (KeyboardState { report: report_press(s.report, k), ..s }, true),
        Action::Internal(f) => (vfunc_down(s, f), false),
        Action::Nothing => (s, false),
    }
}

/// The state after an action's key goes up, and whether the report changed.
pub open spec fn action_up(s: KeyboardState, a: Action) -> (KeyboardState, bool) {
    match a {
        Action::SendKey(k) => (KeyboardState { report: report_release(s.report, k), ..s }, true),
        Action::Internal(f) => (vfunc_up(s, f), false),
        Action::Nothing => (s, false),
    }
}

/// Key `idx` goes down: the resolving layer is recorded for the key and the behavior found
/// there acts. With no resolving layer nothing changes.
pub open spec fn key_down_step(s: KeyboardState, idx: u8) -> (KeyboardState, bool) {
    match resolve_layer(s, idx as int, s.layers.len() as int) {
        None => (s, false),
        Some(l) => action_down(
            KeyboardState { down_layer: s.down_layer.update(idx as int, l as u8), ..s },
            behavior_action(s.layers[l][idx as int]),
        ),
    }
}

/// Key `idx` goes up: the behavior on the layer recorded at its press acts, whatever layers are
/// active now. A key without such a behavior changes nothing.
pub open spec fn key_up_step(s: KeyboardState, idx: u8) -> (KeyboardState, bool) {
    if idx as int >= s.down_layer.len() {
        (s, false)
    } else {
        let l = s.down_layer[idx as int] as int;
        if l < s.layers.len() && (idx as int) < s.layers[l].len() {
            action_up(s, behavior_action(s.layers[l][idx as int]))
        } else {
            (s, false)
        }
    }
}

/// The state after one event, and whether the report changed.
pub open spec fn event_step(s: KeyboardState, e: KeyEvent) -> (KeyboardState, bool) {
    match e {
        KeyEvent::Down(idx) => key_down_step(s, idx),
        KeyEvent::Up(idx) => key_up_step(s, idx),
    }
}

/// The state after a list of events, and whether the report changed on the way. Events after
/// the one that asks for a reboot are dropped.
pub open spec fn run_events(s: KeyboardState, evs: Seq<KeyEvent>) -> (KeyboardState, bool)
    decreases evs.len(),
{
    if evs.len() == 0 {
        (s, false)
    } else {
        let (s1, c1) = event_step(s, evs[0]);
        if s1.reset {
            (s1, c1)
        } else {
            let (s2, c2) = run_events(s1, evs.drop_first());
            (s2, c1 || c2)
        }
    }
}

/// A state that the layer engine can be in: at most `MAX_LAYERS` layers of at most `MAX_KEYS`
/// keys whose layer arguments name possible layers, default layer 0, one recorded layer per
/// possible key, and a report of the fixed size.
pub open spec fn state_ok(s: KeyboardState) -> bool {
    &&& s.default_layer == 0
    &&& s.layers.len() <= MAX_LAYERS
    &&& forall|i: int| 0 <= i < s.layers.len() ==> #[trigger] s.layers[i].len() <= MAX_KEYS
    &&& forall|i: int, k: int|
        0 <= i < s.layers.len() && 0 <= k < s.layers[i].len() ==> behavior_ok(
            #[trigger] s.layers[i][k],
        )
    &&& s.down_layer.len() == MAX_KEYS
    &&& s.report.boot_keys.len() == 6
    &&& s.report.nkro_keys.len() == 16
}

/// The initial state for a keymap: only the default layer active, no key down.
pub open spec fn initial_state(layers: Seq<Seq<Behavior>>) -> KeyboardState {
    KeyboardState {
        default_layer: 0,
        mask: 0,
        down_layer: Seq::new(MAX_KEYS as nat, |i: int| 0u8),
        layers,
        report: empty_report(),
        reset: false,
    }
}

/// The virtual keyboard: resolves key events through the layers of a keymap and keeps the
/// report for the host. Layer 0 is always active; other layers are switched by layer
/// functions. The layer that resolved a key's press also resolves its release.
pub struct VKeyboard {
    default_layer: LayerIndex,
    active_layer_mask: LayerMask,
    key_down_layer: [LayerIndex; 128],
    keymap: Keymap,
    usb_report: NKROBootKeyboardReport,
    /// Set once a reboot was asked for; the caller must stop scanning and reboot.
    pub reset: bool,
}

impl View for VKeyboard {
    type V = KeyboardState;

    closed spec fn view(&self) -> KeyboardState {
        KeyboardState {
            default_layer: self.default_layer,
            mask: self.active_layer_mask,
            down_layer: self.key_down_layer@,
            layers: self.keymap.layers_view(),
            report: self.usb_report@,
            reset: self.reset,
        }
    }
}

impl VKeyboard {
    pub open spec fn wf(&self) -> bool {
        state_ok(self@)
    }

    /// Whether a reboot was asked for.
    pub fn reset_requested(&self) -> (r: bool)
        ensures
            r == self@.reset,
    {
        self.reset
    }

    /// A virtual keyboard for a keymap, in its initial state.
    pub fn new(keymap: Keymap) -> (r: Result<Self, Error>)
        requires
            keymap.wf(),
        ensures
            r matches Ok(v) && v.wf() && v@ == initial_state(keymap.layers_view()),
    {
        let usb_report = NKROBootKeyboardReport::default();
        let v = VKeyboard {
            default_layer: 0,
            active_layer_mask: 0,
            key_down_layer: [0u8; 128],
            keymap,
            usb_report,
            reset: false,
        };
        assert(v.key_down_layer@ =~= Seq::new(MAX_KEYS as nat, |i: int| 0u8));
        Ok(v)
    }

    fn apply_kui_down(&mut self, kui: KeyUsageAndIndex)
        requires
            place_in_range(kui),
            old(self).wf(),
        ensures
            final(self)@ == (KeyboardState { report: report_press(old(self)@.report, kui), ..old(self)@ }),
    {
        match kui {
            KeyUsageAndIndex::Normal { usage, byte, bit } => {
                let ghost s = self.usb_report.boot_keys@;
                let mut i: usize = 0;
                while i < 6 && self.usb_report.boot_keys[i] != 0
                    invariant
                        i <= 6,
                        self.usb_report.boot_keys@ == s,
                        s.len() == 6,
                        first_slot(s, 0, 0) == first_slot(s, 0, i as int),
                    decreases 6 - i,
                {
                    i = i + 1;
                }
                if i < 6 {
                    self.usb_report.boot_keys[i] = usage;
                }
                self.usb_report.nkro_keys[byte] = self.usb_report.nkro_keys[byte] | (1u8 << (bit as u8));
            },
            KeyUsageAndIndex::Modifier { bit } => {
                self.usb_report.modifier = self.usb_report.modifier | (1u8 << (bit as u8));
            },
        }
        assert(self@.report =~= report_press(old(self)@.report, kui));
    }

    fn apply_kui_up(&mut self, kui: KeyUsageAndIndex)
        requires
            place_in_range(kui),
            old(self).wf(),
        ensures
            final(self)@ == (KeyboardState { report: report_release(old(self)@.report, kui), ..old(self)@ }),
    {
        match kui {
            KeyUsageAndIndex::Normal { usage, byte, bit } => {
                let ghost s = self.usb_report.boot_keys@;
                let mut i: usize = 6;
                while i > 0 && self.usb_report.boot_keys[i - 1] != usage
                    invariant
                        i <= 6,
                        self.usb_report.boot_keys@ == s,
                        s.len() == 6,
                        last_slot(s, usage, 6) == last_slot(s, usage, i as int),
                    decreases i,
                {
                    i = i - 1;
                }
                if i > 0 {
                    self.usb_report.boot_keys[i - 1] = 0;
                }
                self.usb_report.nkro_keys[byte] = self.usb_report.nkro_keys[byte] & !(1u8 << (bit as u8));
            },
            KeyUsageAndIndex::Modifier { bit } => {
                self.usb_report.modifier = self.usb_report.modifier & !(1u8 << (bit as u8));
            },
        }
        assert(self@.report =~= report_release(old(self)@.report, kui));
    }

    fn apply_vfunc_down(&mut self, vfunc: VirtualFunction)
        requires
            action_ok(Action::Internal(vfunc)),
        ensures
            final(self)@ == vfunc_down(old(self)@, vfunc),
    {
        match vfunc {
            VirtualFunction::VBacklightToggle => {},
            VirtualFunction::VBacklightUp => {},
            VirtualFunction::VBacklightDown => {},
            VirtualFunction::VReset => {
                self.reset = true;
            },
            VirtualFunction::VLayerGoto(i) => {
                self.active_layer_mask = 1u8 << i;
            },
            VirtualFunction::VLayerMod(i) => {
                self.active_layer_mask = self.active_layer_mask | (1u8 << i);
            },
            VirtualFunction::VLayerToggle(i) => {
                self.active_layer_mask = self.active_layer_mask ^ (1u8 << i);
            },
            VirtualFunction::VLayerTapToggle(i) => {
                self.active_layer_mask = self.active_layer_mask | (1u8 << i);
            },
        }
    }

    fn apply_vfunc_up(&mut self, vfunc: VirtualFunction)
        requires
            action_ok(Action::Internal(vfunc)),
        ensures
            final(self)@ == vfunc_up(old(self)@, vfunc),
    {
        match vfunc {
            VirtualFunction::VLayerMod(i) => {
                self.active_layer_mask = self.active_layer_mask & !(1u8 << i);
            },
            VirtualFunction::VLayerTapToggle(i) => {
                self.active_layer_mask = self.active_layer_mask & !(1u8 << i);
            },
            _ => {},
        }
    }

    fn key_down(&mut self, idx: KeyIndex) -> (r: Result<bool, Error>)
        requires
            old(self).wf(),
        ensures
            final(self).wf(),
            final(self)@ == key_down_step(old(self)@, idx).0,
            r == Ok::<bool, Error>(key_down_step(old(self)@, idx).1),
    {
        let n = layers_slice(&self.keymap.layers).len();
        let mut i = n;
        while i > 0
            invariant
                i <= n,
                n == self@.layers.len(),
                self.wf(),
                self@ == old(self)@,
                resolve_layer(self@, idx as int, n as int) == resolve_layer(self@, idx as int, i as int),
            decreases i,
        {
            i = i - 1;
            if i != self.default_layer as usize && (self.active_layer_mask >> (i as u8)) & 1 == 0 {
                continue;
            }
            let layer = layer_slice(&layers_slice(&self.keymap.layers)[i]);
            assert(layer@ == self@.layers[i as int]);
            if idx as usize >= layer.len() {
                continue;
            }
            let behavior = layer[idx as usize];
            if matches!(behavior, Behavior::Transparent) {
                continue;
            }
            proof {
                let m = self.active_layer_mask;
                let b = i as u8;
                assert((m >> b) & 1u8 != 0u8 ==> (m >> b) & 1u8 == 1u8) by (bit_vector);
                assert(layer_enabled(self@, i as int));
                assert(resolve_layer(self@, idx as int, i + 1) == Some(i as int));
                lemma_behavior_action_ok(behavior);
            }
            let action = behavior_to_action(behavior);
            self.key_down_layer[idx as usize] = i as LayerIndex;
            assert(self@.down_layer =~= old(self)@.down_layer.update(idx as int, i as u8));
            match action {
                Action::SendKey(kui) => {
                    self.apply_kui_down(kui);
                    return Ok(true);
                },
                Action::Internal(vfunc) => {
                    self.apply_vfunc_down(vfunc);
                    return Ok(false);
                },
                Action::Nothing => {
                    return Ok(false);
                },
            }
        }
        Ok(false)
    }

    fn key_up(&mut self, idx: KeyIndex) -> (r: Result<bool, Error>)
        requires
            old(self).wf(),
        ensures
            final(self).wf(),
            final(self)@ == key_up_step(old(self)@, idx).0,
            r == Ok::<bool, Error>(key_up_step(old(self)@, idx).1),
    {
        if idx as usize >= MAX_KEYS {
            return Ok(false);
        }
        let layer = self.key_down_layer[idx as usize];
        let layers = layers_slice(&self.keymap.layers);
        if layer as usize >= layers.len() {
            return Ok(false);
        }
        let behaviors = layer_slice(&layers[layer as usize]);
        assert(behaviors@ == self@.layers[layer as int]);
        if idx as usize >= behaviors.len() {
            return Ok(false);
        }
        let behavior = behaviors[idx as usize];
        proof {
            lemma_behavior_action_ok(behavior);
        }
        let action = behavior_to_action(behavior);
        match action {
            Action::SendKey(kui) => {
                self.apply_kui_up(kui);
                Ok(true)
            },
            Action::Internal(vfunc) => {
                self.apply_vfunc_up(vfunc);
                Ok(false)
            },
            Action::Nothing => Ok(false),
        }
    }

    /// Applies a list of key events in order and tells whether the report changed. Stops after
    /// the event that asks for a reboot.
    pub fn update(&mut self, key_events: EventList) -> (r: Result<bool, Error>)
        requires
            old(self).wf(),
        ensures
            final(self).wf(),
            final(self)@ == run_events(old(self)@, events_of(key_events)).0,
            r == Ok::<bool, Error>(run_events(old(self)@, events_of(key_events)).1),
    {
        let evs = event_slice(&key_events);
        let n = evs.len();
        let mut updated = false;
        let mut stop = false;
        let mut k: usize = 0;
        assert(evs@.subrange(0, n as int) =~= evs@);
        while k < n && !stop
            invariant
                n == evs@.len(),
                k <= n,
                self.wf(),
                stop ==> run_events(old(self)@, evs@) == (self@, updated),
                !stop ==> run_events(old(self)@, evs@) == (
                    run_events(self@, evs@.subrange(k as int, n as int)).0,
                    updated || run_events(self@, evs@.subrange(k as int, n as int)).1,
                ),
            decreases n - k,
        {
            let ghost s0 = self@;
            let ghost rest = evs@.subrange(k as int, n as int);
            assert(rest[0] == evs@[k as int]);
            assert(rest.drop_first() =~= evs@.subrange(k + 1, n as int));
            let now_updated = match evs[k] {
                KeyEvent::Down(idx) => self.key_down(idx)?,
                KeyEvent::Up(idx) => self.key_up(idx)?,
            };
            updated = updated || now_updated;
            if self.reset {
                stop = true;
            }
            k = k + 1;
        }
        if !stop {
            assert(evs@.subrange(n as int, n as int) =~= Seq::<KeyEvent>::empty());
        }
        Ok(updated)
    }

    /// The active layer mask: bit `l` is set when layer `l` is active besides the default one.
    pub fn active_layers(&self) -> (r: LayerMask)
        ensures
            r == self@.mask,
    {
        self.active_layer_mask
    }

    /// The report as it stands.
    pub fn get_report(&self) -> (r: &NKROBootKeyboardReport)
        ensures
            r@ == self@.report,
    {
        &self.usb_report
    }
}

/// Key `idx` resolves to behavior `b` in state `s`.
pub open spec fn resolves_to(s: KeyboardState, idx: u8, b: Behavior) -> bool {
    resolve_layer(s, idx as int, s.layers.len() as int) matches Some(l) && s.layers[l][idx as int] == b
}

proof fn lemma_resolve_bounds(s: KeyboardState, idx: int, n: int)
    requires
        n <= s.layers.len(),
        0 <= idx,
    ensures
        resolve_layer(s, idx, n) matches Some(l) ==> 0 <= l < n && 0 <= idx < s.layers[l].len()
            && s.layers[l][idx] != Behavior::Transparent,
    decreases n,
{
    if n > 0 {
        lemma_resolve_bounds(s, idx, n - 1);
    }
}

proof fn lemma_resolved_behavior_ok(s: KeyboardState, idx: u8)
    requires
        state_ok(s),
    ensures
        resolve_layer(s, idx as int, s.layers.len() as int) matches Some(l) ==> {
            &&& 0 <= l < s.layers.len()
            &&& (idx as int) < s.layers[l].len()
            &&& (idx as int) < MAX_KEYS
            &&& behavior_ok(s.layers[l][idx as int])
        },
{
    lemma_resolve_bounds(s, idx as int, s.layers.len() as int);
    if let Some(l) = resolve_layer(s, idx as int, s.layers.len() as int) {
        assert(s.layers[l].len() <= MAX_KEYS);
    }
}

/// Pressing a key records the layer that resolved it, and the release of that key acts
/// through the behavior on that layer, whatever layers are active by then: only the recorded
/// layer decides the release.
pub proof fn lemma_release_uses_recorded_layer(s: KeyboardState, idx: u8, mask: u8)
    requires
        state_ok(s),
        resolve_layer(s, idx as int, s.layers.len() as int) is Some,
    ensures
        ({
            let l = resolve_layer(s, idx as int, s.layers.len() as int)->0;
            let s1 = key_down_step(s, idx).0;
            let s2 = KeyboardState { mask, ..s1 };
            &&& s1.down_layer[idx as int] == l
            &&& key_up_step(s2, idx) == action_up(s2, behavior_action(s.layers[l][idx as int]))
        }),
{
    lemma_resolved_behavior_ok(s, idx);
}

/// The release of a key does not depend on which layers are active.
pub proof fn lemma_release_ignores_active_layers(s: KeyboardState, idx: u8, mask: u8)
    ensures
        key_up_step(KeyboardState { mask, ..s }, idx).0.report == key_up_step(s, idx).0.report,
        key_up_step(KeyboardState { mask, ..s }, idx).1 == key_up_step(s, idx).1,
{
}

/// A `LayerGoto(g)` press leaves layer `g` as the only active layer.
pub proof fn lemma_goto_press(s: KeyboardState, idx: u8, g: u8)
    requires
        state_ok(s),
        resolves_to(s, idx, Behavior::LayerGoto(g)),
    ensures
        key_down_step(s, idx).0.mask == layer_bit(g),
        forall|k: u8| k < 8 ==> (((#[trigger] (key_down_step(s, idx).0.mask >> k)) & 1u8 == 1u8) <==> k == g),
{
    lemma_resolved_behavior_ok(s, idx);
    assert(g < 8);
    assert forall|k: u8| k < 8 implies (((#[trigger] (key_down_step(s, idx).0.mask >> k)) & 1u8 == 1u8) <==> k == g) by {
        assert(((1u8 << g) >> k) & 1u8 == 1u8 <==> k == g) by (bit_vector)
            requires
                g < 8,
                k < 8,
        ;
    }
}

/// A `LayerMod(g)` key pressed and released with nothing in between gives back the layer mask
/// it found, when layer `g` was not active before the press.
pub proof fn lemma_mod_press_release(s: KeyboardState, idx: u8, g: u8)
    requires
        state_ok(s),
        resolves_to(s, idx, Behavior::LayerMod(g)),
        (s.mask >> g) & 1u8 == 0,
    ensures
        key_down_step(s, idx).0.mask & layer_bit(g) != 0,
        key_up_step(key_down_step(s, idx).0, idx).0.mask == s.mask,
{
    lemma_resolved_behavior_ok(s, idx);
    let m = s.mask;
    assert(g < 8);
    assert((m >> g) & 1u8 == 0 ==> ((m | (1u8 << g)) & !(1u8 << g)) == m && (m | (1u8 << g)) & (1u8
        << g) != 0) by (bit_vector)
        requires
            g < 8,
    ;
}

/// A `LayerToggle(g)` key pressed and released twice gives back the layer mask it found, when
/// both presses resolve to that toggle.
pub proof fn lemma_toggle_twice(s: KeyboardState, idx: u8, g: u8)
    requires
        state_ok(s),
        resolves_to(s, idx, Behavior::LayerToggle(g)),
        resolves_to(key_up_step(key_down_step(s, idx).0, idx).0, idx, Behavior::LayerToggle(g)),
    ensures
        ({
            let s2 = key_up_step(key_down_step(s, idx).0, idx).0;
            &&& s2.mask == s.mask ^ layer_bit(g)
            &&& key_up_step(key_down_step(s2, idx).0, idx).0.mask == s.mask
        }),
{
    lemma_resolved_behavior_ok(s, idx);
    let s2 = key_up_step(key_down_step(s, idx).0, idx).0;
    assert(state_ok(s2));
    lemma_resolved_behavior_ok(s2, idx);
    let m = s.mask;
    assert((m ^ (1u8 << g)) ^ (1u8 << g) == m) by (bit_vector);
}

/// With no events the keyboard, and so its report, stays as it is.
pub proof fn lemma_no_events(s: KeyboardState)
    ensures
        run_events(s, Seq::empty()) == (s, false),
{
}

/// A key whose resolved behavior sends a normal usage, neither in a rollover slot nor set in
/// the bitmap, pressed while a slot is free: the press sets its bitmap bit, puts it in a slot and
/// leaves the modifier byte alone; releasing it gives back the report as it was.
pub proof fn lemma_key_press_release(s: KeyboardState, idx: u8, b: Behavior, usage: u8, byte: usize, bit: usize)
    requires
        state_ok(s),
        resolves_to(s, idx, b),
        behavior_action(b) == Action::SendKey(KeyUsageAndIndex::Normal { usage, byte, bit }),
        !s.report.boot_keys.contains(usage),
        s.report.boot_keys.contains(0u8),
        s.report.nkro_keys[byte as int] & (1u8 << (bit as u8)) == 0,
    ensures
        ({
            let s1 = key_down_step(s, idx);
            &&& s1.1
            &&& s1.0.report.nkro_keys[byte as int] & (1u8 << (bit as u8)) != 0
            &&& s1.0.report.boot_keys.contains(usage)
            &&& s1.0.report.modifier == s.report.modifier
            &&& key_up_step(s1.0, idx).0.report == s.report
        }),
{
    lemma_resolved_behavior_ok(s, idx);
    lemma_behavior_action_ok(b);
    crate::usb::lemma_press_then_release(s.report, usage, byte, bit);
    let l = resolve_layer(s, idx as int, s.layers.len() as int)->0;
    let s1 = key_down_step(s, idx).0;
    assert(s1.down_layer[idx as int] == l as u8);
    assert(s1.layers == s.layers);
    let p = s1.report;
    let f = first_slot(s.report.boot_keys, 0, 0);
    assert(p.boot_keys[f] == usage);
    assert(0 <= f < p.boot_keys.len());
}

} // verus!
