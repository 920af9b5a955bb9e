use vstd::prelude::*;
use vstd::string::StringSliceAdditionalSpecFns;
use crate::prelude::{LayerIndex, MAX_KEYS, MAX_LAYERS};

verus! {

/// What a key does on one layer of a keymap.
#[derive(Debug, Clone, Copy, PartialEq, Eq, Structural)]
pub enum Behavior {
    // special keys
    Enter,
    Tab,
    Space,
    Backspace,
    Escape,
    ArrowUp,
    ArrowDown,
    ArrowLeft,
    ArrowRight,
    Home,
    End,
    PageUp,
    PageDown,
    Delete,
    // letters
    A,
    B,
    C,
    D,
    E,
    F,
    G,
    H,
    I,
    J,
    K,
    L,
    M,
    N,
    O,
    P,
    Q,
    R,
    S,
    T,
    U,
    V,
    W,
    X,
    Y,
    Z,
    // digits
    Num0,
    Num1,
    Num2,
    Num3,
    Num4,
    Num5,
    Num6,
    Num7,
    Num8,
    Num9,
    // function keys
    F1,
    F2,
    F3,
    F4,
    F5,
    F6,
    F7,
    F8,
    F9,
    F10,
    F11,
    F12,
    // symbols
    Comma,
    Dot,
    Slash,
    Backslash,
    Quote,
    LBrace,
    RBrace,
    Grave,
    Semicolon,
    Equals,
    Minus,
    Caret,
    Percent,
    Exclamation,
    LParen,
    RParen,
    At,
    Ampersand,
    Asterisk,
    Hash,
    Tilde,
    Dollar,
    // special functions
    PrintScreen,
    VolMute,
    VolUp,
    VolDown,
    /// Falls through to the next lower active layer.
    Transparent,
    /// Does nothing.
    Noop,
    // modifiers
    LCtrl,
    RCtrl,
    LAlt,
    RAlt,
    LShift,
    RShift,
    LGui,
    RGui,
    // keyboard controls
    BacklightToggle,
    BacklightUp,
    BacklightDown,
    Reset,
    /// Makes the given layer the only active one.
    LayerGoto(LayerIndex),
    /// Activates the given layer while the key is held.
    LayerMod(LayerIndex),
    /// Flips the given layer on each press.
    LayerToggle(LayerIndex),
    /// Activates the given layer while the key is held (taps are not told apart from holds).
    LayerTapToggle(LayerIndex),
}

/// A layer argument names one of the keymap's possible layers.
pub open spec fn behavior_ok(b: Behavior) -> bool {
    match b {
        Behavior::LayerGoto(l) => l < MAX_LAYERS,
        Behavior::LayerMod(l) => l < MAX_LAYERS,
        Behavior::LayerToggle(l) => l < MAX_LAYERS,
        Behavior::LayerTapToggle(l) => l < MAX_LAYERS,
        _ => true,
    }
}

/// The physical arrangements of keys that keymaps can be written for.
#[derive(Debug, Clone, Copy, PartialEq, Eq, Structural)]
pub enum LayoutKind {
    /// Two halves of three rows of six keys, with two thumb keys each.
    LayoutSplit3x6_2,
}

/// The behaviors of one layer, by key index.
pub type Layer = heapless::Vec<Behavior, MAX_KEYS>;
/// The layers of a keymap, layer 0 first.
pub type Layers = heapless::Vec<Layer, MAX_LAYERS>;

/// The behaviors held by a layer, by key index.
pub uninterp spec fn layer_of(v: Layer) -> Seq<Behavior>;

/// The layers held, layer 0 first.
pub uninterp spec fn layers_of(v: Layers) -> Seq<Layer>;

/// Relies on heapless::Vec::as_slice: the slice holds the vector's items, which never outnumber
/// its capacity.
#[verifier::external_body]
pub(crate) fn layer_slice(v: &Layer) -> (r: &[Behavior])
    ensures
        r@ == layer_of(*v),
        r@.len() <= MAX_KEYS,
{
    v.as_slice()
}

/// Relies on heapless::Vec::as_slice: the slice holds the vector's items, which never outnumber
/// its capacity.
#[verifier::external_body]
pub(crate) fn layers_slice(v: &Layers) -> (r: &[Layer])
    ensures
        r@ == layers_of(*v),
        r@.len() <= MAX_LAYERS,
{
    v.as_slice()
}

/// A keymap: the layout it is written for and its layers, layer 0 first. Each layer lists the
/// behavior of each logical key, by key index.
#[derive(Debug)]
pub struct Keymap {
    pub layout: LayoutKind,
    pub layers: Layers,
}

impl Keymap {
    /// The layers as sequences of behaviors.
    pub open spec fn layers_view(&self) -> Seq<Seq<Behavior>> {
        layers_of(self.layers).map_values(|l: Layer| layer_of(l))
    }

    /// At most `MAX_LAYERS` layers of at most `MAX_KEYS` keys, and every layer argument names
    /// one of the possible layers.
    pub open spec fn wf(&self) -> bool {
        &&& self.layers_view().len() <= MAX_LAYERS
        &&& forall|i: int|
            0 <= i < self.layers_view().len() ==> #[trigger] self.layers_view()[i].len() <= MAX_KEYS
        &&& forall|i: int, k: int|
            0 <= i < self.layers_view().len() && 0 <= k < self.layers_view()[i].len()
                ==> behavior_ok(#[trigger] self.layers_view()[i][k])
    }
}

/// Whether a layer argument names one of the keymap's possible layers.
pub fn behavior_is_valid(b: Behavior) -> (r: bool)
    ensures
        r == behavior_ok(b),
{
    match b {
        Behavior::LayerGoto(l) => (l as usize) < MAX_LAYERS,
        Behavior::LayerMod(l) => (l as usize) < MAX_LAYERS,
        Behavior::LayerToggle(l) => (l as usize) < MAX_LAYERS,
        Behavior::LayerTapToggle(l) => (l as usize) < MAX_LAYERS,
        _ => true,
    }
}

impl Keymap {
    /// Whether the keymap is well formed: what a virtual keyboard needs of it.
    pub fn is_valid(&self) -> (r: bool)
        ensures
            r == self.wf(),
    {
        let layers = layers_slice(&self.layers);
        let mut i: usize = 0;
        while i < layers.len()
            invariant
                i <= layers@.len(),
                layers@ == layers_of(self.layers),
                layers@.len() <= MAX_LAYERS,
                forall|a: int| 0 <= a < i ==> #[trigger] self.layers_view()[a].len() <= MAX_KEYS,
                forall|a: int, k: int|
                    0 <= a < i && 0 <= k < self.layers_view()[a].len() ==> behavior_ok(
                        #[trigger] self.layers_view()[a][k],
                    ),
            decreases layers@.len() - i,
        {
            let layer = layer_slice(&layers[i]);
            assert(layer@ == self.layers_view()[i as int]);
            let mut k: usize = 0;
            while k < layer.len()
                invariant
                    k <= layer@.len(),
                    layer@.len() <= MAX_KEYS,
                    i < layers@.len(),
                    layers@ == layers_of(self.layers),
                    layer@ == self.layers_view()[i as int],
                    forall|j: int| 0 <= j < k ==> behavior_ok(#[trigger] layer@[j]),
                decreases layer@.len() - k,
            {
                if !behavior_is_valid(layer[k]) {
                    assert(self.layers_view()[i as int][k as int] == layer@[k as int]);
                    return false;
                }
                k = k + 1;
            }
            i = i + 1;
        }
        true
    }
}

/// Positions of keys, by key index.
pub type Positions = heapless::Vec<(usize, usize), MAX_KEYS>;

/// The positions held, by key index.
pub uninterp spec fn positions_of(v: Positions) -> Seq<(usize, usize)>;

/// Relies on heapless::Vec::new: the new vector is empty.
#[verifier::external_body]
fn new_positions() -> (r: Positions)
    ensures
        positions_of(r) == Seq::<(usize, usize)>::empty(),
{
    heapless::Vec::new()
}

/// Relies on heapless::Vec::push: appends when the length is under the capacity, else hands
/// the item back and leaves the vector as it was.
#[verifier::external_body]
fn push_position(v: &mut Positions, x: (usize, usize)) -> (r: Result<(), (usize, usize)>)
    ensures
        positions_of(*final(v)) == (if positions_of(*old(v)).len() < MAX_KEYS {
            positions_of(*old(v)).push(x)
        } else {
            positions_of(*old(v))
        }),
        r == (if positions_of(*old(v)).len() < MAX_KEYS {
            Ok::<(), (usize, usize)>(())
        } else {
            Err(x)
        }),
{
    v.push(x)
}

/// Relies on heapless::Vec::as_slice: the slice holds the vector's items, which never outnumber
/// its capacity.
#[verifier::external_body]
pub(crate) fn position_slice(v: &Positions) -> (r: &[(usize, usize)])
    ensures
        r@ == positions_of(*v),
        r@.len() <= MAX_KEYS,
{
    v.as_slice()
}

/// Where each logical key sits: `matrix_pos[k]` is the (row, column) of key `k` in the switch
/// matrix, `render_pos[k]` its (row, column) in a text rendering of `render_rows` by
/// `render_cols` cells.
#[derive(Debug)]
pub struct Layout {
    pub matrix_pos: Positions,
    pub render_pos: Positions,
    pub render_rows: usize,
    pub render_cols: usize,
}

/// Number of keys of the split 3x6+2 layout.
pub const SPLIT_3X6_2_KEYS: usize = 40;

/// Matrix position of key `k` of the split 3x6+2 layout. Keys go row by row, twelve to a row,
/// six of the left half then six of the right half; the left half sits on matrix rows 0 to 3,
/// the right half on rows 4 to 7. The four thumb keys come last, two per half.
pub open spec fn split_3x6_2_matrix_pos(k: int) -> (usize, usize) {
    if k < 36 {
        let r = k / 12;
        let c = k % 12;
        if c < 6 {
            (r as usize, c as usize)
        } else {
            ((r + 4) as usize, (c - 6) as usize)
        }
    } else {
        let m = k - 36;
        ((3 + 4 * (m / 2)) as usize, (m % 2) as usize)
    }
}

/// Rendering position of key `k` of the split 3x6+2 layout: the halves side by side with one
/// empty column between them, the thumb keys under the inner columns.
pub open spec fn split_3x6_2_render_pos(k: int) -> (usize, usize) {
    if k < 36 {
        let r = k / 12;
        let c = k % 12;
        if c < 6 {
            (r as usize, c as usize)
        } else {
            (r as usize, (c + 1) as usize)
        }
    } else {
        let m = k - 36;
        (3, (4 + m + m / 2) as usize)
    }
}

/// The key positions of a layout kind.
pub fn get_layout(kind: LayoutKind) -> (r: Layout)
    ensures
        positions_of(r.matrix_pos).len() == SPLIT_3X6_2_KEYS,
        positions_of(r.render_pos).len() == SPLIT_3X6_2_KEYS,
        forall|k: int| 0 <= k < SPLIT_3X6_2_KEYS ==> positions_of(r.matrix_pos)[k] == split_3x6_2_matrix_pos(k),
        forall|k: int| 0 <= k < SPLIT_3X6_2_KEYS ==> positions_of(r.render_pos)[k] == split_3x6_2_render_pos(k),
        r.render_rows == 4,
        r.render_cols == 13,
{
    match kind {
        LayoutKind::LayoutSplit3x6_2 => {
            let mut matrix_pos = new_positions();
            let mut render_pos = new_positions();
            let mut k: usize = 0;
            while k < SPLIT_3X6_2_KEYS
                invariant
                    k <= SPLIT_3X6_2_KEYS,
                    positions_of(matrix_pos).len() == k,
                    positions_of(render_pos).len() == k,
                    forall|j: int| 0 <= j < k ==> positions_of(matrix_pos)[j] == split_3x6_2_matrix_pos(j),
                    forall|j: int| 0 <= j < k ==> positions_of(render_pos)[j] == split_3x6_2_render_pos(j),
                decreases SPLIT_3X6_2_KEYS - k,
            {
                if k < 36 {
                    let r = k / 12;
                    let c = k % 12;
                    if c < 6 {
                        let _ = push_position(&mut matrix_pos, (r, c));
                        let _ = push_position(&mut render_pos, (r, c));
                    } else {
                        let _ = push_position(&mut matrix_pos, (r + 4, c - 6));
                        let _ = push_position(&mut render_pos, (r, c + 1));
                    }
                } else {
                    let m = k - 36;
                    let _ = push_position(&mut matrix_pos, (3 + 4 * (m / 2), m % 2));
                    let _ = push_position(&mut render_pos, (3, 4 + m + m / 2));
                }
                k = k + 1;
            }
            Layout { matrix_pos, render_pos, render_rows: 4, render_cols: 13 }
        },
    }
}

/// Writes the label of a layer function, such as `TO(2)`, into the first five bytes of
/// `layer_buf`: the two bytes of `prefix`, then the layer as one decimal digit in parentheses.
/// Fails with "invalid layer prefix" when the prefix is not two bytes long (nothing is written),
/// and with "invalid layer" when the layer has more than one digit (the prefix and the opening
/// parenthesis are written by then).
pub fn make_layer_str(prefix: &str, layer: LayerIndex, layer_buf: &mut [u8]) -> (r: Result<
    (),
    &'static str,
>)
    requires
        old(layer_buf)@.len() >= 5,
    ensures
        final(layer_buf)@.len() == old(layer_buf)@.len(),
        prefix.spec_bytes().len() != 2 ==> r == Err::<(), &'static str>("invalid layer prefix")
            && final(layer_buf)@ == old(layer_buf)@,
        prefix.spec_bytes().len() == 2 && layer >= 10 ==> r == Err::<(), &'static str>(
            "invalid layer",
        ),
        prefix.spec_bytes().len() == 2 && layer < 10 ==> r == Ok::<(), &'static str>(()),
        prefix.spec_bytes().len() == 2 ==> final(layer_buf)@.subrange(0, 2) == prefix.spec_bytes()
            && final(layer_buf)@[2] == 40u8,
        prefix.spec_bytes().len() == 2 && layer >= 10 ==> final(layer_buf)@.subrange(3, old(
            layer_buf,
        )@.len() as int) == old(layer_buf)@.subrange(3, old(layer_buf)@.len() as int),
        prefix.spec_bytes().len() == 2 && layer < 10 ==> {
            &&& final(layer_buf)@[3] == (48 + layer) as u8
            &&& final(layer_buf)@[4] == 41u8
            &&& final(layer_buf)@.subrange(5, old(layer_buf)@.len() as int) == old(
                layer_buf,
            )@.subrange(5, old(layer_buf)@.len() as int)
        },
{
    if prefix.len() != 2 {
        return Err("invalid layer prefix");
    }
    let p = prefix.as_bytes();
    layer_buf[0] = p[0];
    layer_buf[1] = p[1];
    layer_buf[2] = 40u8;
    assert(layer_buf@.subrange(0, 2) =~= prefix.spec_bytes());
    if layer >= 10 {
        assert(layer_buf@.subrange(3, layer_buf@.len() as int) =~= old(layer_buf)@.subrange(
            3,
            old(layer_buf)@.len() as int,
        ));
        return Err("invalid layer");
    }
    layer_buf[3] = 48u8 + layer;
    layer_buf[4] = 41u8;
    assert(layer_buf@.subrange(0, 2) =~= prefix.spec_bytes());
    assert(layer_buf@.subrange(5, layer_buf@.len() as int) =~= old(layer_buf)@.subrange(
        5,
        old(layer_buf)@.len() as int,
    ));
    Ok(())
}

} // verus!
