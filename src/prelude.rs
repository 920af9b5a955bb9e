use vstd::prelude::*;

verus! {

/// Number of sense lines of the analog bus (channels sampled per register).
pub const BUS_WIDTH: usize = 4;
/// Number of select lines of the analog multiplexer.
pub const SEL_WIDTH: usize = 4;
/// Largest number of logical keys a keymap layer can hold.
pub const MAX_KEYS: usize = 128;
/// Largest number of layers of a keymap.
pub const MAX_LAYERS: usize = 8;
/// Largest number of events a single register scan can report.
pub const MAX_EVENTS: usize = 16;

/// Lowest usage code that the usage bitmap covers.
pub const NKRO_MIN_KEY: u8 = 0x02;
/// Highest usage code that the usage bitmap covers.
pub const NKRO_MAX_KEY: u8 = 0x81;
/// Lowest modifier usage code.
pub const MIN_MODIFIER: u8 = 0xe0;
/// Highest modifier usage code.
pub const MAX_MODIFIER: u8 = 0xe7;

/// Rows of the switch matrix.
pub const MAX_ROWS: usize = 8;
/// Columns of the switch matrix.
pub const MAX_COLS: usize = 32;
/// Largest number of registers a board can use.
pub const MAX_REGS: usize = 16;

pub type KeyIndex = u8;
pub type LayerMask = u8;
pub type LayerIndex = u8;
pub type RegIndex = u8;
pub type RegBitIndex = u8;
/// One sample per sense line, in ADC counts.
pub type RegValue = [u16; 4];
pub type PinIndex = u8;

} // verus!
