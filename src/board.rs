use vstd::prelude::*;
use crate::bus::TryIntoOutputPin;
use crate::error::Error;
use crate::layout::{position_slice, positions_of, Layout};
use crate::prelude::{
    KeyIndex, PinIndex, RegBitIndex, RegIndex, BUS_WIDTH, MAX_COLS, MAX_KEYS, MAX_REGS, MAX_ROWS,
};

verus! {

/// Which way the signal of an analog switch moves when it is pressed: with `S` the reading
/// falls, with `N` it rises.
#[derive(Debug, Clone, Copy, PartialEq, Eq, Structural)]
pub enum Polarity {
    N,
    S,
}

/// Calibration of one analog switch. Thresholds are in ADC counts, out of `ADC_MAX`.
#[derive(Debug, Clone, Copy, PartialEq, Eq, Structural)]
pub struct SwitchSettings {
    pub polarity: Polarity,
    /// Crossing this threshold (below it for `S`, above it for `N`) presses the switch.
    pub trig_down: u16,
    /// Crossing this threshold (above it for `S`, below it for `N`) releases the switch.
    pub trig_up: u16,
}

/// Full scale of the ADC: a reading `v` stands for the fraction `v / ADC_MAX`.
pub const ADC_MAX: u16 = 4096;

/// The default calibration: polarity `S`, pressed below 0.1 and released above 0.4 of full
/// scale.
pub open spec fn default_settings() -> SwitchSettings {
    SwitchSettings { polarity: Polarity::S, trig_down: 410, trig_up: 1638 }
}

/// The thresholds are ordered as the polarity needs: the band between them is the hysteresis.
pub open spec fn settings_ok(s: SwitchSettings) -> bool {
    match s.polarity {
        Polarity::S => s.trig_up > s.trig_down,
        Polarity::N => s.trig_up < s.trig_down,
    }
}

impl Default for SwitchSettings {
    fn default() -> (r: Self)
        ensures
            r == default_settings(),
    {
        SwitchSettings { polarity: Polarity::S, trig_down: 410, trig_up: 1638 }
    }
}

impl SwitchSettings {
    /// Whether the thresholds are ordered as the polarity needs.
    pub fn is_valid(&self) -> (r: bool)
        ensures
            r == settings_ok(*self),
    {
        match self.polarity {
            Polarity::S => self.trig_up > self.trig_down,
            Polarity::N => self.trig_up < self.trig_down,
        }
    }
}

/// One row of the switch matrix: the (register, bit) read for each column.
pub type MatrixRow = heapless::Vec<(RegIndex, RegBitIndex), MAX_COLS>;
/// The rows of the switch matrix.
pub type MatrixRows = heapless::Vec<MatrixRow, MAX_ROWS>;
/// One row of calibrations: the calibration of the switch in each column.
pub type CalibrationRow = heapless::Vec<SwitchSettings, MAX_COLS>;
/// The rows of calibrations.
pub type CalibrationRows = heapless::Vec<CalibrationRow, MAX_ROWS>;

/// The cells held by a matrix row, by column.
pub uninterp spec fn matrix_row_of(v: MatrixRow) -> Seq<(u8, u8)>;

/// The rows held by a matrix, by row.
pub uninterp spec fn matrix_rows_of(v: MatrixRows) -> Seq<MatrixRow>;

/// The calibrations held by a calibration row, by column.
pub uninterp spec fn calibration_row_of(v: CalibrationRow) -> Seq<SwitchSettings>;

/// The rows held by a calibration table, by row.
pub uninterp spec fn calibration_rows_of(v: CalibrationRows) -> Seq<CalibrationRow>;

/// Relies on heapless::Vec::as_slice: the slice holds the vector's items, which never outnumber
/// its capacity.
#[verifier::external_body]
fn matrix_row_slice(v: &MatrixRow) -> (r: &[(u8, u8)])
    ensures
        r@ == matrix_row_of(*v),
        r@.len() <= MAX_COLS,
{
    v.as_slice()
}

/// Relies on heapless::Vec::as_slice: the slice holds the vector's items, which never outnumber
/// its capacity.
#[verifier::external_body]
fn matrix_rows_slice(v: &MatrixRows) -> (r: &[MatrixRow])
    ensures
        r@ == matrix_rows_of(*v),
        r@.len() <= MAX_ROWS,
{
    v.as_slice()
}

/// Relies on heapless::Vec::as_slice: the slice holds the vector's items, which never outnumber
/// its capacity.
#[verifier::external_body]
fn calibration_row_slice(v: &CalibrationRow) -> (r: &[SwitchSettings])
    ensures
        r@ == calibration_row_of(*v),
        r@.len() <= MAX_COLS,
{
    v.as_slice()
}

/// Relies on heapless::Vec::as_slice: the slice holds the vector's items, which never outnumber
/// its capacity.
#[verifier::external_body]
fn calibration_rows_slice(v: &CalibrationRows) -> (r: &[CalibrationRow])
    ensures
        r@ == calibration_rows_of(*v),
        r@.len() <= MAX_ROWS,
{
    v.as_slice()
}

/// A board: which register bit reads each position of the switch matrix, the calibration of
/// each position, and the pins.
#[derive(Debug)]
pub struct Board {
    /// `matrix[i][j]` is the (register, bit) read for matrix position (i, j).
    pub matrix: MatrixRows,
    /// `matrix_calibration[i][j]` is the calibration of the switch at matrix position (i, j).
    pub matrix_calibration: CalibrationRows,
    pub bus_pins: [PinIndex; 4],
    pub sel_pins: [PinIndex; 4],
    pub led_ind_pins: [PinIndex; 2],
}

impl Board {
    pub open spec fn matrix_view(&self) -> Seq<Seq<(u8, u8)>> {
        matrix_rows_of(self.matrix).map_values(|r: MatrixRow| matrix_row_of(r))
    }

    pub open spec fn calibration_view(&self) -> Seq<Seq<SwitchSettings>> {
        calibration_rows_of(self.matrix_calibration).map_values(
            |r: CalibrationRow| calibration_row_of(r),
        )
    }

    /// The matrix fits `MAX_ROWS` by `MAX_COLS`, every position has a calibration, and every
    /// calibration is valid.
    pub open spec fn wf(&self) -> bool {
        let m = self.matrix_view();
        let c = self.calibration_view();
        &&& m.len() <= MAX_ROWS
        &&& m.len() <= c.len()
        &&& forall|i: int| 0 <= i < m.len() ==> #[trigger] m[i].len() <= MAX_COLS
        &&& forall|i: int| 0 <= i < m.len() ==> m[i].len() <= #[trigger] c[i].len()
        &&& forall|i: int, j: int|
            0 <= i < c.len() && 0 <= j < c[i].len() ==> settings_ok(#[trigger] c[i][j])
    }
}

impl Board {
    /// Whether the board is well formed: what building its register map needs of it.
    pub fn is_valid(&self) -> (r: bool)
        ensures
            r == self.wf(),
    {
        let m = matrix_rows_slice(&self.matrix);
        let c = calibration_rows_slice(&self.matrix_calibration);
        if m.len() > c.len() {
            return false;
        }
        let mut i: usize = 0;
        while i < m.len()
            invariant
                i <= m@.len(),
                m@ == matrix_rows_of(self.matrix),
                c@ == calibration_rows_of(self.matrix_calibration),
                m@.len() <= MAX_ROWS,
                m@.len() <= c@.len(),
                forall|a: int| 0 <= a < i ==> #[trigger] self.matrix_view()[a].len() <= MAX_COLS,
                forall|a: int|
                    0 <= a < i ==> self.matrix_view()[a].len()
                        <= #[trigger] self.calibration_view()[a].len(),
            decreases m@.len() - i,
        {
            let mrow = matrix_row_slice(&m[i]);
            let crow = calibration_row_slice(&c[i]);
            assert(self.matrix_view()[i as int] == mrow@);
            assert(self.calibration_view()[i as int] == crow@);
            if mrow.len() > crow.len() {
                return false;
            }
            i = i + 1;
        }
        let mut i: usize = 0;
        while i < c.len()
            invariant
                i <= c@.len(),
                c@ == calibration_rows_of(self.matrix_calibration),
                forall|a: int, b: int|
                    0 <= a < i && 0 <= b < self.calibration_view()[a].len() ==> settings_ok(
                        #[trigger] self.calibration_view()[a][b],
                    ),
            decreases c@.len() - i,
        {
            let row = calibration_row_slice(&c[i]);
            assert(row@ == self.calibration_view()[i as int]);
            let mut j: usize = 0;
            while j < row.len()
                invariant
                    j <= row@.len(),
                    i < c@.len(),
                    c@ == calibration_rows_of(self.matrix_calibration),
                    row@ == self.calibration_view()[i as int],
                    forall|b: int| 0 <= b < j ==> settings_ok(#[trigger] row@[b]),
                decreases row@.len() - j,
            {
                if !row[j].is_valid() {
                    assert(self.calibration_view()[i as int][j as int] == row@[j as int]);
                    return false;
                }
                j = j + 1;
            }
            i = i + 1;
        }
        true
    }
}

/// A (register, bit) pair that the register map can hold.
pub open spec fn reg_bit_in_range(c: (u8, u8)) -> bool {
    c.0 < MAX_REGS && c.1 < BUS_WIDTH
}

/// The last matrix position, in row-major order, before position (i, j) (that is, in rows
/// before `i`, or in row `i` before column `j`) that is wired to register `reg`, bit `bit`.
pub open spec fn last_cell(m: Seq<Seq<(u8, u8)>>, reg: int, bit: int, i: int, j: int) -> Option<
    (int, int),
>
    decreases i, j,
{
    if 0 < j && 0 <= i < m.len() && j <= m[i].len() {
        if m[i][j - 1].0 as int == reg && m[i][j - 1].1 as int == bit {
            Some((i, j - 1))
        } else {
            last_cell(m, reg, bit, i, j - 1)
        }
    } else if 0 < i && i <= m.len() {
        last_cell(m, reg, bit, i - 1, m[i - 1].len() as int)
    } else {
        None
    }
}

/// One more than the highest register in range named before position (i, j), or 0.
pub open spec fn reg_count(m: Seq<Seq<(u8, u8)>>, i: int, j: int) -> int
    decreases i, j,
{
    if 0 < j && 0 <= i < m.len() && j <= m[i].len() {
        let c = m[i][j - 1];
        let rest = reg_count(m, i, j - 1);
        if reg_bit_in_range(c) && c.0 + 1 > rest {
            c.0 + 1
        } else {
            rest
        }
    } else if 0 < i && i <= m.len() {
        reg_count(m, i - 1, m[i - 1].len() as int)
    } else {
        0
    }
}

/// The key at matrix position (i, j): the last of the first `n` layout keys placed there, or
/// none when no key is.
pub open spec fn layout_key(pos: Seq<(usize, usize)>, i: int, j: int, n: int) -> Option<u8>
    decreases n,
{
    if n <= 0 {
        None
    } else if pos[n - 1].0 as int == i && pos[n - 1].1 as int == j {
        Some((n - 1) as u8)
    } else {
        layout_key(pos, i, j, n - 1)
    }
}

/// In a layout whose keys sit at distinct positions, the key at the position of key `k` is `k`.
pub proof fn lemma_layout_key_is_index(pos: Seq<(usize, usize)>, k: int, n: int)
    requires
        0 <= k < n <= pos.len(),
        n <= 256,
        forall|a: int, b: int| 0 <= a < b < pos.len() ==> pos[a] != pos[b],
    ensures
        layout_key(pos, pos[k].0 as int, pos[k].1 as int, n) == Some(k as u8),
    decreases n,
{
    if n - 1 != k {
        assert(pos[n - 1] != pos[k]);
        lemma_layout_key_is_index(pos, k, n - 1);
    }
}

/// The key read by register `reg`, bit `bit` when only positions before (i, j) are counted.
pub open spec fn entry_before(
    m: Seq<Seq<(u8, u8)>>,
    pos: Seq<(usize, usize)>,
    reg: int,
    bit: int,
    i: int,
    j: int,
) -> Option<u8> {
    match last_cell(m, reg, bit, i, j) {
        Some(c) => layout_key(pos, c.0, c.1, pos.len() as int),
        None => None,
    }
}

/// The calibration of register `reg`, bit `bit` when only positions before (i, j) are counted.
pub open spec fn settings_before(
    m: Seq<Seq<(u8, u8)>>,
    cal: Seq<Seq<SwitchSettings>>,
    reg: int,
    bit: int,
    i: int,
    j: int,
) -> SwitchSettings {
    match last_cell(m, reg, bit, i, j) {
        Some(c) => cal[c.0][c.1],
        None => default_settings(),
    }
}

/// The key that register `reg`, bit `bit` reads: the key at the last matrix position wired to
/// it, if the layout places one there.
pub open spec fn reg_entry(m: Seq<Seq<(u8, u8)>>, pos: Seq<(usize, usize)>, reg: int, bit: int) -> Option<u8> {
    entry_before(m, pos, reg, bit, m.len() as int, 0)
}

/// The calibration of register `reg`, bit `bit`: that of the last matrix position wired to it,
/// or the default.
pub open spec fn reg_settings(
    m: Seq<Seq<(u8, u8)>>,
    cal: Seq<Seq<SwitchSettings>>,
    reg: int,
    bit: int,
) -> SwitchSettings {
    settings_before(m, cal, reg, bit, m.len() as int, 0)
}

/// For each register, the keys read by its bits.
pub type RegKeys = heapless::Vec<[Option<KeyIndex>; 4], MAX_REGS>;
/// For each register, the calibrations of its switches.
pub type RegCalibration = heapless::Vec<[SwitchSettings; 4], MAX_REGS>;

/// The rows held by a list of register keys, in order.
pub uninterp spec fn reg_keys_of(v: RegKeys) -> Seq<[Option<KeyIndex>; 4]>;

/// The rows held by a list of register calibrations, in order.
pub uninterp spec fn reg_calibration_of(v: RegCalibration) -> Seq<[SwitchSettings; 4]>;

/// Relies on heapless::Vec::new: the new vector is empty.
#[verifier::external_body]
fn new_reg_keys() -> (r: RegKeys)
    ensures
        reg_keys_of(r) == Seq::<[Option<KeyIndex>; 4]>::empty(),
{
    heapless::Vec::new()
}

/// Relies on heapless::Vec::push: appends when the length is under the capacity, else hands
/// the item back and leaves the vector as it was.
#[verifier::external_body]
fn push_reg_keys(v: &mut RegKeys, x: [Option<KeyIndex>; 4]) -> (r: Result<(), [Option<KeyIndex>; 4]>)
    ensures
        reg_keys_of(*final(v)) == (if reg_keys_of(*old(v)).len() < MAX_REGS {
            reg_keys_of(*old(v)).push(x)
        } else {
            reg_keys_of(*old(v))
        }),
        r == (if reg_keys_of(*old(v)).len() < MAX_REGS {
            Ok::<(), [Option<KeyIndex>; 4]>(())
        } else {
            Err(x)
        }),
{
    v.push(x)
}

/// Relies on heapless::Vec::as_slice: the slice holds the vector's items, which never outnumber
/// its capacity.
#[verifier::external_body]
pub(crate) fn reg_keys_slice(v: &RegKeys) -> (r: &[[Option<KeyIndex>; 4]])
    ensures
        r@ == reg_keys_of(*v),
        r@.len() <= MAX_REGS,
{
    v.as_slice()
}

/// Relies on heapless::Vec::as_mut_slice: the item at `i` is replaced, the others stay.
#[verifier::external_body]
fn set_reg_keys(v: &mut RegKeys, i: usize, x: [Option<KeyIndex>; 4])
    requires
        i < reg_keys_of(*old(v)).len(),
    ensures
        reg_keys_of(*final(v)) == reg_keys_of(*old(v)).update(i as int, x),
{
    v.as_mut_slice()[i] = x;
}

/// Relies on heapless::Vec::new: the new vector is empty.
#[verifier::external_body]
fn new_reg_calibration() -> (r: RegCalibration)
    ensures
        reg_calibration_of(r) == Seq::<[SwitchSettings; 4]>::empty(),
{
    heapless::Vec::new()
}

/// Relies on heapless::Vec::push: appends when the length is under the capacity, else hands
/// the item back and leaves the vector as it was.
#[verifier::external_body]
fn push_reg_calibration(v: &mut RegCalibration, x: [SwitchSettings; 4]) -> (r: Result<
    (),
    [SwitchSettings; 4],
>)
    ensures
        reg_calibration_of(*final(v)) == (if reg_calibration_of(*old(v)).len() < MAX_REGS {
            reg_calibration_of(*old(v)).push(x)
        } else {
            reg_calibration_of(*old(v))
        }),
        r == (if reg_calibration_of(*old(v)).len() < MAX_REGS {
            Ok::<(), [SwitchSettings; 4]>(())
        } else {
            Err(x)
        }),
{
    v.push(x)
}

/// Relies on heapless::Vec::as_slice: the slice holds the vector's items, which never outnumber
/// its capacity.
#[verifier::external_body]
pub(crate) fn reg_calibration_slice(v: &RegCalibration) -> (r: &[[SwitchSettings; 4]])
    ensures
        r@ == reg_calibration_of(*v),
        r@.len() <= MAX_REGS,
{
    v.as_slice()
}

/// Relies on heapless::Vec::as_mut_slice: the item at `i` is replaced, the others stay.
#[verifier::external_body]
fn set_reg_calibration(v: &mut RegCalibration, i: usize, x: [SwitchSettings; 4])
    requires
        i < reg_calibration_of(*old(v)).len(),
    ensures
        reg_calibration_of(*final(v)) == reg_calibration_of(*old(v)).update(i as int, x),
{
    v.as_mut_slice()[i] = x;
}

/// For each register in use, the key read by each of its bits (if any) and the switch's
/// calibration.
#[derive(Debug)]
pub struct RegMap {
    pub regs: RegKeys,
    pub calibration: RegCalibration,
}

impl RegMap {
    /// At most `MAX_REGS` registers, a calibration for each, and every calibration valid.
    pub open spec fn wf(&self) -> bool {
        &&& reg_keys_of(self.regs).len() <= MAX_REGS
        &&& reg_calibration_of(self.calibration).len() == reg_keys_of(self.regs).len()
        &&& forall|r: int, b: int|
            0 <= r < reg_calibration_of(self.calibration).len() && 0 <= b < BUS_WIDTH ==> settings_ok(
                #[trigger] reg_calibration_of(self.calibration)[r]@[b],
            )
    }
}

proof fn lemma_last_cell(m: Seq<Seq<(u8, u8)>>, reg: int, bit: int, i: int, j: int)
    requires
        reg_bit_in_range((reg as u8, bit as u8)),
        0 <= reg < 256,
        0 <= bit < 256,
    ensures
        last_cell(m, reg, bit, i, j) matches Some(c) ==> {
            &&& reg < reg_count(m, i, j)
            &&& 0 <= c.0 < m.len()
            &&& 0 <= c.1 < m[c.0].len()
            &&& m[c.0][c.1] == (reg as u8, bit as u8)
        },
        0 <= reg_count(m, i, j) <= MAX_REGS,
    decreases i, j,
{
    if 0 < j && 0 <= i < m.len() && j <= m[i].len() {
        lemma_last_cell(m, reg, bit, i, j - 1);
    } else if 0 < i && i <= m.len() {
        lemma_last_cell(m, reg, bit, i - 1, m[i - 1].len() as int);
    }
}

/// Builds the register map of a board for a layout. Positions wired to a register at or beyond
/// `MAX_REGS`, or to a bit beyond the bus width, are left out; layout positions outside the
/// matrix are ignored.
pub fn make_reg_map(board: &Board, layout: &Layout) -> (r: RegMap)
    requires
        board.wf(),
    ensures
        r.wf(),
        reg_keys_of(r.regs).len() == reg_count(board.matrix_view(), board.matrix_view().len() as int, 0),
        forall|reg: int, bit: int|
            0 <= reg < reg_keys_of(r.regs).len() && 0 <= bit < BUS_WIDTH ==> #[trigger] reg_keys_of(r.regs)[reg]@[bit]
                == reg_entry(board.matrix_view(), positions_of(layout.matrix_pos), reg, bit),
        forall|reg: int, bit: int|
            0 <= reg < reg_keys_of(r.regs).len() && 0 <= bit < BUS_WIDTH ==> #[trigger] reg_calibration_of(r.calibration)[reg]@[bit]
                == reg_settings(board.matrix_view(), board.calibration_view(), reg, bit),
{
    let ghost pos = positions_of(layout.matrix_pos);
    let n_pos = position_slice(&layout.matrix_pos).len();
    let mut key_matrix: [[Option<KeyIndex>; 32]; 8] = [[None; 32]; 8];
    let mut idx: usize = 0;
    while idx < n_pos
        invariant
            pos == positions_of(layout.matrix_pos),
            pos.len() <= MAX_KEYS,
            n_pos == pos.len(),
            idx <= pos.len(),
            forall|a: int, b: int|
                0 <= a < MAX_ROWS && 0 <= b < MAX_COLS ==> #[trigger] key_matrix@[a]@[b]
                    == layout_key(pos, a, b, idx as int),
        decreases pos.len() - idx,
    {
        let (i, j) = position_slice(&layout.matrix_pos)[idx];
        if i < MAX_ROWS && j < MAX_COLS {
            let mut row = key_matrix[i];
            row[j] = Some(idx as KeyIndex);
            key_matrix[i] = row;
        }
        idx = idx + 1;
    }
    let ghost m = board.matrix_view();
    let ghost cal = board.calibration_view();
    let mut regs = new_reg_keys();
    let mut calibration = new_reg_calibration();
    let matrix = matrix_rows_slice(&board.matrix);
    let cal_rows = calibration_rows_slice(&board.matrix_calibration);
    let mut i: usize = 0;
    while i < matrix.len()
        invariant
            board.wf(),
            m == board.matrix_view(),
            cal == board.calibration_view(),
            matrix@ == matrix_rows_of(board.matrix),
            cal_rows@ == calibration_rows_of(board.matrix_calibration),
            i <= m.len(),
            forall|a: int, b: int|
                0 <= a < MAX_ROWS && 0 <= b < MAX_COLS ==> #[trigger] key_matrix@[a]@[b]
                    == layout_key(pos, a, b, pos.len() as int),
            reg_keys_of(regs).len() == reg_count(m, i as int, 0),
            reg_calibration_of(calibration).len() == reg_keys_of(regs).len(),
            forall|r: int, b: int|
                0 <= r < reg_calibration_of(calibration).len() && 0 <= b < BUS_WIDTH ==> settings_ok(
                    #[trigger] reg_calibration_of(calibration)[r]@[b],
                ),
            forall|reg: int, bit: int|
                0 <= reg < reg_keys_of(regs).len() && 0 <= bit < BUS_WIDTH ==> #[trigger] reg_keys_of(regs)[reg]@[bit]
                    == entry_before(m, pos, reg, bit, i as int, 0),
            forall|reg: int, bit: int|
                0 <= reg < reg_keys_of(regs).len() && 0 <= bit < BUS_WIDTH ==> #[trigger] reg_calibration_of(calibration)[reg]@[bit]
                    == settings_before(m, cal, reg, bit, i as int, 0),
        decreases m.len() - i,
    {
        let row = matrix_row_slice(&matrix[i]);
        assert(row@ == m[i as int]);
        let mut j: usize = 0;
        while j < row.len()
            invariant
                board.wf(),
                m == board.matrix_view(),
                cal == board.calibration_view(),
                i < m.len(),
                cal_rows@ == calibration_rows_of(board.matrix_calibration),
                row@ == m[i as int],
                j <= row@.len(),
                forall|a: int, b: int|
                    0 <= a < MAX_ROWS && 0 <= b < MAX_COLS ==> #[trigger] key_matrix@[a]@[b]
                        == layout_key(pos, a, b, pos.len() as int),
                reg_keys_of(regs).len() == reg_count(m, i as int, j as int),
                reg_calibration_of(calibration).len() == reg_keys_of(regs).len(),
                forall|r: int, b: int|
                    0 <= r < reg_calibration_of(calibration).len() && 0 <= b < BUS_WIDTH ==> settings_ok(
                        #[trigger] reg_calibration_of(calibration)[r]@[b],
                    ),
                forall|reg: int, bit: int|
                    0 <= reg < reg_keys_of(regs).len() && 0 <= bit < BUS_WIDTH ==> #[trigger] reg_keys_of(regs)[reg]@[bit]
                        == entry_before(m, pos, reg, bit, i as int, j as int),
                forall|reg: int, bit: int|
                    0 <= reg < reg_keys_of(regs).len() && 0 <= bit < BUS_WIDTH
                        ==> #[trigger] reg_calibration_of(calibration)[reg]@[bit] == settings_before(
                        m,
                        cal,
                        reg,
                        bit,
                        i as int,
                        j as int,
                    ),
            decreases row@.len() - j,
        {
            let (reg_idx, reg_bit) = row[j];
            if (reg_idx as usize) < MAX_REGS && (reg_bit as usize) < BUS_WIDTH {
                let ghost old_len = reg_keys_of(regs).len();
                while reg_keys_slice(&regs).len() <= reg_idx as usize
                    invariant
                        (reg_idx as usize) < MAX_REGS,
                        old_len <= reg_keys_of(regs).len(),
                        reg_keys_of(regs).len() <= reg_idx + 1 || reg_keys_of(regs).len() == old_len,
                        reg_calibration_of(calibration).len() == reg_keys_of(regs).len(),
                        old_len == reg_count(m, i as int, j as int),
                        forall|r: int, b: int|
                            0 <= r < reg_calibration_of(calibration).len() && 0 <= b < BUS_WIDTH ==> settings_ok(
                                #[trigger] reg_calibration_of(calibration)[r]@[b],
                            ),
                        forall|reg: int, bit: int|
                            old_len <= reg < reg_keys_of(regs).len() && 0 <= bit < BUS_WIDTH
                                ==> #[trigger] reg_keys_of(regs)[reg]@[bit] == None::<u8>,
                        forall|reg: int, bit: int|
                            old_len <= reg < reg_keys_of(regs).len() && 0 <= bit < BUS_WIDTH
                                ==> #[trigger] reg_calibration_of(calibration)[reg]@[bit] == default_settings(),
                        forall|reg: int, bit: int|
                            0 <= reg < old_len && 0 <= bit < BUS_WIDTH ==> #[trigger] reg_keys_of(regs)[reg]@[bit]
                                == entry_before(m, pos, reg, bit, i as int, j as int),
                        forall|reg: int, bit: int|
                            0 <= reg < old_len && 0 <= bit < BUS_WIDTH
                                ==> #[trigger] reg_calibration_of(calibration)[reg]@[bit] == settings_before(
                                m,
                                cal,
                                reg,
                                bit,
                                i as int,
                                j as int,
                            ),
                    decreases reg_idx + 1 - reg_keys_of(regs).len(),
                {
                    let ghost prev = reg_keys_of(regs);
                    let ghost prev_cal = reg_calibration_of(calibration);
                    let none_row: [Option<KeyIndex>; 4] = [None; 4];
                    let default_row: [SwitchSettings; 4] = [SwitchSettings::default(); 4];
                    assert(none_row@ =~= Seq::new(4, |b: int| None::<u8>));
                    assert(default_row@ =~= Seq::new(4, |b: int| default_settings()));
                    let pushed = push_reg_keys(&mut regs, none_row);
                    let pushed_cal = push_reg_calibration(&mut calibration, default_row);
                    assert(forall|reg: int| 0 <= reg < prev.len() ==> reg_keys_of(regs)[reg] == prev[reg]);
                    assert(forall|reg: int|
                        0 <= reg < prev_cal.len() ==> reg_calibration_of(calibration)[reg] == prev_cal[reg]);
                }
                assert forall|reg: int, bit: int|
                    0 <= reg < reg_keys_of(regs).len() && 0 <= bit < BUS_WIDTH && old_len <= reg implies last_cell(
                        m,
                        reg,
                        bit,
                        i as int,
                        j as int,
                    ) is None by {
                    assert(reg_keys_of(regs).len() <= reg_idx + 1);
                    lemma_last_cell(m, reg, bit, i as int, j as int);
                }
                let ghost pre = reg_keys_of(regs);
                let ghost pre_cal = reg_calibration_of(calibration);
                let mut keys = reg_keys_slice(&regs)[reg_idx as usize];
                keys[reg_bit as usize] = key_matrix[i][j];
                set_reg_keys(&mut regs, reg_idx as usize, keys);
                let mut settings = reg_calibration_slice(&calibration)[reg_idx as usize];
                let cal_row = calibration_row_slice(&cal_rows[i]);
                assert(cal_row@ == cal[i as int]);
                settings[reg_bit as usize] = cal_row[j];
                set_reg_calibration(&mut calibration, reg_idx as usize, settings);
                assert(key_matrix@[i as int]@[j as int] == layout_key(
                    pos,
                    i as int,
                    j as int,
                    pos.len() as int,
                ));
                assert forall|reg: int, bit: int|
                    0 <= reg < reg_keys_of(regs).len() && 0 <= bit < BUS_WIDTH && !(reg == reg_idx as int && bit
                        == reg_bit as int) implies #[trigger] reg_keys_of(regs)[reg]@[bit] == pre[reg]@[bit] by {
                    if reg == reg_idx as int {
                        assert(reg_keys_of(regs)[reg] == keys);
                    }
                }
                assert forall|reg: int, bit: int|
                    0 <= reg < reg_keys_of(regs).len() && 0 <= bit < BUS_WIDTH && !(reg == reg_idx as int && bit
                        == reg_bit as int) implies #[trigger] reg_calibration_of(calibration)[reg]@[bit]
                    == pre_cal[reg]@[bit] by {
                    if reg == reg_idx as int {
                        assert(reg_calibration_of(calibration)[reg] == settings);
                    }
                }
            }
            proof {
                lemma_last_cell(m, 0, 0, i as int, j as int);
                assert(m[i as int][j as int] == (reg_idx, reg_bit));
                assert forall|reg: int, bit: int|
                    0 <= reg < 256 && 0 <= bit < BUS_WIDTH && !(reg == reg_idx as int && bit
                        == reg_bit as int) implies #[trigger] last_cell(m, reg, bit, i as int, j + 1)
                    == last_cell(m, reg, bit, i as int, j as int) by {}
                assert forall|reg: int, bit: int|
                    reg == reg_idx as int && bit == reg_bit as int implies #[trigger] last_cell(
                        m,
                        reg,
                        bit,
                        i as int,
                        j + 1,
                    ) == Some((i as int, j as int)) by {}
            }
            j = j + 1;
        }
        i = i + 1;
    }
    proof {
        lemma_last_cell(m, 0, 0, m.len() as int, 0);
    }
    RegMap { regs, calibration }
}

proof fn lemma_last_cell_unique(m: Seq<Seq<(u8, u8)>>, i: int, j: int, a: int, b: int)
    requires
        0 <= i < m.len(),
        0 <= j < m[i].len(),
        i < a || (i == a && j < b),
        a <= m.len(),
        a < m.len() ==> b <= m[a].len(),
        a == m.len() ==> b == 0,
        forall|x: int, y: int|
            0 <= x < m.len() && 0 <= y < m[x].len() && #[trigger] m[x][y] == m[i][j] ==> x == i && y
                == j,
    ensures
        last_cell(m, m[i][j].0 as int, m[i][j].1 as int, a, b) == Some((i, j)),
    decreases a, b,
{
    if 0 < b && 0 <= a < m.len() && b <= m[a].len() {
        if !(a == i && b - 1 == j) {
            assert(m[a][b - 1] != m[i][j]);
            lemma_last_cell_unique(m, i, j, a, b - 1);
        }
    } else {
        lemma_last_cell_unique(m, i, j, a - 1, m[a - 1].len() as int);
    }
}

/// On a board where each register bit is wired to at most one matrix position, the register
/// map sends every position wired to a register bit in range to the key that the layout places
/// at that position (none when it places none there; with distinct layout positions, the key
/// whose position it is, by `lemma_layout_key_is_index`); registers at or beyond `MAX_REGS` are
/// never in the map.
pub proof fn lemma_reg_map_composes(m: Seq<Seq<(u8, u8)>>, pos: Seq<(usize, usize)>, i: int, j: int)
    requires
        0 <= i < m.len(),
        0 <= j < m[i].len(),
        reg_bit_in_range(m[i][j]),
        forall|x: int, y: int|
            0 <= x < m.len() && 0 <= y < m[x].len() && #[trigger] m[x][y] == m[i][j] ==> x == i && y
                == j,
    ensures
        (m[i][j].0 as int) < reg_count(m, m.len() as int, 0),
        reg_count(m, m.len() as int, 0) <= MAX_REGS,
        reg_entry(m, pos, m[i][j].0 as int, m[i][j].1 as int) == layout_key(
            pos,
            i,
            j,
            pos.len() as int,
        ),
{
    lemma_last_cell_unique(m, i, j, m.len() as int, 0);
    lemma_last_cell(m, m[i][j].0 as int, m[i][j].1 as int, m.len() as int, 0);
}

/// The output pins that a board names: its select lines and its indicator lines.
pub struct BoardPins<Q> {
    pub sel_pins: [Q; 4],
    pub led_ind_pins: [Q; 2],
}

/// Index of the first occurrence of `x` in `s`, or the length when there is none.
pub open spec fn first_index(s: Seq<usize>, x: usize) -> int
    decreases s.len(),
{
    if s.len() == 0 {
        0
    } else if s[0] == x {
        0
    } else {
        1 + first_index(s.drop_first(), x)
    }
}

/// `s` after taking out the item at `i`, the last item moving into its place.
pub open spec fn swap_removed<T>(s: Seq<T>, i: int) -> Seq<T> {
    s.update(i, s.last()).drop_last()
}

/// The ids left after taking each of `wanted` in turn out of `ids` (the first occurrence, the
/// last id moving into its place), or `None` when one of them is missing by its turn.
pub open spec fn take_ids(ids: Seq<usize>, wanted: Seq<usize>) -> Option<Seq<usize>>
    decreases wanted.len(),
{
    if wanted.len() == 0 {
        Some(ids)
    } else {
        match take_ids(ids, wanted.drop_last()) {
            None => None,
            Some(rest) => if first_index(rest, wanted.last()) < rest.len() {
                Some(swap_removed(rest, first_index(rest, wanted.last())))
            } else {
                None
            },
        }
    }
}

/// The pin ids that a board asks for, select lines first, then indicator lines.
pub open spec fn wanted_ids(board: &Board) -> Seq<usize> {
    board.sel_pins@.map_values(|p: u8| p as usize) + board.led_ind_pins@.map_values(
        |p: u8| p as usize,
    )
}

proof fn lemma_first_index(s: Seq<usize>, x: usize)
    ensures
        0 <= first_index(s, x) <= s.len(),
        first_index(s, x) < s.len() ==> s[first_index(s, x)] == x,
        forall|k: int| 0 <= k < first_index(s, x) ==> s[k] != x,
    decreases s.len(),
{
    if s.len() > 0 && s[0] != x {
        lemma_first_index(s.drop_first(), x);
        assert forall|k: int| 0 <= k < first_index(s, x) implies s[k] != x by {
            if k > 0 {
                assert(s[k] == s.drop_first()[k - 1]);
            }
        }
    }
}

/// Relies on std's `TryFrom<Vec<T>> for [T; N]`: a vector of exactly `N` items becomes the array
/// of those items.
#[verifier::external_body]
fn array_from_vec<T, const N: usize>(v: Vec<T>) -> (r: [T; N])
    requires
        v@.len() == N,
    ensures
        r@ == v@,
{
    <[T; N]>::try_from(v).ok().unwrap()
}

/// Takes the pin with id `id` out of `pins` (whose ids are `ids`, in the same order), the last
/// pin moving into its place, and turns it into an output.
fn take_pin<P: TryIntoOutputPin>(pins: &mut Vec<P>, ids: &mut Vec<usize>, id: usize) -> (r: Result<
    P::Pin,
    Error,
>)
    requires
        old(pins)@.len() == old(ids)@.len(),
    ensures
        final(pins)@.len() == final(ids)@.len(),
        first_index(old(ids)@, id) == old(ids)@.len() ==> r == Err::<P::Pin, Error>(
            Error::PinConfigError,
        ) && final(ids)@ == old(ids)@,
        first_index(old(ids)@, id) < old(ids)@.len() ==> final(ids)@ == swap_removed(
            old(ids)@,
            first_index(old(ids)@, id),
        ),
        r is Ok ==> first_index(old(ids)@, id) < old(ids)@.len(),
{
    proof {
        lemma_first_index(ids@, id);
    }
    let mut idx: usize = 0;
    while idx < ids.len() && ids[idx] != id
        invariant
            idx <= ids@.len(),
            forall|k: int| 0 <= k < idx ==> ids@[k] != id,
            0 <= first_index(ids@, id) <= ids@.len(),
            first_index(ids@, id) < ids@.len() ==> ids@[first_index(ids@, id)] == id,
            forall|k: int| 0 <= k < first_index(ids@, id) ==> ids@[k] != id,
        decreases ids@.len() - idx,
    {
        idx = idx + 1;
    }
    if idx == ids.len() {
        return Err(Error::PinConfigError);
    }
    assert(idx == first_index(ids@, id));
    ids.swap_remove(idx);
    let pin = pins.swap_remove(idx);
    pin.try_into_output_pin()
}

proof fn lemma_take_ids_stays_none(ids: Seq<usize>, w: Seq<usize>, n: int, m: int)
    requires
        0 <= n <= m <= w.len(),
        take_ids(ids, w.subrange(0, n)) is None,
    ensures
        take_ids(ids, w.subrange(0, m)) is None,
    decreases m - n,
{
    if n < m {
        assert(w.subrange(0, n + 1).drop_last() =~= w.subrange(0, n));
        lemma_take_ids_stays_none(ids, w, n + 1, m);
    }
}

/// Whether every id that the board names can be taken out of `ids` in turn.
fn ids_available(ids: &Vec<usize>, board: &Board) -> (r: bool)
    ensures
        r == take_ids(ids@, wanted_ids(board)) is Some,
{
    let ghost wanted = wanted_ids(board);
    let mut rest: Vec<usize> = Vec::new();
    let mut k: usize = 0;
    while k < ids.len()
        invariant
            k <= ids@.len(),
            rest@ == ids@.subrange(0, k as int),
        decreases ids@.len() - k,
    {
        rest.push(ids[k]);
        k = k + 1;
        assert(rest@ =~= ids@.subrange(0, k as int));
    }
    assert(rest@ =~= ids@);
    assert(wanted.subrange(0, 0) =~= Seq::<usize>::empty());
    let mut k: usize = 0;
    while k < 6
        invariant
            k <= 6,
            wanted == wanted_ids(board),
            wanted.len() == 6,
            take_ids(ids@, wanted.subrange(0, k as int)) == Some(rest@),
        decreases 6 - k,
    {
        let id = if k < 4 {
            board.sel_pins[k] as usize
        } else {
            board.led_ind_pins[k - 4] as usize
        };
        assert(id == wanted[k as int]);
        assert(wanted.subrange(0, k + 1).drop_last() =~= wanted.subrange(0, k as int));
        assert(wanted.subrange(0, k + 1).last() == id);
        proof {
            lemma_first_index(rest@, id);
        }
        let mut i: usize = 0;
        while i < rest.len() && rest[i] != id
            invariant
                i <= rest@.len(),
                forall|a: int| 0 <= a < i ==> rest@[a] != id,
            decreases rest@.len() - i,
        {
            i = i + 1;
        }
        if i == rest.len() {
            proof {
                assert(first_index(rest@, id) == rest@.len());
                lemma_take_ids_stays_none(ids@, wanted, k + 1, 6);
                assert(wanted.subrange(0, 6) =~= wanted);
            }
            return false;
        }
        assert(i == first_index(rest@, id));
        rest.swap_remove(i);
        k = k + 1;
    }
    assert(wanted.subrange(0, 6) =~= wanted);
    true
}

/// Takes the pins that a board names for its select lines and its indicator lines out of a
/// pool of pins (`ids[k]` being the id of `pins[k]`), and turns them into outputs. Fails with
/// `PinConfigError`, before any pin is turned, when a named id is not left in the pool by its
/// turn; otherwise fails with the pin's own error when a pin cannot be turned into an output.
pub fn split_pins<P: TryIntoOutputPin>(pins: Vec<P>, ids: Vec<usize>, board: &Board) -> (r: Result<
    BoardPins<P::Pin>,
    Error,
>)
    requires
        pins@.len() == ids@.len(),
    ensures
        take_ids(ids@, wanted_ids(board)) is None ==> r == Err::<BoardPins<P::Pin>, Error>(
            Error::PinConfigError,
        ),
        r is Ok ==> take_ids(ids@, wanted_ids(board)) is Some,
{
    if !ids_available(&ids, board) {
        return Err(Error::PinConfigError);
    }
    let ghost ids0 = ids@;
    let mut pins = pins;
    let mut pool = ids;
    let ghost wanted = wanted_ids(board);
    assert(wanted.subrange(0, 0) =~= Seq::<usize>::empty());
    let mut taken: Vec<P::Pin> = Vec::new();
    let mut k: usize = 0;
    while k < 6
        invariant
            k <= 6,
            pins@.len() == pool@.len(),
            taken@.len() == k,
            wanted == wanted_ids(board),
            wanted.len() == 6,
            take_ids(ids0, wanted.subrange(0, k as int)) == Some(pool@),
            take_ids(ids0, wanted) is Some,
            ids0 == ids@,
        decreases 6 - k,
    {
        let id = if k < 4 {
            board.sel_pins[k] as usize
        } else {
            board.led_ind_pins[k - 4] as usize
        };
        assert(id == wanted[k as int]);
        let ghost before = pool@;
        assert(wanted.subrange(0, k + 1).drop_last() =~= wanted.subrange(0, k as int));
        assert(wanted.subrange(0, k + 1).last() == id);
        proof {
            lemma_first_index(before, id);
        }
        match take_pin(&mut pins, &mut pool, id) {
            Ok(pin) => {
                taken.push(pin);
            },
            Err(e) => {
                return Err(e);
            },
        }
        k = k + 1;
    }
    let leds = taken.split_off(4);
    Ok(BoardPins { sel_pins: array_from_vec(taken), led_ind_pins: array_from_vec(leds) })
}

} // verus!
