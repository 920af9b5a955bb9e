use vstd::prelude::*;
use embedded_hal::blocking::delay::DelayUs;
use embedded_hal::digital::v2::OutputPin;

pub mod board;
pub mod bus;
pub mod error;
pub mod layout;
mod pins;
pub mod prelude;
pub mod strobe;
pub mod switch_matrix;
pub mod usb;
pub mod vkeyboard;

use crate::error::Error;
use crate::prelude::{RegIndex, RegValue};
use crate::switch_matrix::{register_step, AnalogBus, MatrixState, SwitchMatrix};
use crate::vkeyboard::{events_of, run_events, KeyboardState, VKeyboard};

verus! {

/// Scanning registers 0, 1, ... on readings `rd[0]`, `rd[1]`, ...: each register's key events go
/// to the keyboard before the next register is scanned, and scanning stops once a reboot is
/// asked for. Gives the matrix and keyboard states, whether the report changed, and whether the
/// scan stopped for a reboot.
pub open spec fn scan(sm: MatrixState, kb: KeyboardState, rd: Seq<Seq<u16>>) -> (
    MatrixState,
    KeyboardState,
    bool,
    bool,
)
    decreases rd.len(),
{
    if rd.len() == 0 {
        (sm, kb, false, false)
    } else {
        let (sm0, kb0, c0, stop0) = scan(sm, kb, rd.drop_last());
        if stop0 {
            (sm0, kb0, c0, stop0)
        } else {
            let (sm1, evs) = register_step(sm0, rd.len() - 1, rd.last());
            let (kb1, c1) = run_events(kb0, evs);
            (sm1, kb1, c0 || c1, kb1.reset)
        }
    }
}

/// One scan pass: every register in index order, each one's key events applied to the keyboard
/// before the next is scanned, stopping early once a reboot is asked for. Gives whether the
/// report changed, and hands the bus back. The outcome is that of `scan` on the readings that
/// the bus gave. A select line that cannot be driven aborts the pass with `PinConfigError`:
/// the registers before the failing one have been scanned, the later ones are left alone. With
/// no register the pass does nothing and succeeds.
pub fn tick<D: DelayUs<u32>, Q: OutputPin, B: AnalogBus>(
    mut bus: B,
    switches: &mut SwitchMatrix<Q>,
    vkbd: &mut VKeyboard,
    delay: &mut D,
) -> (r: Result<(bool, B), Error>)
    requires
        old(switches).wf(),
        old(vkbd).wf(),
    ensures
        final(switches).wf(),
        final(vkbd).wf(),
        r matches Ok((updated, _)) ==> exists|rd: Seq<Seq<u16>>|
            {
                &&& (#[trigger] scan(old(switches)@, old(vkbd)@, rd)).0 == final(switches)@
                &&& scan(old(switches)@, old(vkbd)@, rd).1 == final(vkbd)@
                &&& scan(old(switches)@, old(vkbd)@, rd).2 == updated
                &&& rd.len() <= old(switches)@.keys.len()
                &&& (scan(old(switches)@, old(vkbd)@, rd).3 || rd.len() == old(
                    switches,
                )@.keys.len())
            },
        r matches Err(e) ==> e == Error::PinConfigError,
        old(switches)@.keys.len() == 0 ==> (r matches Ok((updated, _)) && !updated),
        r is Err ==> exists|rd: Seq<Seq<u16>>|
            {
                &&& (#[trigger] scan(old(switches)@, old(vkbd)@, rd)).0 == final(switches)@
                &&& scan(old(switches)@, old(vkbd)@, rd).1 == final(vkbd)@
                &&& !scan(old(switches)@, old(vkbd)@, rd).3
                &&& rd.len() < old(switches)@.keys.len()
            },
{
    let n = switches.num_regs();
    let mut updated = false;
    let mut stopped = false;
    let ghost mut rd: Seq<Seq<u16>> = Seq::empty();
    let mut i: usize = 0;
    while i < n && !stopped
        invariant
            switches.wf(),
            vkbd.wf(),
            n == switches@.keys.len(),
            n == old(switches)@.keys.len(),
            n <= crate::prelude::MAX_REGS,
            i <= n,
            rd.len() == i,
            scan(old(switches)@, old(vkbd)@, rd) == (switches@, vkbd@, updated, stopped),
        decreases n - i,
    {
        let ghost sm0 = switches@;
        let reg = i as RegIndex;
        let key_events = match switches.subtick(reg, &mut bus, delay) {
            Ok(evs) => evs,
            Err(e) => {
                return Err(e);
            },
        };
        let ghost v: RegValue = choose|v: RegValue|
            (switches@, events_of(key_events)) == #[trigger] register_step(sm0, reg as int, v@);
        let now_updated = vkbd.update(key_events)?;
        updated = updated || now_updated;
        proof {
            let prev = rd;
            rd = rd.push(v@);
            assert(rd.drop_last() =~= prev);
            assert(rd.last() == v@);
            assert(scan(old(switches)@, old(vkbd)@, rd) == (switches@, vkbd@, updated, vkbd@.reset));
        }
        if vkbd.reset_requested() {
            stopped = true;
        }
        i = i + 1;
    }
    Ok((updated, bus))
}

} // verus!
