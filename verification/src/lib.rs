//! Hardware-facing runtime of a bare-metal single-board-computer firmware
//! stack: a typestate-checked GPIO pin driver, a timeout-aware serial
//! driver, the monotonic system timer, the spin lock guarding singleton
//! peripheral handles, and the bootloader's receive/validate/retry state
//! machine. Hardware registers are modelled explicitly, so every driver is
//! verified against the register semantics it relies on.

pub mod vol;
pub mod gpio;
pub mod timer;
pub mod mutex;
pub mod stack_vec;
pub mod uart;
pub mod console;
pub mod boot;
pub mod shell;

use vstd::prelude::*;

verus! {

/// Number of the highest valid GPIO pin on the board.
pub const MAX_PIN: u8 = 53;

/// True when `pin` names a physical GPIO pin.
pub open spec fn valid_pin(pin: u8) -> bool {
    pin <= MAX_PIN
}

} // verus!
