//! The boot orchestrator.
//!
//! The bootloader repeatedly tries to receive a firmware image over the
//! serial line into a reserved destination window, signals each outcome on
//! the status LED, and on success hands control to the loaded image. The
//! window sits strictly between the image's load address and the
//! bootloader's own start, and an image reported larger than the window is
//! rejected before a single byte of it is kept, so the transfer can never
//! overwrite the bootloader. Failures only drive another attempt: the
//! orchestrator retries forever.

use vstd::prelude::*;
use crate::gpio::{GpioBank, PinOut, output_ready};
use crate::mutex::Mutex;
use crate::timer::{Timer, spin_sleep, READ_SLACK, SLEEP_SLACK};
use crate::valid_pin;

verus! {

/// Start address the loaded image is linked for.
pub const BINARY_START_ADDR: usize = 0x80000;

/// Start address of the bootloader's own code and data.
pub const BOOTLOADER_START_ADDR: usize = 0x4000000;

/// Size of the destination window: the free space between the image's load
/// address and the bootloader's start.
pub const MAX_BINARY_SIZE: usize = BOOTLOADER_START_ADDR - BINARY_START_ADDR;

/// Blinks of the readiness signal shown when the bootloader comes up.
pub const READY_BLINKS: u8 = 5;

/// Milliseconds per half-blink of the readiness signal.
pub const READY_BLINK_MILLIS: u64 = 450;

/// Blinks of the success signal shown before the jump.
pub const SUCCESS_BLINKS: u8 = 2;

/// Blinks of the failure signal shown before another attempt.
pub const FAILURE_BLINKS: u8 = 10;

/// Milliseconds per half-blink of the success and failure signals.
pub const OUTCOME_BLINK_MILLIS: u64 = 100;

/// Microseconds of pause after either signal, letting an observer see it
/// and the line settle.
pub const POST_SIGNAL_PAUSE_MICROS: u64 = 2000000;

/// Why a received image was not accepted into the window.
#[derive(PartialEq, Eq, Structural, Debug)]
pub enum BootError {
    /// The reported image size exceeds the destination window.
    ImageTooLarge,
}

/// What one receive attempt over the transfer protocol came to.
pub enum ReceiveOutcome {
    /// The transfer completed and delivered these bytes.
    Received(Vec<u8>),
    /// The transfer timed out or failed in the protocol.
    Failed,
}

/// What the orchestrator does after signalling one outcome.
#[derive(PartialEq, Eq, Structural, Debug)]
pub enum BootAction {
    /// Branch to the start of the destination window; control never
    /// returns.
    JumpToLoaded,
    /// Go back to waiting for another transfer.
    RetrySignal,
}

/// One signalled boot round: the blink count shown and what follows.
pub struct BootStep {
    /// How many times the status LED blinked.
    pub blinks: u8,
    /// The terminal decision of this round.
    pub action: BootAction,
}

/// One boot attempt's state: the destination window the image is received
/// into. It is re-created for every retry; nothing persists between rounds.
pub struct BootSession {
    window: Vec<u8>,
}

impl BootSession {
    /// The bytes of the destination window.
    pub closed spec fn spec_window(self) -> Seq<u8> {
        self.window@
    }

    /// Returns a session whose window holds `window_size` zeroed bytes.
    pub fn new(window_size: usize) -> (r: BootSession)
        ensures
            r.spec_window().len() == window_size,
            forall|i: int| 0 <= i < window_size ==> r.spec_window()[i] == 0u8,
    {
        BootSession { window: vec![0u8; window_size] }
    }

    /// Returns the destination window.
    pub fn window(&self) -> (r: &Vec<u8>)
        ensures
            r@ == self.spec_window(),
    {
        &self.window
    }

    /// Returns the size of the destination window.
    pub fn window_size(&self) -> (r: usize)
        ensures
            r == self.spec_window().len(),
    {
        self.window.len()
    }

    /// Accepts a received image into the window: the image's bytes replace
    /// the front of the window and the rest of the window is kept. An image
    /// larger than the window is rejected whole, so no byte beyond the
    /// window is ever written.
    pub fn deposit(&mut self, data: &[u8]) -> (r: Result<usize, BootError>)
        ensures
            data@.len() <= old(self).spec_window().len() ==> r == Ok::<usize, BootError>(
                data@.len() as usize,
            ) && final(self).spec_window() == data@ + old(self).spec_window().skip(
                data@.len() as int,
            ),
            data@.len() > old(self).spec_window().len() ==> r == Err::<usize, BootError>(
                BootError::ImageTooLarge,
            ) && final(self).spec_window() == old(self).spec_window(),
    {
        if data.len() > self.window.len() {
            return Err(BootError::ImageTooLarge);
        }
        let mut i: usize = 0;
        while i < data.len()
            invariant
                i <= data@.len(),
                data@.len() <= self.spec_window().len(),
                self.spec_window().len() == old(self).spec_window().len(),
                self.spec_window() == data@.take(i as int) + old(self).spec_window().skip(i as int),
            decreases data@.len() - i,
        {
            self.window[i] = data[i];
            proof {
                assert(self.spec_window() =~= data@.take(i as int + 1) + old(
                    self,
                ).spec_window().skip(i as int + 1));
            }
            i = i + 1;
        }
        proof {
            assert(data@.take(data@.len() as int) =~= data@);
        }
        Ok(data.len())
    }
}

/// Locks the status LED and blinks it `num` times, `milli` milliseconds per
/// half-blink, ending with the LED off and the lock released. The first
/// blink configures the pin as an output if nothing has yet; no other pin's
/// level or function changes, and at least `num * 2 * milli` milliseconds
/// pass.
pub fn flash_pin(led: &mut Mutex<PinOut>, bank: &mut GpioBank, timer: &mut Timer, num: u8, milli:
    u64)
    requires
        old(led).wf(),
        !old(led).is_locked(),
        old(led).spec_inner() matches Some(p) && p.wf(),
        milli * 1000 <= u64::MAX,
        old(timer).spec_micros() + num * 2 * (milli * 1000 + SLEEP_SLACK + READ_SLACK) <= u64::MAX,
    ensures
        final(led).wf(),
        !final(led).is_locked(),
        final(led).spec_inner() matches Some(p) && p.wf() && p.spec_pin() == old(
            led,
        ).spec_inner()->Some_0.spec_pin(),
        final(timer).spec_micros() >= old(timer).spec_micros() + num * 2 * (milli * 1000),
        final(timer).spec_micros() <= old(timer).spec_micros() + num * 2 * (milli * 1000
            + SLEEP_SLACK + READ_SLACK),
        num == 0 ==> *final(bank) == *old(bank),
        num > 0 ==> output_ready(
            *old(bank),
            *final(bank),
            old(led).spec_inner()->Some_0.spec_pin(),
            old(led).spec_inner()->Some_0.initialized(),
        ),
        num > 0 ==> final(bank).spec_levels() == old(bank).spec_levels() & !(1u64 << (old(
            led,
        ).spec_inner()->Some_0.spec_pin() as u64)),
    {
        let ghost m_start = timer.spec_micros();
        let ghost l0 = bank.spec_levels();
        let ghost pin0 = old(led).spec_inner()->Some_0.spec_pin();
        let ghost was_init = old(led).spec_inner()->Some_0.initialized();
        let ghost slot: int = 2 * (milli * 1000 + SLEEP_SLACK + READ_SLACK);
        let d: u64 = milli * 1000;
        proof {
            assert(num * 2 * (milli * 1000 + SLEEP_SLACK + READ_SLACK) == num * slot)
                by (nonlinear_arith)
                requires
                    slot == 2 * (milli * 1000 + SLEEP_SLACK + READ_SLACK),
            ;
        }
        let mut g = led.lock();
        let mut i: u8 = 0;
        while i < num
            invariant
                i <= num,
                milli * 1000 == d,
                slot == 2 * (d + SLEEP_SLACK + READ_SLACK),
                m_start == old(timer).spec_micros(),
                l0 == old(bank).spec_levels(),
                m_start + num * slot <= u64::MAX,
                timer.spec_micros() >= m_start + i * (2 * d),
                timer.spec_micros() <= m_start + i * slot,
                timer.spec_micros() + (num - i) * slot <= u64::MAX,
                g.spec_value().wf(),
                g.spec_value().spec_pin() == pin0,
                valid_pin(pin0),
                i > 0 ==> g.spec_value().initialized(),
                i == 0 ==> g.spec_value().initialized() == was_init,
                i == 0 ==> *bank == *old(bank),
                i > 0 ==> bank.spec_levels() == l0 & !(1u64 << (pin0 as u64)),
                i > 0 ==> output_ready(*old(bank), *bank, pin0, was_init),
            decreases num - i,
        {
            let ghost lev_head = bank.spec_levels();
            proof {
                assert((num - i) * slot >= slot) by (nonlinear_arith)
                    requires
                        num - i >= 1,
                        slot >= 0,
                ;
            }
            let p = g.value_mut();
            p.on(bank);
            spin_sleep(timer, d);
            p.off(bank);
            spin_sleep(timer, d);
            proof {
                let b: u64 = 1u64 << (pin0 as u64);
                assert(bank.spec_levels() == (lev_head | b) & !b);
                assert((lev_head | b) & !b == lev_head & !b) by (bit_vector);
                assert(bank.spec_levels() == lev_head & !b);
                if i > 0 {
                    assert(lev_head == l0 & !b);
                    assert((l0 & !b) & !b == l0 & !b) by (bit_vector);
                } else {
                    assert(lev_head == l0);
                }
                assert(bank.spec_levels() == l0 & !b);
                assert(timer.spec_micros() >= m_start + i * (2 * d) + 2 * d);
                assert(i * (2 * d) + 2 * d == (i + 1) * (2 * d)) by (nonlinear_arith);
                assert((num - i) * slot == slot + (num - (i + 1)) * slot) by (nonlinear_arith);
                assert(i * slot + slot == (i + 1) * slot) by (nonlinear_arith);
                assert(timer.spec_micros() <= m_start + (i + 1) * slot);
                assert(timer.spec_micros() + (num - (i + 1)) * slot <= u64::MAX);
            }
            i = i + 1;
        }
        proof {
            if num > 0 {
                assert(num * (2 * d) <= num * slot) by (nonlinear_arith)
                    requires
                        slot >= 2 * d,
                        num >= 0,
                ;
            }
            assert(num * 2 * (milli * 1000) == num * (2 * d)) by (nonlinear_arith)
                requires
                    d == milli * 1000,
            ;
        }
        led.unlock(g);
    }

/// Signals the outcome of one receive attempt and decides what follows: a
/// delivered image that fits is accepted into the window and answered with
/// the success signal and the jump; a delivered image larger than the
/// window is rejected untouched, and any failure is answered with the
/// failure signal and another attempt.
pub fn boot_round(
    session: &mut BootSession,
    outcome: ReceiveOutcome,
    led: &mut Mutex<PinOut>,
    bank: &mut GpioBank,
    timer: &mut Timer,
) -> (r: BootStep)
    requires
        old(led).wf(),
        !old(led).is_locked(),
        old(led).spec_inner() matches Some(p) && p.wf(),
        old(timer).spec_micros() + FAILURE_BLINKS * 2 * (OUTCOME_BLINK_MILLIS * 1000 + SLEEP_SLACK
            + READ_SLACK) + POST_SIGNAL_PAUSE_MICROS + SLEEP_SLACK + READ_SLACK <= u64::MAX,
    ensures
        final(led).wf(),
        !final(led).is_locked(),
        final(led).spec_inner() matches Some(p) && p.wf() && p.spec_pin() == old(
            led,
        ).spec_inner()->Some_0.spec_pin(),
        outcome matches ReceiveOutcome::Received(data) ==> (if data@.len() <= old(session).spec_window().len() {
            r.action == BootAction::JumpToLoaded && r.blinks == SUCCESS_BLINKS
                && final(session).spec_window() == data@ + old(session).spec_window().skip(data@.len() as int)
        } else {
            r.action == BootAction::RetrySignal && r.blinks == FAILURE_BLINKS
                && final(session).spec_window() == old(session).spec_window()
        }),
        outcome is Failed ==> r.action == BootAction::RetrySignal && r.blinks == FAILURE_BLINKS
            && final(session).spec_window() == old(session).spec_window(),
        final(timer).spec_micros() >= old(timer).spec_micros() + r.blinks * 2 * (
        OUTCOME_BLINK_MILLIS * 1000) + POST_SIGNAL_PAUSE_MICROS,
        final(session).spec_window().len() == old(session).spec_window().len(),
{
    proof {
        assert(FAILURE_BLINKS * 2 * (OUTCOME_BLINK_MILLIS * 1000 + SLEEP_SLACK + READ_SLACK)
            == 2000440int) by (nonlinear_arith)
            requires
                FAILURE_BLINKS == 10,
                OUTCOME_BLINK_MILLIS == 100,
                SLEEP_SLACK == 17,
                READ_SLACK == 5,
        ;
        assert(SUCCESS_BLINKS * 2 * (OUTCOME_BLINK_MILLIS * 1000 + SLEEP_SLACK + READ_SLACK)
            == 400088int) by (nonlinear_arith)
            requires
                SUCCESS_BLINKS == 2,
                OUTCOME_BLINK_MILLIS == 100,
                SLEEP_SLACK == 17,
                READ_SLACK == 5,
        ;
        assert(FAILURE_BLINKS * 2 * (OUTCOME_BLINK_MILLIS * 1000) == 2000000int)
            by (nonlinear_arith)
            requires
                FAILURE_BLINKS == 10,
                OUTCOME_BLINK_MILLIS == 100,
        ;
        assert(SUCCESS_BLINKS * 2 * (OUTCOME_BLINK_MILLIS * 1000) == 400000int)
            by (nonlinear_arith)
            requires
                SUCCESS_BLINKS == 2,
                OUTCOME_BLINK_MILLIS == 100,
        ;
    }
    let accepted = match &outcome {
        ReceiveOutcome::Received(data) => {
            match session.deposit(data.as_slice()) {
                Ok(_) => true,
                Err(BootError::ImageTooLarge) => false,
            }
        },
        ReceiveOutcome::Failed => false,
    };
    if accepted {
        flash_pin(led, bank, timer, SUCCESS_BLINKS, OUTCOME_BLINK_MILLIS);
        spin_sleep(timer, POST_SIGNAL_PAUSE_MICROS);
        BootStep { blinks: SUCCESS_BLINKS, action: BootAction::JumpToLoaded }
    } else {
        flash_pin(led, bank, timer, FAILURE_BLINKS, OUTCOME_BLINK_MILLIS);
        spin_sleep(timer, POST_SIGNAL_PAUSE_MICROS);
        BootStep { blinks: FAILURE_BLINKS, action: BootAction::RetrySignal }
    }
}

} // verus!
