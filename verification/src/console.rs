//! The console: a lazily initialized wrapper around the one mini UART.
//!
//! The console starts empty; the first access constructs the serial driver,
//! gives it a one-second read timeout, and every later access reuses it.
//! Callers see the console's receive queue and transmit log, which are
//! those of the inner device once it exists and empty before that.

use vstd::prelude::*;
use crate::gpio::{GpioBank, Function};
use crate::timer::{Timer, READ_SLACK};
use crate::uart::{MiniUart, TimedOut, crlf_encode, TIMEOUT_SLACK, POLL_GRACE};
use vstd::string::StringSliceAdditionalSpecFns;

verus! {

/// The read timeout, in microseconds, the console configures on its device.
pub const CONSOLE_TIMEOUT_MICROS: u64 = 1000000;

/// The effect console initialization has on the GPIO bank: the two UART
/// pins are routed to their fifth alternative function and nothing else
/// moves.
pub open spec fn routes_uart_pins(old_bank: GpioBank, new_bank: GpioBank) -> bool {
    &&& new_bank.pin_function(14) == Function::Alt5.spec_code()
    &&& new_bank.pin_function(15) == Function::Alt5.spec_code()
    &&& forall|p: u8|
        crate::valid_pin(p) && p != 14 && p != 15 ==> new_bank.pin_function(p)
            == old_bank.pin_function(p)
    &&& new_bank.spec_levels() == old_bank.spec_levels()
}

/// A singleton giving read and write access to the serial console.
pub struct Console {
    inner: Option<MiniUart>,
}

impl Console {
    /// The inner device, once the console has been initialized.
    pub closed spec fn spec_inner(self) -> Option<MiniUart> {
        self.inner
    }

    /// True once the inner device has been constructed.
    pub open spec fn initialized(self) -> bool {
        self.spec_inner() is Some
    }

    /// The console's pending input: the inner device's receive queue, empty
    /// before initialization.
    pub open spec fn spec_rx(self) -> Seq<u8> {
        match self.spec_inner() {
            Some(u) => u.spec_rx(),
            None => Seq::empty(),
        }
    }

    /// Everything the console has transmitted, in order.
    pub open spec fn spec_tx(self) -> Seq<u8> {
        match self.spec_inner() {
            Some(u) => u.spec_tx(),
            None => Seq::empty(),
        }
    }

    /// Once the device exists it is configured and carries the console's
    /// fixed read timeout.
    pub open spec fn wf(self) -> bool {
        self.spec_inner() matches Some(u) ==> u.configured() && u.spec_timeout() == Some(
            CONSOLE_TIMEOUT_MICROS,
        )
    }

    /// Returns a new console, not yet attached to the device.
    pub fn new() -> (r: Console)
        ensures
            r.wf(),
            !r.initialized(),
    {
        Console { inner: None }
    }

    /// Initializes the console if it is not already initialized: constructs
    /// the serial driver, which routes the two UART pins, and sets the
    /// fixed read timeout. Initializing twice changes nothing.
    pub fn initialize(&mut self, bank: &mut GpioBank)
        requires
            old(self).wf(),
        ensures
            final(self).wf(),
            final(self).initialized(),
            final(self).spec_rx() == old(self).spec_rx(),
            final(self).spec_tx() == old(self).spec_tx(),
            old(self).initialized() ==> *final(self) == *old(self) && *final(bank) == *old(bank),
            !old(self).initialized() ==> routes_uart_pins(*old(bank), *final(bank)),
    {
        if self.inner.is_none() {
            let mut uart = MiniUart::new(bank);
            uart.set_read_timeout(CONSOLE_TIMEOUT_MICROS);
            self.inner = Some(uart);
        }
    }

    /// Returns the inner device, initializing it as needed.
    fn inner(&mut self, bank: &mut GpioBank) -> (r: &mut MiniUart)
        requires
            old(self).wf(),
        ensures
            r.configured(),
            r.spec_timeout() == Some(CONSOLE_TIMEOUT_MICROS),
            r.spec_rx() == old(self).spec_rx(),
            r.spec_tx() == old(self).spec_tx(),
            final(self).spec_inner() == Some(*final(r)),
            old(self).initialized() ==> *final(bank) == *old(bank),
            !old(self).initialized() ==> routes_uart_pins(*old(bank), *final(bank)),
    {
        self.initialize(bank);
        match &mut self.inner {
            Some(u) => u,
            None => vstd::pervasive::unreached(),
        }
    }

    /// Returns the log of every byte the console has transmitted, in
    /// order; empty before initialization.
    pub fn transmitted(&self) -> (r: Vec<u8>)
        ensures
            r@ == self.spec_tx(),
    {
        match &self.inner {
            Some(u) => u.transmitted().clone(),
            None => Vec::new(),
        }
    }

    /// A byte arrives on the console's line.
    pub fn deliver_byte(&mut self, byte: u8)
        requires
            old(self).initialized(),
        ensures
            final(self).spec_rx() == old(self).spec_rx().push(byte),
            final(self).spec_tx() == old(self).spec_tx(),
            final(self).wf() == old(self).wf(),
            final(self).initialized(),
    {
        match &mut self.inner {
            Some(u) => u.deliver_byte(byte),
            None => vstd::pervasive::unreached(),
        }
    }

    /// Reads one pending byte from the console's device. On real hardware
    /// this blocks until a byte arrives; the model's closed world requires
    /// the byte to be pending already.
    pub fn read_byte(&mut self, bank: &mut GpioBank) -> (r: u8)
        requires
            old(self).wf(),
            old(self).spec_rx().len() > 0,
        ensures
            final(self).wf(),
            final(self).initialized(),
            r == old(self).spec_rx()[0],
            final(self).spec_rx() == old(self).spec_rx().drop_first(),
            final(self).spec_tx() == old(self).spec_tx(),
            *final(bank) == *old(bank),
    {
        let u = self.inner(bank);
        u.read_byte()
    }

    /// Writes the byte `byte` to the console's device, initializing it on
    /// first use.
    pub fn write_byte(&mut self, byte: u8, bank: &mut GpioBank)
        requires
            old(self).wf(),
        ensures
            final(self).wf(),
            final(self).initialized(),
            final(self).spec_tx() == old(self).spec_tx().push(byte),
            final(self).spec_rx() == old(self).spec_rx(),
            old(self).initialized() ==> *final(bank) == *old(bank),
            !old(self).initialized() ==> routes_uart_pins(*old(bank), *final(bank)),
    {
        let u = self.inner(bank);
        u.write_byte(byte);
    }

    /// Reads into the front of `buf` under the console's fixed timeout:
    /// how many bytes were copied, or the timeout failure when none
    /// arrived within the window.
    pub fn read(&mut self, buf: &mut Vec<u8>, bank: &mut GpioBank, timer: &mut Timer) -> (r:
        Result<usize, TimedOut>)
        requires
            old(self).wf(),
            old(timer).spec_micros() + CONSOLE_TIMEOUT_MICROS + TIMEOUT_SLACK + READ_SLACK
                <= u64::MAX,
        ensures
            final(self).wf(),
            final(self).initialized(),
            final(self).spec_tx() == old(self).spec_tx(),
            final(buf)@.len() == old(buf)@.len(),
            r matches Ok(n) ==> n == vstd::math::min(
                old(self).spec_rx().len() as int,
                old(buf)@.len() as int,
            ),
            r matches Ok(n) ==> final(self).spec_rx() == old(self).spec_rx().skip(n as int),
            r matches Ok(n) ==> final(buf)@ == old(self).spec_rx().take(n as int) + old(
                buf,
            )@.skip(n as int),
            r is Err ==> final(self).spec_rx() == old(self).spec_rx() && *final(buf) == *old(buf),
            old(self).spec_rx().len() == 0 ==> r is Err,
            old(self).spec_rx().len() > 0 ==> r is Ok,
    {
        let u = self.inner(bank);
        proof {
            assert(CONSOLE_TIMEOUT_MICROS >= POLL_GRACE);
        }
        u.read(buf, timer)
    }

    /// Writes every byte of `buf` to the console's device.
    pub fn write(&mut self, buf: &[u8], bank: &mut GpioBank) -> (r: usize)
        requires
            old(self).wf(),
        ensures
            final(self).wf(),
            final(self).initialized(),
            r == buf@.len(),
            final(self).spec_tx() == old(self).spec_tx() + buf@,
            final(self).spec_rx() == old(self).spec_rx(),
    {
        let u = self.inner(bank);
        u.write(buf)
    }

    /// Waits until the console's transmitter is idle; the modelled
    /// transmitter already is.
    pub fn flush(&mut self, bank: &mut GpioBank)
        requires
            old(self).wf(),
        ensures
            final(self).wf(),
            final(self).initialized(),
            final(self).spec_tx() == old(self).spec_tx(),
            final(self).spec_rx() == old(self).spec_rx(),
    {
        let u = self.inner(bank);
        u.flush();
    }

    /// Writes the text `s` to the console, sending a carriage return
    /// before every line feed.
    pub fn write_str(&mut self, s: &str, bank: &mut GpioBank)
        requires
            old(self).wf(),
        ensures
            final(self).wf(),
            final(self).initialized(),
            final(self).spec_tx() == old(self).spec_tx() + crlf_encode(s.spec_bytes()),
            final(self).spec_rx() == old(self).spec_rx(),
    {
        let u = self.inner(bank);
        u.write_str(s);
    }
}

} // verus!
