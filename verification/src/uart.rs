//! The mini UART serial driver.
//!
//! The driver owns the modelled UART device: the configuration registers as
//! volatile cells, the bytes that have arrived on the line and not yet been
//! read, the log of every byte transmitted, and a count of the bus accesses
//! made. The line-status bits are modelled directly: data-ready holds
//! exactly while an arrived byte is pending, and the transmit FIFO always
//! reports space, so a send never stalls. The receive path is the only
//! operation with a bounded wait; its deadline comes from the system timer.

use vstd::prelude::*;
use crate::vol::{vol_u32, vol_new_u32, vol_write_u32};
use crate::gpio::{Gpio, GpioBank, Function};
use crate::timer::{Timer, READ_SLACK};
use vstd::string::StringSliceAdditionalSpecFns;

verus! {

/// The 8-bit-data line-control word the driver programs.
pub const LCR_8BIT: u32 = 0b11;

/// The baud divisor the driver programs, close to 115200 baud.
pub const BAUD_DIVISOR: u32 = 270;

/// The control word that enables both the transmitter and the receiver.
pub const CNTL_TX_RX: u32 = 0b11;

/// Upper bound, in model microseconds, on how far past its configured
/// timeout `wait_for_byte` may report the failure.
pub const TIMEOUT_SLACK: u64 = 14;

/// A configured timeout at least this long always lets a pending byte win
/// over the deadline: the first poll then happens before the deadline.
pub const POLL_GRACE: u64 = 9;

/// The timed-out failure of a bounded receive wait.
#[derive(PartialEq, Eq, Structural, Debug)]
pub struct TimedOut;

/// The mini UART device.
pub struct MiniUart {
    rx: Vec<u8>,
    tx: Vec<u8>,
    timeout: Option<u64>,
    lcr: volatile::Volatile<u32>,
    cntl: volatile::Volatile<u32>,
    baud: volatile::Volatile<u32>,
    aux_enabled: bool,
    accesses: Ghost<nat>,
}

impl MiniUart {
    /// The bytes that have arrived on the line and are waiting to be read,
    /// oldest first.
    pub closed spec fn spec_rx(self) -> Seq<u8> {
        self.rx@
    }

    /// Every byte the driver has transmitted, in order.
    pub closed spec fn spec_tx(self) -> Seq<u8> {
        self.tx@
    }

    /// The configured read timeout in microseconds, if any.
    pub closed spec fn spec_timeout(self) -> Option<u64> {
        self.timeout
    }

    /// The number of bus accesses the driver has made.
    pub closed spec fn spec_accesses(self) -> nat {
        self.accesses@
    }

    /// The device is configured: the auxiliary peripheral is enabled, the
    /// data width is 8 bits, the baud divisor is set, and transmitter and
    /// receiver are on.
    pub closed spec fn configured(self) -> bool {
        &&& self.aux_enabled
        &&& vol_u32(self.lcr) == LCR_8BIT
        &&& vol_u32(self.baud) == BAUD_DIVISOR
        &&& vol_u32(self.cntl) == CNTL_TX_RX
    }

    /// The parts a read leaves alone: the transmit log, the timeout and the
    /// configuration.
    pub open spec fn same_tx_side(self, other: MiniUart) -> bool {
        &&& self.spec_tx() == other.spec_tx()
        &&& self.spec_timeout() == other.spec_timeout()
        &&& self.configured() == other.configured()
    }

    /// The parts a send leaves alone: the receive queue, the timeout and
    /// the configuration.
    pub open spec fn same_rx_side(self, other: MiniUart) -> bool {
        &&& self.spec_rx() == other.spec_rx()
        &&& self.spec_timeout() == other.spec_timeout()
        &&& self.configured() == other.configured()
    }

    /// Initializes the mini UART: enables it as an auxiliary peripheral,
    /// routes pins 14 and 15 to their fifth alternative function, sets the
    /// data width to 8 bits and the baud divisor to about 115200 baud, and
    /// turns the transmitter and receiver on. Reads never time out until
    /// `set_read_timeout` is called.
    pub fn new(bank: &mut GpioBank) -> (r: MiniUart)
        ensures
            r.configured(),
            r.spec_rx() == Seq::<u8>::empty(),
            r.spec_tx() == Seq::<u8>::empty(),
            r.spec_timeout() is None,
            final(bank).pin_function(14) == Function::Alt5.spec_code(),
            final(bank).pin_function(15) == Function::Alt5.spec_code(),
            forall|p: u8| crate::valid_pin(p) && p != 14 && p != 15 ==> final(bank).pin_function(p)
                == old(bank).pin_function(p),
            final(bank).spec_levels() == old(bank).spec_levels(),
    {
        let aux_enabled = true;
        Gpio::new(14).into_alt(Function::Alt5, bank);
        Gpio::new(15).into_alt(Function::Alt5, bank);

        let mut cntl = vol_new_u32(0);
        let mut lcr = vol_new_u32(0);
        let mut baud = vol_new_u32(0);
        vol_write_u32(&mut cntl, 0b00);
        vol_write_u32(&mut lcr, LCR_8BIT);
        vol_write_u32(&mut baud, BAUD_DIVISOR);
        vol_write_u32(&mut cntl, CNTL_TX_RX);

        MiniUart {
            rx: Vec::new(),
            tx: Vec::new(),
            timeout: None,
            lcr,
            cntl,
            baud,
            aux_enabled,
            accesses: Ghost(0),
        }
    }

    /// Sets the read timeout to `t` microseconds.
    pub fn set_read_timeout(&mut self, t: u64)
        ensures
            final(self).spec_timeout() == Some(t),
            final(self).spec_rx() == old(self).spec_rx(),
            final(self).spec_tx() == old(self).spec_tx(),
            final(self).configured() == old(self).configured(),
            final(self).spec_accesses() == old(self).spec_accesses(),
    {
        self.timeout = Some(t);
    }

    /// A byte arrives on the serial line and joins the receive queue.
    pub fn deliver_byte(&mut self, byte: u8)
        ensures
            final(self).spec_rx() == old(self).spec_rx().push(byte),
            final(self).spec_tx() == old(self).spec_tx(),
            final(self).spec_timeout() == old(self).spec_timeout(),
            final(self).configured() == old(self).configured(),
            final(self).spec_accesses() == old(self).spec_accesses(),
    {
        self.rx.push(byte);
    }

    /// One read of the line-status register, testing the data-ready bit:
    /// set exactly while an arrived byte is pending.
    fn poll_data_ready(&mut self) -> (r: bool)
        ensures
            r == (old(self).spec_rx().len() > 0),
            *final(self) == (MiniUart { accesses: Ghost(old(self).spec_accesses() + 1), ..*old(self) }),
    {
        self.accesses = Ghost(self.accesses@ + 1);
        self.rx.len() > 0
    }

    /// One read of the line-status register, testing the FIFO-space bit:
    /// the modelled transmit FIFO always has room for one more byte.
    fn poll_tx_empty(&mut self) -> (r: bool)
        ensures
            r,
            *final(self) == (MiniUart { accesses: Ghost(old(self).spec_accesses() + 1), ..*old(self) }),
    {
        self.accesses = Ghost(self.accesses@ + 1);
        true
    }

    /// One read of the line-status register, testing the transmitter-idle
    /// bit: the modelled transmitter has always finished shifting.
    fn poll_tx_idle(&mut self) -> (r: bool)
        ensures
            r,
            *final(self) == (MiniUart { accesses: Ghost(old(self).spec_accesses() + 1), ..*old(self) }),
    {
        self.accesses = Ghost(self.accesses@ + 1);
        true
    }

    /// Returns the log of every byte transmitted so far, in order.
    pub fn transmitted(&self) -> (r: &Vec<u8>)
        ensures
            r@ == self.spec_tx(),
    {
        &self.tx
    }

    /// Returns true if at least one byte is ready to be read: when it is,
    /// a following `read_byte` returns at once. Does not block.
    pub fn has_byte(&self) -> (r: bool)
        ensures
            r == (self.spec_rx().len() > 0),
    {
        self.rx.len() > 0
    }

    /// Writes `byte` after polling for FIFO space once, which the modelled
    /// FIFO always grants: two bus accesses in all, never a stall.
    pub fn write_byte(&mut self, byte: u8)
        ensures
            final(self).spec_tx() == old(self).spec_tx().push(byte),
            old(self).same_rx_side(*final(self)),
            final(self).spec_accesses() == old(self).spec_accesses() + 2,
    {
        let mut space = self.poll_tx_empty();
        while !space
            invariant
                space,
                *self == (MiniUart { accesses: Ghost(old(self).spec_accesses() + 1), ..*old(self) }),
            decreases 0int,
        {
            space = self.poll_tx_empty();
        }
        self.accesses = Ghost(self.accesses@ + 1);
        self.tx.push(byte);
    }

    /// Reads one byte. A pending byte is returned after a single
    /// data-ready poll and a single data-register read: two bus accesses,
    /// no further spinning. On an idle line the hardware would spin until
    /// a byte arrives, which the model's closed world excludes.
    pub fn read_byte(&mut self) -> (r: u8)
        requires
            old(self).spec_rx().len() > 0,
        ensures
            r == old(self).spec_rx()[0],
            final(self).spec_rx() == old(self).spec_rx().drop_first(),
            old(self).same_tx_side(*final(self)),
            final(self).spec_accesses() == old(self).spec_accesses() + 2,
    {
        let mut ready = self.poll_data_ready();
        while !ready
            invariant
                ready,
                *self == (MiniUart { accesses: Ghost(old(self).spec_accesses() + 1), ..*old(self) }),
            decreases 0int,
        {
            ready = self.poll_data_ready();
        }
        self.accesses = Ghost(self.accesses@ + 1);
        let b = self.rx.remove(0);
        proof {
            assert(self.spec_rx() =~= old(self).spec_rx().drop_first());
        }
        b
    }

    /// Returns true when the transmitter reports idle, its last bit fully
    /// shifted out; the modelled transmitter always has.
    pub fn is_idle(&self) -> (r: bool)
        ensures
            r,
    {
        true
    }

    /// Blocks until a byte is ready. Without a timeout the wait is
    /// unbounded, so the closed model requires the byte to be pending
    /// already. With a timeout `t`, the deadline is one timer read plus
    /// `t`; the wait fails no earlier than `t` and at most `TIMEOUT_SLACK`
    /// microseconds later, and a pending byte wins whenever `t` grants at
    /// least `POLL_GRACE` microseconds for the first poll.
    pub fn wait_for_byte(&mut self, timer: &mut Timer) -> (r: Result<(), TimedOut>)
        requires
            old(self).spec_timeout() is None ==> old(self).spec_rx().len() > 0,
            old(self).spec_timeout() matches Some(t) ==> old(timer).spec_micros() + t
                + TIMEOUT_SLACK + READ_SLACK <= u64::MAX,
        ensures
            old(self).same_tx_side(*final(self)),
            final(self).spec_rx() == old(self).spec_rx(),
            final(self).spec_timeout() == old(self).spec_timeout(),
            r is Ok ==> old(self).spec_rx().len() > 0,
            r is Err ==> old(self).spec_timeout() is Some,
            old(self).spec_rx().len() == 0 && old(self).spec_timeout() is Some ==> r is Err,
            old(self).spec_rx().len() > 0 && (old(self).spec_timeout() is None || old(
                self,
            ).spec_timeout()->Some_0 >= POLL_GRACE) ==> r is Ok,
            r is Err ==> final(timer).spec_micros() >= old(timer).spec_micros() + old(
                self,
            ).spec_timeout()->Some_0,
            r is Err ==> final(timer).spec_micros() <= old(timer).spec_micros() + old(
                self,
            ).spec_timeout()->Some_0 + TIMEOUT_SLACK,
            old(self).spec_timeout() is None ==> *final(timer) == *old(timer),
    {
        let has_timeout = match &self.timeout {
            None => false,
            Some(_) => true,
        };
        if !has_timeout {
            let mut ready = self.poll_data_ready();
            while !ready
                invariant
                    ready,
                    *self == (MiniUart { accesses: Ghost(old(self).spec_accesses() + 1), ..*old(self) }),
                decreases 0int,
            {
                ready = self.poll_data_ready();
            }
            return Ok(());
        }
        let t = match &self.timeout {
            Some(t) => *t,
            None => vstd::pervasive::unreached(),
        };
        let ghost m0 = timer.spec_micros();
        let start = timer.read();
        let deadline = start + t;
        loop
            invariant
                m0 == old(timer).spec_micros(),
                deadline == start + t,
                m0 < start,
                start <= m0 + READ_SLACK,
                old(self).spec_timeout() == Some(t),
                m0 + t + TIMEOUT_SLACK + READ_SLACK <= u64::MAX,
                timer.spec_micros() <= deadline + 4,
                timer.spec_micros() <= start + 4 || old(self).spec_rx().len() == 0,
                self.spec_rx() == old(self).spec_rx(),
                self.spec_tx() == old(self).spec_tx(),
                self.spec_timeout() == old(self).spec_timeout(),
                self.configured() == old(self).configured(),
            decreases deadline + 4 - timer.spec_micros(),
        {
            let now = timer.read();
            if now >= deadline {
                return Err(TimedOut);
            }
            if self.poll_data_ready() {
                return Ok(());
            }
        }
    }

    /// Writes every byte of `buf` in order through `write_byte`; the
    /// modelled FIFO always grants space, so all of `buf` is sent.
    pub fn write(&mut self, buf: &[u8]) -> (r: usize)
        ensures
            r == buf@.len(),
            final(self).spec_tx() == old(self).spec_tx() + buf@,
            old(self).same_rx_side(*final(self)),
    {
        let mut idx: usize = 0;
        while idx < buf.len()
            invariant
                idx <= buf@.len(),
                self.spec_tx() == old(self).spec_tx() + buf@.subrange(0, idx as int),
                old(self).same_rx_side(*self),
            decreases buf@.len() - idx,
        {
            self.write_byte(buf[idx]);
            proof {
                assert(self.spec_tx() =~= old(self).spec_tx() + buf@.subrange(0, idx as int + 1));
            }
            idx = idx + 1;
        }
        proof {
            assert(buf@.subrange(0, buf@.len() as int) =~= buf@);
        }
        idx
    }

    /// Blocks until the transmitter reports idle, so the last bit of what
    /// was written has fully shifted out; the modelled transmitter already
    /// has, so one status poll suffices.
    pub fn flush(&mut self)
        ensures
            final(self).spec_tx() == old(self).spec_tx(),
            final(self).spec_rx() == old(self).spec_rx(),
            final(self).spec_timeout() == old(self).spec_timeout(),
            final(self).configured() == old(self).configured(),
    {
        let mut idle = self.poll_tx_idle();
        while !idle
            invariant
                idle,
                *self == (MiniUart { accesses: Ghost(old(self).spec_accesses() + 1), ..*old(self) }),
            decreases 0int,
        {
            idle = self.poll_tx_idle();
        }
    }

    /// Reads into the front of `buf`: waits for at least one byte under the
    /// configured timeout, then drains pending bytes while room remains.
    /// Returns how many bytes were copied, or the timeout failure when no
    /// byte arrived at all within the window.
    pub fn read(&mut self, buf: &mut Vec<u8>, timer: &mut Timer) -> (r: Result<usize, TimedOut>)
        requires
            old(self).spec_timeout() is None ==> old(self).spec_rx().len() > 0,
            old(self).spec_timeout() matches Some(t) ==> old(timer).spec_micros() + t
                + TIMEOUT_SLACK + READ_SLACK <= u64::MAX,
        ensures
            old(self).same_tx_side(*final(self)),
            final(self).spec_timeout() == old(self).spec_timeout(),
            final(buf)@.len() == old(buf)@.len(),
            r matches Ok(n) ==> n == vstd::math::min(
                old(self).spec_rx().len() as int,
                old(buf)@.len() as int,
            ),
            r matches Ok(n) ==> final(self).spec_rx() == old(self).spec_rx().skip(n as int),
            r matches Ok(n) ==> final(buf)@ == old(self).spec_rx().take(n as int) + old(
                buf,
            )@.skip(n as int),
            r is Err ==> final(self).spec_rx() == old(self).spec_rx() && *final(buf) == *old(buf),
            r is Err ==> old(self).spec_timeout() is Some,
            old(self).spec_rx().len() == 0 && old(self).spec_timeout() is Some ==> r is Err,
            old(self).spec_rx().len() > 0 && (old(self).spec_timeout() is None || old(
                self,
            ).spec_timeout()->Some_0 >= POLL_GRACE) ==> r is Ok,
    {
        match self.wait_for_byte(timer) {
            Err(e) => Err(e),
            Ok(()) => {
                let ghost rx0 = self.spec_rx();
                let ghost buf0 = buf@;
                let mut idx: usize = 0;
                while self.has_byte() && idx < buf.len()
                    invariant
                        idx <= buf@.len(),
                        idx <= rx0.len(),
                        buf@.len() == buf0.len(),
                        self.spec_rx() == rx0.skip(idx as int),
                        buf@ == rx0.take(idx as int) + buf0.skip(idx as int),
                        old(self).same_tx_side(*self),
                        self.spec_timeout() == old(self).spec_timeout(),
                    decreases rx0.len() - idx,
                {
                    let b = self.read_byte();
                    buf[idx] = b;
                    proof {
                        assert(self.spec_rx() =~= rx0.skip(idx as int + 1));
                        assert(buf@ =~= rx0.take(idx as int + 1) + buf0.skip(idx as int + 1));
                    }
                    idx = idx + 1;
                }
                proof {
                    if self.spec_rx().len() == 0 {
                        assert(idx == rx0.len());
                    }
                }
                Ok(idx)
            },
        }
    }

    /// Writes the text `s`, sending a carriage return before every line
    /// feed, as `crlf_encode` states.
    pub fn write_str(&mut self, s: &str)
        ensures
            final(self).spec_tx() == old(self).spec_tx() + crlf_encode(s.spec_bytes()),
            old(self).same_rx_side(*final(self)),
    {
        let bytes = s.as_bytes();
        let mut idx: usize = 0;
        while idx < bytes.len()
            invariant
                idx <= bytes@.len(),
                bytes@ == s.spec_bytes(),
                self.spec_tx() == old(self).spec_tx() + crlf_encode(bytes@.subrange(0, idx as int)),
                old(self).same_rx_side(*self),
            decreases bytes@.len() - idx,
        {
            let c = bytes[idx];
            if c == LINE_FEED {
                self.write_byte(CARRIAGE_RETURN);
            }
            self.write_byte(c);
            proof {
                lemma_crlf_snoc(bytes@.subrange(0, idx as int), bytes@[idx as int]);
                assert(bytes@.subrange(0, idx as int).push(bytes@[idx as int]) =~= bytes@.subrange(
                    0,
                    idx as int + 1,
                ));
                assert(self.spec_tx() =~= old(self).spec_tx() + crlf_encode(
                    bytes@.subrange(0, idx as int + 1),
                ));
            }
            idx = idx + 1;
        }
        proof {
            assert(bytes@.subrange(0, bytes@.len() as int) =~= bytes@);
        }
    }
}

/// The line-feed byte.
pub const LINE_FEED: u8 = 10;

/// The carriage-return byte.
pub const CARRIAGE_RETURN: u8 = 13;

/// The byte sequence `bs` as the driver sends it as text: every line feed
/// is preceded by a carriage return.
pub open spec fn crlf_encode(bs: Seq<u8>) -> Seq<u8>
    decreases bs.len(),
{
    if bs.len() == 0 {
        Seq::empty()
    } else if bs[0] == LINE_FEED {
        seq![CARRIAGE_RETURN, LINE_FEED] + crlf_encode(bs.drop_first())
    } else {
        seq![bs[0]] + crlf_encode(bs.drop_first())
    }
}

/// Appending one byte to a text extends its encoding by that byte, with a
/// carriage return in front when the byte is a line feed.
proof fn lemma_crlf_snoc(bs: Seq<u8>, b: u8)
    ensures
        crlf_encode(bs.push(b)) == crlf_encode(bs) + (if b == LINE_FEED {
            seq![CARRIAGE_RETURN, LINE_FEED]
        } else {
            seq![b]
        }),
    decreases bs.len(),
{
    let tail = (if b == LINE_FEED {
        seq![CARRIAGE_RETURN, LINE_FEED]
    } else {
        seq![b]
    });
    if bs.len() == 0 {
        assert(bs.push(b)[0] == b);
        assert(bs.push(b).drop_first() =~= Seq::<u8>::empty());
        assert(crlf_encode(bs.push(b)) =~= crlf_encode(bs) + tail);
    } else {
        let head = (if bs[0] == LINE_FEED {
            seq![CARRIAGE_RETURN, LINE_FEED]
        } else {
            seq![bs[0]]
        });
        assert(bs.push(b)[0] == bs[0]);
        assert(bs.push(b).len() > 0);
        assert(crlf_encode(bs.push(b)) == head + crlf_encode(bs.push(b).drop_first()));
        assert(bs.push(b).drop_first() =~= bs.drop_first().push(b));
        lemma_crlf_snoc(bs.drop_first(), b);
        assert(crlf_encode(bs) == head + crlf_encode(bs.drop_first()));
        assert(head + (crlf_encode(bs.drop_first()) + tail) =~= (head + crlf_encode(
            bs.drop_first(),
        )) + tail);
        assert(crlf_encode(bs.push(b)) =~= crlf_encode(bs) + tail);
    }
}

} // verus!
