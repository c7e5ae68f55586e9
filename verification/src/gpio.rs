//! Typestate GPIO pin driver.
//!
//! The function-select, set, clear and level registers of the GPIO block are
//! modelled by [`GpioBank`]: the six function-select words are volatile
//! cells, and the pin levels are a 64-bit map with one bit per pin. A
//! [`Gpio`] value carries its mode in its type: mode changes consume the pin
//! and return a pin of the new type, so driving a pin in the wrong mode is a
//! compile-time error, not a runtime check.

use vstd::prelude::*;
use crate::vol::{vol_u32, vol_new_u32, vol_read_u32, vol_write_u32};
use crate::{MAX_PIN, valid_pin};
use core::marker::PhantomData;

verus! {

/// An alternative GPIO function, selected by a 3-bit code in one of the
/// function-select registers.
pub enum Function {
    Input,
    Output,
    Alt0,
    Alt1,
    Alt2,
    Alt3,
    Alt4,
    Alt5,
}

impl Function {
    /// The 3-bit function-select code of this function.
    pub open spec fn spec_code(self) -> u32 {
        match self {
            Function::Input => 0b000,
            Function::Output => 0b001,
            Function::Alt0 => 0b100,
            Function::Alt1 => 0b101,
            Function::Alt2 => 0b110,
            Function::Alt3 => 0b111,
            Function::Alt4 => 0b011,
            Function::Alt5 => 0b010,
        }
    }

    /// Returns the 3-bit function-select code of this function.
    pub fn code(&self) -> (r: u32)
        ensures
            r == self.spec_code(),
            r <= 7,
    {
        match self {
            Function::Input => 0b000,
            Function::Output => 0b001,
            Function::Alt0 => 0b100,
            Function::Alt1 => 0b101,
            Function::Alt2 => 0b110,
            Function::Alt3 => 0b111,
            Function::Alt4 => 0b011,
            Function::Alt5 => 0b010,
        }
    }
}

/// The 3-bit field of `w` that belongs to the pin in slot `slot` (0..10) of
/// a function-select word.
pub open spec fn fsel_field(w: u32, slot: u32) -> u32 {
    (w >> (3 * slot)) & 7
}

/// The function-select word `w` with the field of slot `slot` replaced by
/// `code` and every other field kept.
pub open spec fn fsel_update(w: u32, slot: u32, code: u32) -> u32 {
    (w & !(7u32 << (3 * slot))) | (code << (3 * slot))
}

/// The field of one other pin in a written function-select word is kept.
proof fn lemma_fsel_field_other(w: u32, slot: u32, code: u32, other: u32)
    requires
        slot < 10,
        code <= 7,
        other < 10,
        other != slot,
    ensures
        fsel_field(fsel_update(w, slot, code), other) == fsel_field(w, other),
{
    assert(((w & !(7u32 << (3 * slot))) | (code << (3 * slot))) >> (3 * other) & 7 == (w >> (3
        * other)) & 7) by (bit_vector)
        requires
            slot < 10,
            code <= 7,
            other < 10,
            other != slot,
    ;
}

/// Law: writing one pin's 3-bit function-select field never alters the
/// fields of the other nine pins sharing the word, and afterwards the
/// written field holds exactly `code`.
pub proof fn lemma_fsel_field_isolation(w: u32, slot: u32, code: u32)
    requires
        slot < 10,
        code <= 7,
    ensures
        fsel_field(fsel_update(w, slot, code), slot) == code,
        forall|other: u32|
            other < 10 && other != slot ==> fsel_field(fsel_update(w, slot, code), other)
                == fsel_field(w, other),
{
    assert(((w & !(7u32 << (3 * slot))) | (code << (3 * slot))) >> (3 * slot) & 7 == code)
        by (bit_vector)
        requires
            slot < 10,
            code <= 7,
    ;
    assert forall|other: u32| other < 10 && other != slot implies fsel_field(
        fsel_update(w, slot, code),
        other,
    ) == fsel_field(w, other) by {
        lemma_fsel_field_other(w, slot, code, other);
    }
}

/// The modelled GPIO register block: six function-select words held in
/// volatile cells, and the level of each of the 54 pins as one bit of a
/// 64-bit word. The set and clear registers are write-only with
/// write-1-to-set semantics, so only their effect on the levels is state.
pub struct GpioBank {
    fsel0: volatile::Volatile<u32>,
    fsel1: volatile::Volatile<u32>,
    fsel2: volatile::Volatile<u32>,
    fsel3: volatile::Volatile<u32>,
    fsel4: volatile::Volatile<u32>,
    fsel5: volatile::Volatile<u32>,
    lev: u64,
}

impl GpioBank {
    /// The function-select word with index `i` (0..6).
    pub closed spec fn fsel_word(self, i: int) -> u32 {
        if i == 0 {
            vol_u32(self.fsel0)
        } else if i == 1 {
            vol_u32(self.fsel1)
        } else if i == 2 {
            vol_u32(self.fsel2)
        } else if i == 3 {
            vol_u32(self.fsel3)
        } else if i == 4 {
            vol_u32(self.fsel4)
        } else {
            vol_u32(self.fsel5)
        }
    }

    /// The 3-bit function-select field of pin `pin`.
    pub open spec fn pin_function(self, pin: u8) -> u32 {
        fsel_field(self.fsel_word(pin as int / 10), (pin % 10) as u32)
    }

    /// The level of pin `pin`: true is high.
    pub open spec fn pin_level(self, pin: u8) -> bool {
        self.spec_levels() & (1u64 << (pin as u64)) != 0
    }

    /// The level map: bit `n` is the level of pin `n`.
    pub closed spec fn spec_levels(self) -> u64 {
        self.lev
    }

    /// Returns the register block in its reset state: every pin an input
    /// (function code 0) and every level low.
    pub fn new() -> (r: GpioBank)
        ensures
            forall|i: int| 0 <= i < 6 ==> r.fsel_word(i) == 0u32,
            r.spec_levels() == 0u64,
    {
        GpioBank {
            fsel0: vol_new_u32(0),
            fsel1: vol_new_u32(0),
            fsel2: vol_new_u32(0),
            fsel3: vol_new_u32(0),
            fsel4: vol_new_u32(0),
            fsel5: vol_new_u32(0),
            lev: 0,
        }
    }

    /// Returns the level map, as a read of the two level registers: bit
    /// `n` is the level of pin `n`.
    pub fn levels(&self) -> (r: u64)
        ensures
            r == self.spec_levels(),
    {
        self.lev
    }

    /// Returns pin `pin`'s 3-bit function-select field, as a read of its
    /// function-select register.
    pub fn function_of(&self, pin: u8) -> (r: u32)
        requires
            valid_pin(pin),
        ensures
            r == self.pin_function(pin),
    {
        let w = self.read_fsel((pin / 10) as usize);
        (w >> (3 * ((pin % 10) as u32))) & 7
    }

    /// Reads the function-select word with index `i`.
    fn read_fsel(&self, i: usize) -> (r: u32)
        requires
            i < 6,
        ensures
            r == self.fsel_word(i as int),
    {
        if i == 0 {
            vol_read_u32(&self.fsel0)
        } else if i == 1 {
            vol_read_u32(&self.fsel1)
        } else if i == 2 {
            vol_read_u32(&self.fsel2)
        } else if i == 3 {
            vol_read_u32(&self.fsel3)
        } else if i == 4 {
            vol_read_u32(&self.fsel4)
        } else {
            vol_read_u32(&self.fsel5)
        }
    }

    /// Writes the function-select word with index `i`, leaving the other
    /// five words and the levels as they were.
    fn write_fsel(&mut self, i: usize, w: u32)
        requires
            i < 6,
        ensures
            final(self).fsel_word(i as int) == w,
            forall|j: int| 0 <= j < 6 && j != i ==> final(self).fsel_word(j)
                == old(self).fsel_word(j),
            final(self).spec_levels() == old(self).spec_levels(),
    {
        if i == 0 {
            vol_write_u32(&mut self.fsel0, w);
        } else if i == 1 {
            vol_write_u32(&mut self.fsel1, w);
        } else if i == 2 {
            vol_write_u32(&mut self.fsel2, w);
        } else if i == 3 {
            vol_write_u32(&mut self.fsel3, w);
        } else if i == 4 {
            vol_write_u32(&mut self.fsel4, w);
        } else {
            vol_write_u32(&mut self.fsel5, w);
        }
    }

    /// Drives pin `pin` from outside, as a signal arriving at an input pin
    /// would: only that pin's level changes.
    pub fn drive(&mut self, pin: u8, high: bool)
        requires
            valid_pin(pin),
        ensures
            final(self).spec_levels() == if high {
                old(self).spec_levels() | (1u64 << (pin as u64))
            } else {
                old(self).spec_levels() & !(1u64 << (pin as u64))
            },
            forall|i: int| 0 <= i < 6 ==> final(self).fsel_word(i) == old(self).fsel_word(i),
    {
        if high {
            self.lev = self.lev | (1u64 << (pin as u64));
        } else {
            self.lev = self.lev & !(1u64 << (pin as u64));
        }
    }
}

/// Marks a pin whose mode has not been selected yet.
pub struct Uninitialized;

/// Marks a pin configured as an input.
pub struct Input;

/// Marks a pin configured as an output.
pub struct Output;

/// Marks a pin routed to an alternative function.
pub struct Alt;

/// A GPIO pin in the mode named by `State`. A `Gpio` starts in the
/// `Uninitialized` state and must be moved into `Input`, `Output` or `Alt`
/// through `into_input`, `into_output` or `into_alt` before it can be used;
/// the move consumes the old value, so a stale mode cannot be driven.
pub struct Gpio<State> {
    pin: u8,
    state: PhantomData<State>,
}

impl<State> Gpio<State> {
    /// The number of the pin this value owns.
    pub closed spec fn spec_pin(self) -> u8 {
        self.pin
    }

    /// A pin value is well formed when its number names a physical pin.
    pub open spec fn wf(self) -> bool {
        valid_pin(self.spec_pin())
    }

    /// Returns the number of the pin this value owns.
    pub fn pin(&self) -> (r: u8)
        ensures
            r == self.spec_pin(),
    {
        self.pin
    }

    /// Moves `self` into state `S`, consuming `self`. Kept private: modes
    /// may only change through the register writes of the public methods.
    fn transition<S>(self) -> (r: Gpio<S>)
        ensures
            r.spec_pin() == self.spec_pin(),
    {
        Gpio { pin: self.pin, state: PhantomData }
    }
}

impl Gpio<Uninitialized> {
    /// Returns a new pin value for pin number `pin`. A number above
    /// `MAX_PIN` names no pin, and the board treats it as a fatal
    /// configuration mistake, so it is excluded here.
    pub fn new(pin: u8) -> (r: Gpio<Uninitialized>)
        requires
            valid_pin(pin),
        ensures
            r.spec_pin() == pin,
            r.wf(),
    {
        Gpio { pin, state: PhantomData }
    }

    /// Returns a new pin value for pin number `pin`, or `None` when the
    /// number names no physical pin.
    pub fn try_new(pin: u8) -> (r: Option<Gpio<Uninitialized>>)
        ensures
            valid_pin(pin) <==> r is Some,
            r matches Some(g) ==> g.spec_pin() == pin && g.wf(),
    {
        if pin > MAX_PIN {
            None
        } else {
            Some(Gpio::new(pin))
        }
    }

    /// Selects the alternative function `function` for this pin by a
    /// read-modify-write of its function-select word: the pin's own 3-bit
    /// field takes the function's code and the fields of the other nine
    /// pins in the word are preserved, as are the other words and the
    /// levels.
    pub fn into_alt(self, function: Function, bank: &mut GpioBank) -> (r: Gpio<Alt>)
        requires
            self.wf(),
        ensures
            r.spec_pin() == self.spec_pin(),
            r.wf(),
            final(bank).fsel_word(self.spec_pin() as int / 10) == fsel_update(
                old(bank).fsel_word(self.spec_pin() as int / 10),
                (self.spec_pin() % 10) as u32,
                function.spec_code(),
            ),
            forall|j: int| 0 <= j < 6 && j != self.spec_pin() as int / 10
                ==> final(bank).fsel_word(j) == old(bank).fsel_word(j),
            final(bank).pin_function(self.spec_pin()) == function.spec_code(),
            forall|p: u8| valid_pin(p) && p != self.spec_pin()
                ==> final(bank).pin_function(p) == old(bank).pin_function(p),
            final(bank).spec_levels() == old(bank).spec_levels(),
    {
        let reg = (self.pin / 10) as usize;
        let offset = 3 * ((self.pin % 10) as u32);
        let code = function.code();
        let mut val = bank.read_fsel(reg);
        val = val & !(7u32 << offset);
        val = val | (code << offset);
        bank.write_fsel(reg, val);
        proof {
            lemma_fsel_field_isolation(
                old(bank).fsel_word(self.pin as int / 10),
                (self.pin % 10) as u32,
                function.spec_code(),
            );
            assert forall|p: u8| valid_pin(p) && p != self.pin implies bank.pin_function(p)
                == old(bank).pin_function(p) by {
                if p as int / 10 == self.pin as int / 10 {
                    assert((p % 10) as u32 != (self.pin % 10) as u32);
                }
            }
        }
        self.transition()
    }

    /// Configures this pin as an output: its function-select field takes
    /// the output code, everything else is preserved.
    pub fn into_output(self, bank: &mut GpioBank) -> (r: Gpio<Output>)
        requires
            self.wf(),
        ensures
            r.spec_pin() == self.spec_pin(),
            r.wf(),
            final(bank).pin_function(self.spec_pin()) == Function::Output.spec_code(),
            forall|p: u8| valid_pin(p) && p != self.spec_pin()
                ==> final(bank).pin_function(p) == old(bank).pin_function(p),
            final(bank).spec_levels() == old(bank).spec_levels(),
    {
        self.into_alt(Function::Output, bank).transition()
    }

    /// Configures this pin as an input: its function-select field takes
    /// the input code, everything else is preserved.
    pub fn into_input(self, bank: &mut GpioBank) -> (r: Gpio<Input>)
        requires
            self.wf(),
        ensures
            r.spec_pin() == self.spec_pin(),
            r.wf(),
            final(bank).pin_function(self.spec_pin()) == Function::Input.spec_code(),
            forall|p: u8| valid_pin(p) && p != self.spec_pin()
                ==> final(bank).pin_function(p) == old(bank).pin_function(p),
            final(bank).spec_levels() == old(bank).spec_levels(),
    {
        self.into_alt(Function::Input, bank).transition()
    }
}

/// The one-bit mask an output operation writes: bit `pin % 32` of the set
/// or clear register with index `pin / 32`.
pub open spec fn output_mask(pin: u8) -> u32 {
    1u32 << ((pin % 32) as u32)
}

/// Law: the word written to a set or clear register for pin `pin` carries
/// exactly one bit, bit `pin % 32`, and under write-1-to-set semantics it
/// changes at most pin `pin`'s level: every other pin keeps its level.
pub proof fn lemma_output_touches_one_pin(lev: u64, pin: u8)
    requires
        valid_pin(pin),
    ensures
        forall|b: u32| b < 32 && b != (pin % 32) as u32 ==> output_mask(pin) & #[trigger] (1u32
            << b) == 0,
        output_mask(pin) & (1u32 << ((pin % 32) as u32)) == output_mask(pin),
        (lev | (1u64 << (pin as u64))) & (1u64 << (pin as u64)) != 0,
        (lev & !(1u64 << (pin as u64))) & (1u64 << (pin as u64)) == 0,
        forall|b: u64| b < 64 && b != pin as u64 ==> (lev | (1u64 << (pin as u64))) & #[trigger] (
        1u64 << b) == lev & (1u64 << b),
        forall|b: u64| b < 64 && b != pin as u64 ==> (lev & !(1u64 << (pin as u64))) & #[trigger] (
        1u64 << b) == lev & (1u64 << b),
{
    let p32 = (pin % 32) as u32;
    let p64 = pin as u64;
    assert(forall|b: u32| b < 32 && b != p32 ==> (1u32 << p32) & #[trigger] (1u32 << b) == 0)
        by (bit_vector)
        requires
            p32 < 32,
    ;
    assert((1u32 << p32) & (1u32 << p32) == (1u32 << p32)) by (bit_vector);
    assert((lev | (1u64 << p64)) & (1u64 << p64) != 0) by (bit_vector)
        requires
            p64 <= 53,
    ;
    assert((lev & !(1u64 << p64)) & (1u64 << p64) == 0) by (bit_vector)
        requires
            p64 <= 53,
    ;
    assert(forall|b: u64| b < 64 && b != p64 ==> (lev | (1u64 << p64)) & #[trigger] (1u64 << b)
        == lev & (1u64 << b)) by (bit_vector)
        requires
            p64 <= 53,
    ;
    assert(forall|b: u64| b < 64 && b != p64 ==> (lev & !(1u64 << p64)) & #[trigger] (1u64 << b)
        == lev & (1u64 << b)) by (bit_vector)
        requires
            p64 <= 53,
    ;
}

impl Gpio<Output> {
    /// Sets (turns on) the pin by writing the pin's one-bit mask to its set
    /// register. Write-1-to-set semantics make the zero bits a no-op, so
    /// only this pin's level changes and no read-modify-write is needed.
    pub fn set(&mut self, bank: &mut GpioBank)
        requires
            old(self).wf(),
        ensures
            *final(self) == *old(self),
            final(bank).spec_levels() == old(bank).spec_levels() | (1u64 << (old(
                self,
            ).spec_pin() as u64)),
            forall|i: int| 0 <= i < 6 ==> final(bank).fsel_word(i) == old(bank).fsel_word(i),
    {
        let reg64: u64 = (self.pin / 32) as u64;
        let off: u64 = (self.pin % 32) as u64;
        let ghost p64 = self.pin as u64;
        let wide: u64 = (1u64 << off) << (32 * reg64);
        proof {
            assert(off == p64 % 32 && reg64 == p64 / 32);
            assert((1u64 << (p64 % 32)) << (32 * (p64 / 32)) == 1u64 << p64) by (bit_vector)
                requires
                    p64 <= 53,
            ;
        }
        bank.lev = bank.lev | wide;
    }

    /// Clears (turns off) the pin by writing the pin's one-bit mask to its
    /// clear register; only this pin's level changes.
    pub fn clear(&mut self, bank: &mut GpioBank)
        requires
            old(self).wf(),
        ensures
            *final(self) == *old(self),
            final(bank).spec_levels() == old(bank).spec_levels() & !(1u64 << (old(
                self,
            ).spec_pin() as u64)),
            forall|i: int| 0 <= i < 6 ==> final(bank).fsel_word(i) == old(bank).fsel_word(i),
    {
        let reg64: u64 = (self.pin / 32) as u64;
        let off: u64 = (self.pin % 32) as u64;
        let ghost p64 = self.pin as u64;
        let wide: u64 = (1u64 << off) << (32 * reg64);
        proof {
            assert(off == p64 % 32 && reg64 == p64 / 32);
            assert((1u64 << (p64 % 32)) << (32 * (p64 / 32)) == 1u64 << p64) by (bit_vector)
                requires
                    p64 <= 53,
            ;
        }
        bank.lev = bank.lev & !wide;
    }
}

impl Gpio<Input> {
    /// Reads the pin's value from the level register: true when the level
    /// is high, false when it is low.
    pub fn level(&mut self, bank: &GpioBank) -> (r: bool)
        requires
            old(self).wf(),
        ensures
            *final(self) == *old(self),
            r == bank.pin_level(old(self).spec_pin()),
    {
        let reg64: u64 = (self.pin / 32) as u64;
        let off: u64 = (self.pin % 32) as u64;
        let word: u64 = (bank.lev >> (32 * reg64)) & 0xFFFF_FFFF;
        let ghost p64 = self.pin as u64;
        let ghost lv = bank.lev;
        let ret = word & (1u64 << off) > 0;
        proof {
            assert(off == p64 % 32 && reg64 == p64 / 32);
            assert((((lv >> (32 * (p64 / 32))) & 0xFFFF_FFFF) & (1u64 << (p64 % 32)) > 0) == (lv
                & (1u64 << p64) != 0)) by (bit_vector)
                requires
                    p64 <= 53,
            ;
        }
        ret
    }
}

/// The function-select effect of one lazily configured output pin: when the
/// pin was already configured nothing moves; on first use the pin's field
/// takes the output code and every other pin's field is kept.
pub open spec fn output_ready(
    old_bank: GpioBank,
    new_bank: GpioBank,
    pin: u8,
    was_init: bool,
) -> bool {
    if was_init {
        forall|p: u8| valid_pin(p) ==> new_bank.pin_function(p) == old_bank.pin_function(p)
    } else {
        &&& new_bank.pin_function(pin) == Function::Output.spec_code()
        &&& forall|p: u8|
            valid_pin(p) && p != pin ==> new_bank.pin_function(p) == old_bank.pin_function(p)
    }
}

/// A lazily initialized output pin: the first drive configures the pin as
/// an output, later drives reuse the configured pin.
pub struct PinOut {
    pin: u8,
    inner: Option<Gpio<Output>>,
}

impl PinOut {
    /// The number of the pin this value drives.
    pub closed spec fn spec_pin(self) -> u8 {
        self.pin
    }

    /// True once the pin has been configured as an output.
    pub closed spec fn initialized(self) -> bool {
        self.inner is Some
    }

    /// The pin number names a physical pin, and the configured pin, once
    /// there, is that pin.
    pub open spec fn wf(self) -> bool {
        &&& valid_pin(self.spec_pin())
        &&& self.spec_inner_pin()
    }

    /// The configured pin, once there, carries this value's pin number.
    pub closed spec fn spec_inner_pin(self) -> bool {
        self.inner matches Some(g) ==> g.spec_pin() == self.pin
    }

    /// Returns a new, not yet configured output pin for pin number `pin`.
    /// A number above `MAX_PIN` would make the first drive a fatal
    /// configuration mistake, so it is excluded here.
    pub fn new(pin: u8) -> (r: PinOut)
        requires
            valid_pin(pin),
        ensures
            r.wf(),
            r.spec_pin() == pin,
            !r.initialized(),
    {
        PinOut { pin, inner: None }
    }

    /// Configures the pin as an output if that has not happened yet;
    /// configuring twice changes nothing.
    pub fn initialize(&mut self, bank: &mut GpioBank)
        requires
            old(self).wf(),
        ensures
            final(self).wf(),
            final(self).initialized(),
            final(self).spec_pin() == old(self).spec_pin(),
            output_ready(*old(bank), *final(bank), old(self).spec_pin(), old(self).initialized()),
            final(bank).spec_levels() == old(bank).spec_levels(),
            old(self).initialized() ==> *final(self) == *old(self) && *final(bank) == *old(bank),
    {
        if self.inner.is_none() {
            self.inner = Some(Gpio::new(self.pin).into_output(bank));
        }
    }

    /// Turns the pin on, configuring it as an output on first use: only
    /// this pin's level and, on first use, this pin's function change.
    pub fn on(&mut self, bank: &mut GpioBank)
        requires
            old(self).wf(),
        ensures
            final(self).wf(),
            final(self).initialized(),
            final(self).spec_pin() == old(self).spec_pin(),
            output_ready(*old(bank), *final(bank), old(self).spec_pin(), old(self).initialized()),
            final(bank).spec_levels() == old(bank).spec_levels() | (1u64 << (old(
                self,
            ).spec_pin() as u64)),
    {
        self.initialize(bank);
        match &mut self.inner {
            Some(g) => g.set(bank),
            None => vstd::pervasive::unreached(),
        }
    }

    /// Turns the pin off, configuring it as an output on first use: only
    /// this pin's level and, on first use, this pin's function change.
    pub fn off(&mut self, bank: &mut GpioBank)
        requires
            old(self).wf(),
        ensures
            final(self).wf(),
            final(self).initialized(),
            final(self).spec_pin() == old(self).spec_pin(),
            output_ready(*old(bank), *final(bank), old(self).spec_pin(), old(self).initialized()),
            final(bank).spec_levels() == old(bank).spec_levels() & !(1u64 << (old(
                self,
            ).spec_pin() as u64)),
    {
        self.initialize(bank);
        match &mut self.inner {
            Some(g) => g.clear(bank),
            None => vstd::pervasive::unreached(),
        }
    }
}

} // verus!
