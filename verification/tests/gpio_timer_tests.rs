use pi_firmware::gpio::{Gpio, GpioBank, Function, PinOut};
use pi_firmware::timer::{Timer, spin_sleep, current_time};

#[test]
fn pin_set_and_clear_touch_only_their_pin() {
    for n in 0u8..=53 {
        let mut bank = GpioBank::new();
        let mut pin = Gpio::new(n).into_output(&mut bank);
        pin.set(&mut bank);
        assert_eq!(bank.levels(), 1u64 << n);
        pin.clear(&mut bank);
        assert_eq!(bank.levels(), 0u64);
    }
}

#[test]
fn pin_set_leaves_other_levels_alone() {
    let mut bank = GpioBank::new();
    let mut a = Gpio::new(16).into_output(&mut bank);
    let mut b = Gpio::new(47).into_output(&mut bank);
    a.set(&mut bank);
    b.set(&mut bank);
    assert_eq!(bank.levels(), (1u64 << 16) | (1u64 << 47));
    a.clear(&mut bank);
    assert_eq!(bank.levels(), 1u64 << 47);
}

#[test]
fn pin_construction_fails_above_fifty_three() {
    assert!(Gpio::try_new(53).is_some());
    for n in 54u8..=255 {
        assert!(Gpio::try_new(n).is_none());
    }
}

#[test]
fn alt_select_keeps_neighbouring_fields() {
    let mut bank = GpioBank::new();
    Gpio::new(3).into_alt(Function::Alt5, &mut bank);
    assert_eq!(bank.function_of(3), 0b010);
    // pin 7 shares pin 3's function-select word
    Gpio::new(7).into_alt(Function::Alt3, &mut bank);
    assert_eq!(bank.function_of(7), 0b111);
    assert_eq!(bank.function_of(3), 0b010);
    for n in 0u8..=53 {
        if n != 3 && n != 7 {
            assert_eq!(bank.function_of(n), 0b000);
        }
    }
}

#[test]
fn output_and_input_select_their_codes() {
    let mut bank = GpioBank::new();
    Gpio::new(16).into_output(&mut bank);
    assert_eq!(bank.function_of(16), 0b001);
    Gpio::new(4).into_input(&mut bank);
    assert_eq!(bank.function_of(4), 0b000);
}

#[test]
fn input_pin_reads_driven_level() {
    let mut bank = GpioBank::new();
    let mut pin = Gpio::new(4).into_input(&mut bank);
    assert!(!pin.level(&bank));
    bank.drive(4, true);
    assert!(pin.level(&bank));
    bank.drive(4, false);
    assert!(!pin.level(&bank));
}

#[test]
fn pin_out_drives_and_configures_lazily() {
    let mut bank = GpioBank::new();
    let mut led = PinOut::new(16);
    led.on(&mut bank);
    assert_eq!(bank.function_of(16), 0b001);
    assert_eq!(bank.levels(), 1u64 << 16);
    led.off(&mut bank);
    assert_eq!(bank.levels(), 0u64);
}

#[test]
fn timer_reads_are_monotonic() {
    let mut timer = Timer::new();
    let t1 = timer.read();
    let t2 = timer.read();
    let t3 = timer.read();
    assert!(t1 < t2);
    assert!(t2 < t3);
}

#[test]
fn timer_read_survives_low_word_wraparound() {
    let mut timer = Timer::new();
    // park the counter just below a wraparound of the low word, so the
    // high word can flip between the two reads of a single `read`
    timer.advance(0xFFFF_FFFE);
    let t1 = timer.read();
    let t2 = timer.read();
    assert!(t1 >= 0xFFFF_FFFE);
    assert!(t2 > t1);
    assert!(t2 < 0x1_0000_0020);
}

#[test]
fn spin_sleep_waits_at_least_the_duration() {
    let mut timer = Timer::new();
    spin_sleep(&mut timer, 1000);
    let after = timer.read();
    assert!(after >= 1000);
    // prompt return: well under twice the duration
    assert!(after < 1100);
}

#[test]
fn current_time_advances() {
    let mut timer = Timer::new();
    let a = current_time(&mut timer);
    let b = current_time(&mut timer);
    assert!(b > a);
}
