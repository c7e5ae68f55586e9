use pi_firmware::gpio::GpioBank;
use pi_firmware::timer::Timer;
use pi_firmware::uart::{MiniUart, LCR_8BIT, BAUD_DIVISOR};
use pi_firmware::console::Console;

#[test]
fn uart_new_routes_pins_and_configures() {
    let mut bank = GpioBank::new();
    let uart = MiniUart::new(&mut bank);
    assert_eq!(bank.function_of(14), 0b010);
    assert_eq!(bank.function_of(15), 0b010);
    assert!(!uart.has_byte());
    assert!(uart.is_idle());
    assert_eq!(LCR_8BIT, 0b11);
    assert_eq!(BAUD_DIVISOR, 270);
}

#[test]
fn ready_byte_is_read_immediately() {
    let mut bank = GpioBank::new();
    let mut uart = MiniUart::new(&mut bank);
    uart.deliver_byte(0x42);
    assert!(uart.has_byte());
    let b = uart.read_byte();
    assert_eq!(b, 0x42);
    assert!(!uart.has_byte());
}

#[test]
fn bytes_are_read_in_arrival_order() {
    let mut bank = GpioBank::new();
    let mut uart = MiniUart::new(&mut bank);
    uart.deliver_byte(1);
    uart.deliver_byte(2);
    uart.deliver_byte(3);
    assert_eq!(uart.read_byte(), 1);
    assert_eq!(uart.read_byte(), 2);
    assert_eq!(uart.read_byte(), 3);
}

#[test]
fn wait_for_byte_times_out_within_bounds() {
    let mut bank = GpioBank::new();
    let mut uart = MiniUart::new(&mut bank);
    let mut timer = Timer::new();
    uart.set_read_timeout(500);
    let r = uart.wait_for_byte(&mut timer);
    assert!(r.is_err());
    // the failure came no earlier than the timeout and only a little later
    let now = timer.read();
    assert!(now >= 500);
    assert!(now <= 500 + 40);
}

#[test]
fn wait_for_byte_succeeds_on_pending_byte() {
    let mut bank = GpioBank::new();
    let mut uart = MiniUart::new(&mut bank);
    let mut timer = Timer::new();
    uart.set_read_timeout(1000);
    uart.deliver_byte(9);
    assert!(uart.wait_for_byte(&mut timer).is_ok());
    assert_eq!(uart.read_byte(), 9);
}

#[test]
fn bulk_read_drains_pending_bytes() {
    let mut bank = GpioBank::new();
    let mut uart = MiniUart::new(&mut bank);
    let mut timer = Timer::new();
    uart.set_read_timeout(1000);
    uart.deliver_byte(10);
    uart.deliver_byte(20);
    uart.deliver_byte(30);
    let mut buf = vec![0u8; 2];
    let r = uart.read(&mut buf, &mut timer);
    assert_eq!(r, Ok(2));
    assert_eq!(buf, vec![10, 20]);
    assert!(uart.has_byte());
    assert_eq!(uart.read_byte(), 30);
}

#[test]
fn bulk_read_times_out_on_silent_line() {
    let mut bank = GpioBank::new();
    let mut uart = MiniUart::new(&mut bank);
    let mut timer = Timer::new();
    uart.set_read_timeout(100);
    let mut buf = vec![0u8; 4];
    let r = uart.read(&mut buf, &mut timer);
    assert!(r.is_err());
    assert_eq!(buf, vec![0, 0, 0, 0]);
}

#[test]
fn bulk_write_logs_every_byte() {
    let mut bank = GpioBank::new();
    let mut uart = MiniUart::new(&mut bank);
    let n = uart.write(&[7, 8, 9]);
    assert_eq!(n, 3);
    uart.flush();
    assert_eq!(uart.transmitted(), &vec![7, 8, 9]);
}

#[test]
fn write_str_inserts_carriage_returns() {
    let mut bank = GpioBank::new();
    let mut uart = MiniUart::new(&mut bank);
    uart.write_str("a\nb\n");
    assert_eq!(uart.transmitted(), &vec![97, 13, 10, 98, 13, 10]);
}

#[test]
fn write_byte_appends_to_log() {
    let mut bank = GpioBank::new();
    let mut uart = MiniUart::new(&mut bank);
    uart.write_byte(0xAA);
    uart.write_byte(0x55);
    assert_eq!(uart.transmitted(), &vec![0xAA, 0x55]);
}

#[test]
fn console_initializes_once_and_echoes() {
    let mut bank = GpioBank::new();
    let mut console = Console::new();
    console.initialize(&mut bank);
    assert_eq!(bank.function_of(14), 0b010);
    assert_eq!(bank.function_of(15), 0b010);
    console.initialize(&mut bank);
    console.deliver_byte(77);
    let b = console.read_byte(&mut bank);
    assert_eq!(b, 77);
    console.write_byte(b, &mut bank);
    assert_eq!(console.transmitted(), vec![77]);
}

#[test]
fn console_write_str_translates_newlines() {
    let mut bank = GpioBank::new();
    let mut console = Console::new();
    console.write_str("ok\n", &mut bank);
    assert_eq!(console.transmitted(), vec![111, 107, 13, 10]);
}

#[test]
fn console_bulk_read_under_timeout() {
    let mut bank = GpioBank::new();
    let mut timer = Timer::new();
    let mut console = Console::new();
    console.initialize(&mut bank);
    console.deliver_byte(5);
    console.deliver_byte(6);
    let mut buf = vec![0u8; 8];
    let r = console.read(&mut buf, &mut bank, &mut timer);
    assert_eq!(r, Ok(2));
    assert_eq!(&buf[..2], &[5, 6]);
    let empty = console.read(&mut buf, &mut bank, &mut timer);
    assert!(empty.is_err());
}

#[test]
fn console_write_and_flush() {
    let mut bank = GpioBank::new();
    let mut console = Console::new();
    let n = console.write(&[1, 2, 3, 4], &mut bank);
    assert_eq!(n, 4);
    console.flush(&mut bank);
    assert_eq!(console.transmitted(), vec![1, 2, 3, 4]);
}
