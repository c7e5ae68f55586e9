use pi_firmware::gpio::{GpioBank, PinOut};
use pi_firmware::mutex::Mutex;
use pi_firmware::timer::Timer;
use pi_firmware::boot::{
    BootSession, BootError, BootAction, ReceiveOutcome, boot_round, flash_pin, SUCCESS_BLINKS,
    FAILURE_BLINKS, READY_BLINKS, READY_BLINK_MILLIS, OUTCOME_BLINK_MILLIS, MAX_BINARY_SIZE,
    POST_SIGNAL_PAUSE_MICROS,
};

#[test]
fn mutex_hands_value_back_and_forth() {
    let mut m = Mutex::new(5u32);
    let mut g = m.lock();
    assert_eq!(*g.value(), 5);
    *g.value_mut() = 7;
    m.unlock(g);
    // dropping the guard made the lock immediately acquirable again
    let g2 = m.lock();
    assert_eq!(*g2.value(), 7);
    m.unlock(g2);
}

#[test]
fn flash_pin_blinks_and_ends_off() {
    let mut bank = GpioBank::new();
    let mut timer = Timer::new();
    let mut led = Mutex::new(PinOut::new(16));
    flash_pin(&mut led, &mut bank, &mut timer, READY_BLINKS, READY_BLINK_MILLIS);
    // five blinks of 450 ms take at least 4.5 s
    assert!(timer.read() >= 4_500_000);
    assert_eq!(bank.levels() & (1u64 << 16), 0);
    assert_eq!(bank.function_of(16), 0b001);
}

#[test]
fn deposit_accepts_image_that_fits() {
    let mut session = BootSession::new(64);
    let data = [9u8; 40];
    let r = session.deposit(&data);
    assert_eq!(r, Ok(40));
    assert_eq!(&session.window()[..40], &data[..]);
    assert_eq!(&session.window()[40..], &[0u8; 24][..]);
}

#[test]
fn deposit_rejects_image_beyond_window() {
    let mut session = BootSession::new(64);
    let data = [9u8; 65];
    let r = session.deposit(&data);
    assert_eq!(r, Err(BootError::ImageTooLarge));
    // not a byte of the window moved, in particular not its last byte
    assert_eq!(session.window(), &vec![0u8; 64]);
}

#[test]
fn boot_retries_twice_then_jumps_with_image_in_window() {
    let mut session = BootSession::new(64);
    let mut bank = GpioBank::new();
    let mut timer = Timer::new();
    let mut led = Mutex::new(PinOut::new(16));

    let first = boot_round(&mut session, ReceiveOutcome::Failed, &mut led, &mut bank, &mut timer);
    assert_eq!(first.blinks, FAILURE_BLINKS);
    assert_eq!(first.action, BootAction::RetrySignal);

    let second = boot_round(&mut session, ReceiveOutcome::Failed, &mut led, &mut bank, &mut timer);
    assert_eq!(second.blinks, FAILURE_BLINKS);
    assert_eq!(second.action, BootAction::RetrySignal);

    let image = vec![0xABu8; 40];
    let third = boot_round(
        &mut session,
        ReceiveOutcome::Received(image.clone()),
        &mut led,
        &mut bank,
        &mut timer,
    );
    assert_eq!(third.blinks, SUCCESS_BLINKS);
    assert_eq!(third.action, BootAction::JumpToLoaded);
    assert_eq!(&session.window()[..40], &image[..]);
    assert_eq!(&session.window()[40..], &[0u8; 24][..]);
}

#[test]
fn boot_rejects_oversized_image_without_writing() {
    let mut session = BootSession::new(64);
    let mut bank = GpioBank::new();
    let mut timer = Timer::new();
    let mut led = Mutex::new(PinOut::new(16));

    let oversized = vec![0xCDu8; 65];
    let step = boot_round(
        &mut session,
        ReceiveOutcome::Received(oversized),
        &mut led,
        &mut bank,
        &mut timer,
    );
    assert_eq!(step.blinks, FAILURE_BLINKS);
    assert_eq!(step.action, BootAction::RetrySignal);
    assert_eq!(session.window(), &vec![0u8; 64]);
}

#[test]
fn boot_round_takes_signal_and_pause_time() {
    let mut session = BootSession::new(8);
    let mut bank = GpioBank::new();
    let mut timer = Timer::new();
    let mut led = Mutex::new(PinOut::new(16));
    boot_round(&mut session, ReceiveOutcome::Failed, &mut led, &mut bank, &mut timer);
    let elapsed = timer.read();
    let floor = FAILURE_BLINKS as u64 * 2 * (OUTCOME_BLINK_MILLIS * 1000) + POST_SIGNAL_PAUSE_MICROS;
    assert!(elapsed >= floor);
}

#[test]
fn window_constants_bound_the_loaded_image() {
    assert_eq!(MAX_BINARY_SIZE, 0x4000000 - 0x80000);
    let session = BootSession::new(16);
    assert_eq!(session.window_size(), 16);
}
