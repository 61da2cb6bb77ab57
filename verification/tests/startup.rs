use status_led::led::hardware::{Command, LedStrip, PowerGate};
use status_led::led::pixel::Rgb;
use status_led::led::startup_animation::{CLEAR_HOLD_MS, FLASH_HOLD_MS, WAVE_STEP_MS};
use status_led::led::{StartupAnimator, StatusLedController};

const OFF: Rgb = Rgb { r: 0, g: 0, b: 0 };
const WAVE: Rgb = Rgb { r: 60, g: 20, b: 0 };
const FLASH: Rgb = Rgb { r: 0, g: 0, b: 50 };

#[test]
fn animation_timing() {
    assert_eq!(WAVE_STEP_MS, 100);
    assert_eq!(FLASH_HOLD_MS, 300);
    assert_eq!(CLEAR_HOLD_MS, 50);
}

#[test]
fn animation_on_three_pixels() {
    let mut animator: StartupAnimator<3> =
        StartupAnimator::new(LedStrip::new(), PowerGate::new(false));
    let script = animator.bootup_animation();
    assert_eq!(
        script,
        vec![
            Command::PowerOn,
            Command::Write([WAVE, OFF, OFF]),
            Command::Wait(100),
            Command::Write([WAVE, WAVE, OFF]),
            Command::Wait(100),
            Command::Write([WAVE, WAVE, WAVE]),
            Command::Wait(100),
            Command::Write([FLASH, FLASH, FLASH]),
            Command::Wait(300),
            Command::Write([OFF, OFF, OFF]),
            Command::Wait(50),
            Command::PowerOff,
        ]
    );
}

#[test]
fn animation_on_fourteen_pixels() {
    let mut animator: StartupAnimator<14> =
        StartupAnimator::new(LedStrip::new(), PowerGate::new(false));
    let script = animator.bootup_animation();
    assert_eq!(script.len(), 1 + 2 * 14 + 5);
    assert_eq!(script[0], Command::PowerOn);
    for i in 0..14 {
        let mut frame = [OFF; 14];
        for pixel in frame.iter_mut().take(i + 1) {
            *pixel = WAVE;
        }
        assert_eq!(script[1 + 2 * i], Command::Write(frame));
        assert_eq!(script[2 + 2 * i], Command::Wait(100));
    }
    assert_eq!(script[29], Command::Write([FLASH; 14]));
    assert_eq!(script[30], Command::Wait(300));
    assert_eq!(script[31], Command::Write([OFF; 14]));
    assert_eq!(script[32], Command::Wait(50));
    assert_eq!(script[33], Command::PowerOff);
}

#[test]
fn animation_keeps_the_power_on_while_pixels_are_lit() {
    let mut animator: StartupAnimator<14> =
        StartupAnimator::new(LedStrip::new(), PowerGate::new(false));
    let script = animator.bootup_animation();
    let mut frame = [OFF; 14];
    let mut power = false;
    for command in &script {
        match command {
            Command::PowerOn => power = true,
            Command::PowerOff => power = false,
            Command::Write(next) => frame = *next,
            Command::Wait(_) => {}
        }
        assert!(power || frame == [OFF; 14]);
    }
    assert_eq!(frame, [OFF; 14]);
    assert!(!power);
}

#[test]
fn animation_hands_on_a_drained_strip() {
    let mut strip: LedStrip<14> = LedStrip::new();
    let mut gate = PowerGate::new(false);
    let mut earlier = Vec::new();
    gate.set_high(&mut earlier);
    strip.write([FLASH; 14], &mut earlier);
    let mut animator = StartupAnimator::new(strip, gate);
    animator.bootup_animation();
    let (strip, gate) = animator.take();
    assert_eq!(strip.frame(), [OFF; 14]);
    assert!(!gate.level());
    let controller = StatusLedController::new(strip, gate);
    assert_eq!(controller.frame(), [OFF; 14]);
    assert!(!controller.is_powered());
}

#[test]
fn take_without_animation_returns_what_was_given() {
    let mut strip: LedStrip<2> = LedStrip::new();
    let mut gate = PowerGate::new(false);
    let mut script = Vec::new();
    gate.set_high(&mut script);
    strip.write([WAVE, OFF], &mut script);
    let animator = StartupAnimator::new(strip, gate);
    let (strip, gate) = animator.take();
    assert_eq!(strip.frame(), [WAVE, OFF]);
    assert!(gate.level());
}

#[test]
fn animation_on_an_empty_strip() {
    let mut animator: StartupAnimator<0> =
        StartupAnimator::new(LedStrip::new(), PowerGate::new(false));
    let script = animator.bootup_animation();
    assert_eq!(
        script,
        vec![
            Command::PowerOn,
            Command::Write([]),
            Command::Wait(300),
            Command::Write([]),
            Command::Wait(50),
            Command::PowerOff,
        ]
    );
}
