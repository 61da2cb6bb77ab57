use status_led::led::event::{Action, ConnectionType, Event, KeyAction, PairingState};
use status_led::led::gauge::EmptyReading;
use status_led::led::hardware::{Command, LedStrip, PowerGate};
use status_led::led::pixel::Rgb;
use status_led::led::status_controller::{
    ControllerState, StatusLedController, CONFIRM_BLINKS, CONFIRM_HOLD_MS, POLL_INTERVAL_MS,
};
use status_led::led::StatusLedController as ReExported;

const OFF: Rgb = Rgb { r: 0, g: 0, b: 0 };
const BLUE: Rgb = Rgb { r: 0, g: 0, b: 70 };
const GREEN: Rgb = Rgb { r: 0, g: 70, b: 0 };
const RED: Rgb = Rgb { r: 70, g: 0, b: 0 };

fn controller() -> StatusLedController<14> {
    StatusLedController::new(LedStrip::new(), PowerGate::new(false))
}

fn battery_key() -> Event {
    Event::Key(KeyAction::Single(Action::Key(0x0847)))
}

fn one_pixel(index: usize, color: Rgb) -> [Rgb; 14] {
    let mut frame = [OFF; 14];
    frame[index] = color;
    frame
}

fn first_pixels(count: usize, color: Rgb) -> [Rgb; 14] {
    let mut frame = [OFF; 14];
    for pixel in frame.iter_mut().take(count) {
        *pixel = color;
    }
    frame
}

fn clear() -> Vec<Command<14>> {
    vec![Command::Write([OFF; 14]), Command::PowerOff]
}

/// Performs a script on a strip and a power gate, and checks after each
/// command that the power is on whenever a pixel is lit.
fn perform(frame: &mut [Rgb; 14], power: &mut bool, script: &[Command<14>]) {
    for command in script {
        match command {
            Command::PowerOn => *power = true,
            Command::PowerOff => *power = false,
            Command::Write(next) => *frame = *next,
            Command::Wait(_) => {}
        }
        assert!(*power || frame.iter().all(|pixel| *pixel == OFF));
    }
}

#[test]
fn timing_constants() {
    assert_eq!(POLL_INTERVAL_MS, 700);
    assert_eq!(CONFIRM_HOLD_MS, 500);
    assert_eq!(CONFIRM_BLINKS, 4);
}

#[test]
fn new_controller_has_safe_defaults() {
    let c = controller();
    assert_eq!(
        c.state(),
        ControllerState {
            should_blink: true,
            leds_on: false,
            current_profile: 0,
            battery_percent: 100,
            is_showing_battery: false,
            key_held: false,
        }
    );
    assert_eq!(c.empty_reading(), EmptyReading::Minimum);
    assert_eq!(c.frame(), [OFF; 14]);
    assert!(!c.is_powered());
}

#[test]
fn new_controller_takes_the_hardware_as_it_stands() {
    let mut strip: LedStrip<14> = LedStrip::new();
    let mut gate = PowerGate::new(false);
    let mut script = Vec::new();
    gate.set_high(&mut script);
    strip.write(one_pixel(3, RED), &mut script);
    let c = ReExported::new(strip, gate);
    assert_eq!(c.frame(), one_pixel(3, RED));
    assert!(c.is_powered());
}

#[test]
fn wireless_connection_starts_the_blink() {
    let mut c = controller();
    c.process_event(Event::ConnectionType(ConnectionType::Wired));
    assert!(!c.state().should_blink);
    let script = c.process_event(Event::ConnectionType(ConnectionType::Wireless));
    assert!(script.is_empty());
    assert!(c.state().should_blink);
}

#[test]
fn wired_connection_stops_the_blink_and_clears() {
    let mut c = controller();
    c.update();
    assert!(c.state().leds_on);
    let script = c.process_event(Event::ConnectionType(ConnectionType::Wired));
    assert_eq!(script, clear());
    assert!(!c.state().should_blink);
    assert!(!c.state().leds_on);
    assert_eq!(c.frame(), [OFF; 14]);
    assert!(!c.is_powered());
}

#[test]
fn wired_connection_leaves_the_gauge_alone() {
    let mut c = controller();
    c.process_event(Event::Battery(45));
    c.process_event(battery_key());
    let script = c.process_event(Event::ConnectionType(ConnectionType::Wired));
    assert!(script.is_empty());
    assert!(!c.state().should_blink);
    assert!(c.state().leds_on);
    assert!(c.state().is_showing_battery);
    assert_eq!(c.frame(), first_pixels(7, GREEN));
    assert!(c.is_powered());
}

#[test]
fn advertising_sets_the_profile_and_starts_the_blink() {
    let mut c = controller();
    c.process_event(Event::PairingState(PairingState::Idle));
    let script = c.process_event(Event::PairingState(PairingState::Advertising(2)));
    assert!(script.is_empty());
    assert_eq!(c.state().current_profile, 2);
    assert!(c.state().should_blink);
    assert_eq!(c.frame(), [OFF; 14]);
}

#[test]
fn connected_blinks_green_four_times() {
    let mut c = controller();
    let script = c.process_event(Event::PairingState(PairingState::Connected(2)));
    let mut expected = Vec::new();
    for _ in 0..4 {
        expected.push(Command::PowerOn);
        expected.push(Command::Write(one_pixel(2, GREEN)));
        expected.push(Command::Wait(500));
        expected.push(Command::Write([OFF; 14]));
        expected.push(Command::PowerOff);
        expected.push(Command::Wait(500));
    }
    assert_eq!(script, expected);
    assert_eq!(script.len(), 24);
}

#[test]
fn connected_leaves_the_blink_off_and_the_strip_cleared() {
    for profile in [0u8, 1, 2, 13, 14, 200, 255] {
        let mut c = controller();
        c.update();
        let script = c.process_event(Event::PairingState(PairingState::Connected(profile)));
        assert!(!c.state().should_blink);
        assert!(!c.state().leds_on);
        assert_eq!(c.state().current_profile, profile);
        assert_eq!(c.frame(), [OFF; 14]);
        assert!(!c.is_powered());
        let mut frame = one_pixel(0, BLUE);
        let mut power = true;
        perform(&mut frame, &mut power, &script);
        assert_eq!(frame, [OFF; 14]);
        assert!(!power);
    }
}

#[test]
fn connected_while_the_gauge_shows_still_confirms() {
    let mut c = controller();
    c.process_event(battery_key());
    let script = c.process_event(Event::PairingState(PairingState::Connected(1)));
    assert_eq!(script.len(), 24);
    assert_eq!(script[1], Command::Write(one_pixel(1, GREEN)));
    assert!(c.state().is_showing_battery);
    assert!(c.state().key_held);
    assert_eq!(c.frame(), [OFF; 14]);
}

#[test]
fn idle_pairing_stops_the_blink_and_clears() {
    let mut c = controller();
    c.process_event(battery_key());
    let script = c.process_event(Event::PairingState(PairingState::Idle));
    assert_eq!(script, clear());
    assert!(!c.state().should_blink);
    assert!(!c.state().leds_on);
    assert!(c.state().is_showing_battery);
    assert_eq!(c.frame(), [OFF; 14]);
    assert!(!c.is_powered());
}

#[test]
fn battery_report_is_remembered_and_nothing_else() {
    let mut c = controller();
    let before = c.state();
    let script = c.process_event(Event::Battery(45));
    assert!(script.is_empty());
    assert_eq!(c.state(), ControllerState { battery_percent: 45, ..before });
    c.process_event(Event::Battery(0));
    assert_eq!(c.state().battery_percent, 0);
    c.process_event(Event::Battery(255));
    assert_eq!(c.state().battery_percent, 255);
}

#[test]
fn profile_change_is_remembered_and_nothing_else() {
    let mut c = controller();
    let before = c.state();
    let script = c.process_event(Event::PairingProfileChanged(3));
    assert!(script.is_empty());
    assert_eq!(c.state(), ControllerState { current_profile: 3, ..before });
}

#[test]
fn battery_key_press_shows_the_gauge() {
    let mut c = controller();
    c.process_event(Event::Battery(45));
    let script = c.process_event(battery_key());
    assert_eq!(script, vec![Command::PowerOn, Command::Write(first_pixels(7, GREEN))]);
    assert!(c.state().is_showing_battery);
    assert!(c.state().key_held);
    assert!(c.state().leds_on);
    assert_eq!(c.frame(), first_pixels(7, GREEN));
    assert!(c.is_powered());
}

#[test]
fn battery_key_shows_the_last_report() {
    let mut c = controller();
    c.process_event(Event::Battery(45));
    c.process_event(Event::Battery(25));
    let script = c.process_event(battery_key());
    assert_eq!(script, vec![Command::PowerOn, Command::Write(first_pixels(4, RED))]);
}

#[test]
fn battery_key_before_any_report_shows_a_full_battery() {
    let mut c = controller();
    let script = c.process_event(battery_key());
    assert_eq!(script, vec![Command::PowerOn, Command::Write([GREEN; 14])]);
}

#[test]
fn battery_key_release_clears_and_lets_the_blink_resume() {
    let mut c = controller();
    c.process_event(Event::PairingState(PairingState::Advertising(5)));
    c.process_event(battery_key());
    let script = c.process_event(battery_key());
    assert_eq!(script, clear());
    assert!(!c.state().is_showing_battery);
    assert!(!c.state().key_held);
    assert!(!c.state().leds_on);
    assert!(c.state().should_blink);
    assert_eq!(c.frame(), [OFF; 14]);
    assert!(!c.is_powered());
    let script = c.update();
    assert_eq!(script, vec![Command::PowerOn, Command::Write(one_pixel(5, BLUE))]);
}

#[test]
fn battery_key_release_does_not_start_a_blink_that_was_off() {
    let mut c = controller();
    c.process_event(Event::PairingState(PairingState::Idle));
    c.process_event(battery_key());
    c.process_event(battery_key());
    assert!(!c.state().should_blink);
    assert!(c.update().is_empty());
}

#[test]
fn zero_percent_shows_the_minimum_by_default() {
    let mut c = controller();
    c.process_event(Event::Battery(0));
    let script = c.process_event(battery_key());
    assert_eq!(script, vec![Command::PowerOn, Command::Write(first_pixels(1, RED))]);
}

#[test]
fn zero_percent_shows_the_whole_strip_when_asked() {
    let mut c = controller().with_empty_reading(EmptyReading::Full);
    assert_eq!(c.empty_reading(), EmptyReading::Full);
    assert_eq!(c.state(), controller().state());
    c.process_event(Event::Battery(0));
    let script = c.process_event(battery_key());
    assert_eq!(script, vec![Command::PowerOn, Command::Write([RED; 14])]);
    c.process_event(battery_key());
    c.process_event(Event::Battery(45));
    let script = c.process_event(battery_key());
    assert_eq!(script, vec![Command::PowerOn, Command::Write(first_pixels(7, GREEN))]);
}

#[test]
fn other_keys_are_ignored() {
    for action in [
        KeyAction::Single(Action::Key(0x0004)),
        KeyAction::Single(Action::Key(0x0846)),
        KeyAction::Single(Action::Other),
        KeyAction::Other,
    ] {
        let mut c = controller();
        let before = c.state();
        let script = c.process_event(Event::Key(action));
        assert!(script.is_empty());
        assert_eq!(c.state(), before);
    }
}

#[test]
fn other_events_are_ignored() {
    let mut c = controller();
    c.update();
    let before = c.state();
    let frame = c.frame();
    let script = c.process_event(Event::Other);
    assert!(script.is_empty());
    assert_eq!(c.state(), before);
    assert_eq!(c.frame(), frame);
    assert!(c.is_powered());
}

#[test]
fn tick_toggles_the_blink() {
    let mut c = controller();
    c.process_event(Event::PairingState(PairingState::Advertising(2)));
    let on = c.update();
    assert_eq!(on, vec![Command::PowerOn, Command::Write(one_pixel(2, BLUE))]);
    assert!(c.state().leds_on);
    assert_eq!(c.frame(), one_pixel(2, BLUE));
    assert!(c.is_powered());
    let off = c.update();
    assert_eq!(off, clear());
    assert!(!c.state().leds_on);
    assert_eq!(c.frame(), [OFF; 14]);
    assert!(!c.is_powered());
    assert_eq!(c.update(), on);
}

#[test]
fn tick_does_nothing_when_the_blink_is_off() {
    let mut c = controller();
    c.process_event(Event::PairingState(PairingState::Idle));
    let before = c.state();
    assert!(c.update().is_empty());
    assert_eq!(c.state(), before);
}

#[test]
fn tick_clamps_the_profile_to_the_last_pixel() {
    for profile in 0u8..=255 {
        let mut c = controller();
        c.process_event(Event::PairingProfileChanged(profile));
        let script = c.update();
        let index = (profile as usize).min(13);
        assert_eq!(script, vec![Command::PowerOn, Command::Write(one_pixel(index, BLUE))]);
    }
}

#[test]
fn tick_never_blinks_over_the_gauge() {
    let mut c = controller();
    c.process_event(Event::PairingState(PairingState::Advertising(2)));
    c.process_event(Event::Battery(45));
    c.process_event(battery_key());
    assert!(c.state().should_blink);
    let before = c.state();
    for _ in 0..5 {
        assert!(c.update().is_empty());
        assert_eq!(c.state(), before);
        assert_eq!(c.frame(), first_pixels(7, GREEN));
        assert!(c.is_powered());
    }
}

#[test]
fn gauge_press_in_the_lit_phase_of_the_blink() {
    let mut c = controller();
    c.update();
    assert!(c.state().leds_on);
    c.process_event(battery_key());
    assert_eq!(c.frame(), [GREEN; 14]);
    c.process_event(battery_key());
    assert!(!c.state().leds_on);
    assert_eq!(c.update(), vec![Command::PowerOn, Command::Write(one_pixel(0, BLUE))]);
}

#[test]
fn advertising_then_connected_then_tick() {
    let mut c = controller();
    c.process_event(Event::PairingState(PairingState::Advertising(2)));
    c.process_event(Event::PairingState(PairingState::Connected(2)));
    let script = c.update();
    assert!(script.is_empty());
    assert_eq!(c.state().current_profile, 2);
    assert!(!c.state().should_blink);
    assert_eq!(c.frame(), [OFF; 14]);
    assert!(!c.is_powered());
}

#[test]
fn state_is_advanced_as_if_every_write_succeeded() {
    let mut c = controller();
    c.update();
    assert!(c.state().leds_on);
    c.update();
    assert!(!c.state().leds_on);
}

#[test]
fn power_is_on_whenever_a_pixel_is_lit() {
    let events = [
        Event::PairingState(PairingState::Advertising(1)),
        Event::Other,
        Event::Battery(25),
        battery_key(),
        Event::ConnectionType(ConnectionType::Wired),
        Event::PairingState(PairingState::Connected(3)),
        battery_key(),
        Event::ConnectionType(ConnectionType::Wireless),
        Event::PairingProfileChanged(200),
        Event::PairingState(PairingState::Idle),
        Event::PairingState(PairingState::Advertising(0)),
    ];
    let mut c = controller();
    let mut frame = [OFF; 14];
    let mut power = false;
    for event in events {
        let script = c.process_event(event);
        perform(&mut frame, &mut power, &script);
        assert_eq!(frame, c.frame());
        assert_eq!(power, c.is_powered());
        assert_eq!(power, frame.iter().any(|pixel| *pixel != OFF));
        for _ in 0..3 {
            let script = c.update();
            perform(&mut frame, &mut power, &script);
            assert_eq!(frame, c.frame());
            assert_eq!(power, c.is_powered());
            assert_eq!(power, frame.iter().any(|pixel| *pixel != OFF));
        }
    }
}

#[test]
fn single_pixel_strip() {
    let mut c: StatusLedController<1> =
        StatusLedController::new(LedStrip::new(), PowerGate::new(false));
    c.process_event(Event::PairingProfileChanged(9));
    assert_eq!(c.update(), vec![Command::PowerOn, Command::Write([BLUE])]);
    c.process_event(Event::Battery(50));
    assert_eq!(c.process_event(battery_key()), vec![Command::PowerOn, Command::Write([GREEN])]);
}
