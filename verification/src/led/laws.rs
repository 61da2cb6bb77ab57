use crate::led::event::{Event, KeyAction, PairingState};
use crate::led::gauge::{
    lit_count, spec_gauge_color, spec_gauge_frame, EmptyReading, FULL_FROM,
};
use crate::led::hardware::{
    lemma_after_all_concat, lemma_after_all_push, lemma_safe_pair, lemma_safe_single,
    lemma_safe_throughout_concat, lemma_stays_powered, safe_throughout, Hardware, Step,
};
use crate::led::pixel::{advertising, blank, dark, good, is_blank, single, Rgb};
use crate::led::startup_animation::{bootup_steps, lemma_bootup_drains};
use crate::led::status_controller::{
    clear_steps, confirm_blink, confirm_steps, lemma_clear_drains, lemma_confirm_drains,
    lemma_gauge_lights, lemma_profile_lights, profile_pixel, profile_steps, ControllerState,
    ControllerView, CONFIRM_BLINKS, CONFIRM_HOLD_MS,
};
use vstd::prelude::*;

verus! {

/// Every pairing profile has a pixel on the strip: its own, or the last one
/// where the strip is too short. The frame drawn for it shows the colour
/// there and nothing anywhere else.
pub proof fn lemma_profile_pixel_on_strip(n: nat, profile: u8, color: Rgb)
    requires
        n >= 1,
    ensures
        profile_pixel(n, profile) == vstd::math::min(profile as int, n - 1),
        profile_pixel(n, profile) < n,
        single(n, profile_pixel(n, profile), color).len() == n,
        forall|i: int|
            0 <= i < n ==> #[trigger] single(n, profile_pixel(n, profile), color)[i] == (if i
                == profile_pixel(n, profile) {
                color
            } else {
                dark()
            }),
{
}

/// A frame with one pixel in a colour that is lit is not blank.
pub proof fn lemma_single_is_lit(n: nat, index: nat, color: Rgb)
    requires
        index < n,
        color.is_lit(),
    ensures
        !is_blank(single(n, index, color)),
{
    assert(single(n, index, color)[index as int].is_lit());
}

/// The gauge always lights something: at least one pixel, in a colour that
/// is lit.
pub proof fn lemma_gauge_is_lit(n: nat, percent: u8, empty: EmptyReading)
    requires
        n >= 1,
    ensures
        !is_blank(spec_gauge_frame(n, percent as nat, empty)),
{
    let count = lit_count(n, percent as nat, empty);
    if 0 < percent < FULL_FROM {
        assert(0 <= (percent - 1) * (n - 1)) by (nonlinear_arith)
            requires
                1 <= percent,
                1 <= n,
        ;
    }
    assert(count >= 1);
    assert(spec_gauge_frame(n, percent as nat, empty)[0] == spec_gauge_color(percent as nat));
    assert(spec_gauge_frame(n, percent as nat, empty)[0].is_lit());
}

/// A connection always ends the blink, and once its confirmation has been
/// performed the strip is cleared: every pixel dark and the power gate low.
pub proof fn lemma_connected_settles(before: ControllerView, profile: u8)
    ensures
        ({
            let after = before.after_event(Event::PairingState(PairingState::Connected(profile)));
            &&& !after.state.should_blink
            &&& after.state.current_profile == profile
            &&& after.hardware == Hardware::drained(before.pixels())
            &&& is_blank(after.hardware.pixels)
            &&& !after.hardware.powered
        }),
{
    lemma_confirm_drains(before.hardware, before.pixels(), profile, CONFIRM_BLINKS as nat);
}

/// When the key that asks for the gauge goes down, the gauge takes priority
/// and is drawn at once, for the charge last reported.
pub proof fn lemma_battery_key_shows_gauge(before: ControllerView, action: KeyAction)
    requires
        action.is_battery_check(),
        !before.state.key_held,
    ensures
        ({
            let after = before.after_event(Event::Key(action));
            &&& after.state.is_showing_battery
            &&& after.state.key_held
            &&& after.hardware.powered
            &&& after.hardware.pixels == spec_gauge_frame(
                before.pixels(),
                before.state.battery_percent as nat,
                before.empty_reading,
            )
        }),
{
    lemma_gauge_lights(
        before.hardware,
        before.pixels(),
        before.state.battery_percent,
        before.empty_reading,
    );
}

/// When the key that asks for the gauge comes up again, the strip is cleared
/// and the blink is as eligible as it was: the next tick lights the profile
/// pixel exactly if the blink is active.
pub proof fn lemma_battery_key_release_clears(before: ControllerView, action: KeyAction)
    requires
        action.is_battery_check(),
        before.state.key_held,
    ensures
        ({
            let after = before.after_event(Event::Key(action));
            &&& !after.state.is_showing_battery
            &&& !after.state.key_held
            &&& after.state.should_blink == before.state.should_blink
            &&& after.hardware == Hardware::drained(before.pixels())
            &&& after.tick_steps() == if before.state.should_blink {
                profile_steps(before.pixels(), before.state.current_profile, advertising())
            } else {
                Seq::<Step>::empty()
            }
        }),
{
    lemma_clear_drains(before.hardware, before.pixels());
}

/// A press and a release of the key that asks for the gauge change nothing
/// that the controller remembers but the phase of the blink, and leave the
/// strip cleared.
pub proof fn lemma_battery_key_round_trip(before: ControllerView, action: KeyAction)
    requires
        action.is_battery_check(),
        !before.state.key_held,
    ensures
        ({
            let after = before.after_event(Event::Key(action)).after_event(Event::Key(action));
            &&& after.state == (ControllerState {
                leds_on: false,
                is_showing_battery: false,
                ..before.state
            })
            &&& after.hardware == Hardware::drained(before.pixels())
            &&& after.empty_reading == before.empty_reading
        }),
{
    lemma_battery_key_shows_gauge(before, action);
    let shown = before.after_event(Event::Key(action));
    lemma_battery_key_release_clears(shown, action);
}

/// While the battery gauge has priority a tick asks nothing of the hardware
/// and changes nothing, whether the blink is active or not.
pub proof fn lemma_gauge_covers_blink(before: ControllerView)
    requires
        before.state.is_showing_battery,
    ensures
        before.tick_steps() == Seq::<Step>::empty(),
        before.after_tick() == before,
{
    assert(before.hardware.after_all(Seq::<Step>::empty()) == before.hardware);
}

/// No event and no tick changes the length of the strip.
pub proof fn lemma_pixels_stay(before: ControllerView, event: Event)
    ensures
        before.after_event(event).pixels() == before.pixels(),
        before.after_tick().pixels() == before.pixels(),
{
    let n = before.pixels();
    let none = Seq::<Step>::empty();
    assert(before.hardware.after_all(none) == before.hardware);
    lemma_clear_drains(before.hardware, n);
    lemma_profile_lights(before.hardware, n, before.state.current_profile, advertising());
    lemma_gauge_lights(before.hardware, n, before.state.battery_percent, before.empty_reading);
    match event {
        Event::PairingState(PairingState::Connected(profile)) => {
            lemma_confirm_drains(before.hardware, n, profile, CONFIRM_BLINKS as nat);
        },
        _ => {},
    }
}

/// Clearing keeps the rule of the power gate: the frame goes dark before the
/// power is cut.
pub proof fn lemma_clear_is_safe(start: Hardware, n: nat)
    requires
        start.is_safe(),
    ensures
        safe_throughout(start, clear_steps(n)),
{
    lemma_safe_pair(start, Step::Write(blank(n)), Step::PowerOff);
}

/// Lighting pixels keeps the rule of the power gate: the power comes on
/// before the frame is written.
pub proof fn lemma_lighting_is_safe(start: Hardware, frame: Seq<Rgb>)
    requires
        start.is_safe(),
    ensures
        safe_throughout(start, seq![Step::PowerOn, Step::Write(frame)]),
{
    lemma_safe_pair(start, Step::PowerOn, Step::Write(frame));
}

/// One blink of the confirmation keeps the rule of the power gate.
pub proof fn lemma_confirm_blink_is_safe(start: Hardware, n: nat, profile: u8)
    requires
        start.is_safe(),
    ensures
        safe_throughout(start, confirm_blink(n, profile)),
{
    let hold = Step::Wait(CONFIRM_HOLD_MS as nat);
    let lit = profile_steps(n, profile, good());
    let frame = single(n, profile_pixel(n, profile), good());
    lemma_lighting_is_safe(start, frame);
    lemma_profile_lights(start, n, profile, good());
    let a = start.after_all(lit);
    lemma_safe_single(a, hold);
    lemma_safe_throughout_concat(start, lit, seq![hold]);
    lemma_after_all_concat(start, lit, seq![hold]);
    let none = Seq::<Step>::empty();
    assert(a.after_all(none) == a);
    lemma_after_all_push(a, none, hold);
    assert(seq![hold] =~= none.push(hold));
    let b = start.after_all(lit + seq![hold]);
    assert(b == a);
    lemma_clear_is_safe(b, n);
    lemma_safe_throughout_concat(start, lit + seq![hold], clear_steps(n));
    lemma_after_all_concat(start, lit + seq![hold], clear_steps(n));
    lemma_clear_drains(b, n);
    let c = start.after_all(lit + seq![hold] + clear_steps(n));
    lemma_safe_single(c, hold);
    lemma_safe_throughout_concat(start, lit + seq![hold] + clear_steps(n), seq![hold]);
}

/// Any number of blinks of the confirmation keeps the rule of the power gate.
pub proof fn lemma_confirm_is_safe(start: Hardware, n: nat, profile: u8, blinks: nat)
    requires
        start.is_safe(),
    ensures
        safe_throughout(start, confirm_steps(n, profile, blinks)),
    decreases blinks,
{
    if blinks == 0 {
        let none = Seq::<Step>::empty();
        assert(start.after_all(none) == start);
        assert forall|k: int| 0 <= k <= none.len() implies (#[trigger] start.after_all(
            none.take(k),
        )).is_safe() by {
            assert(none.take(k) =~= none);
        }
    } else {
        let before = confirm_steps(n, profile, (blinks - 1) as nat);
        lemma_confirm_is_safe(start, n, profile, (blinks - 1) as nat);
        assert(before.take(before.len() as int) =~= before);
        lemma_confirm_blink_is_safe(start.after_all(before), n, profile);
        lemma_safe_throughout_concat(start, before, confirm_blink(n, profile));
    }
}

/// The rule of the power gate holds at every step of what an event asks of
/// the hardware: the power gate is high whenever a pixel is lit.
pub proof fn lemma_event_keeps_gate_rule(before: ControllerView, event: Event)
    requires
        before.hardware.is_safe(),
    ensures
        safe_throughout(before.hardware, before.event_steps(event)),
        before.after_event(event).hardware.is_safe(),
{
    let n = before.pixels();
    let steps = before.event_steps(event);
    let none = Seq::<Step>::empty();
    lemma_confirm_is_safe(before.hardware, n, 0, 0);
    lemma_clear_is_safe(before.hardware, n);
    lemma_lighting_is_safe(
        before.hardware,
        spec_gauge_frame(n, before.state.battery_percent as nat, before.empty_reading),
    );
    match event {
        Event::PairingState(PairingState::Connected(profile)) => {
            lemma_confirm_is_safe(before.hardware, n, profile, CONFIRM_BLINKS as nat);
        },
        _ => {},
    }
    assert(steps.take(steps.len() as int) =~= steps);
}

/// The rule of the power gate holds at every step of what a tick asks of the
/// hardware.
pub proof fn lemma_tick_keeps_gate_rule(before: ControllerView)
    requires
        before.hardware.is_safe(),
    ensures
        safe_throughout(before.hardware, before.tick_steps()),
        before.after_tick().hardware.is_safe(),
{
    let n = before.pixels();
    let steps = before.tick_steps();
    lemma_confirm_is_safe(before.hardware, n, 0, 0);
    lemma_clear_is_safe(before.hardware, n);
    lemma_lighting_is_safe(
        before.hardware,
        single(n, profile_pixel(n, before.state.current_profile), advertising()),
    );
    assert(steps.take(steps.len() as int) =~= steps);
}

/// At rest the power gate is high exactly when a pixel is lit. Every event
/// keeps it so.
pub proof fn lemma_event_keeps_settled(before: ControllerView, event: Event)
    requires
        before.pixels() >= 1,
        before.hardware.is_settled(),
    ensures
        before.after_event(event).hardware.is_settled(),
{
    let n = before.pixels();
    let none = Seq::<Step>::empty();
    assert(before.hardware.after_all(none) == before.hardware);
    lemma_clear_drains(before.hardware, n);
    lemma_gauge_lights(before.hardware, n, before.state.battery_percent, before.empty_reading);
    lemma_gauge_is_lit(n, before.state.battery_percent, before.empty_reading);
    match event {
        Event::PairingState(PairingState::Connected(profile)) => {
            lemma_confirm_drains(before.hardware, n, profile, CONFIRM_BLINKS as nat);
        },
        _ => {},
    }
}

/// At rest the power gate is high exactly when a pixel is lit. Every tick
/// keeps it so.
pub proof fn lemma_tick_keeps_settled(before: ControllerView)
    requires
        before.pixels() >= 1,
        before.hardware.is_settled(),
    ensures
        before.after_tick().hardware.is_settled(),
{
    let n = before.pixels();
    let none = Seq::<Step>::empty();
    assert(before.hardware.after_all(none) == before.hardware);
    lemma_clear_drains(before.hardware, n);
    lemma_profile_lights(before.hardware, n, before.state.current_profile, advertising());
    lemma_single_is_lit(n, profile_pixel(n, before.state.current_profile), advertising());
}

/// A profile that advertises, connects and then meets a tick is the active
/// one, with the blink ended, the strip cleared, and nothing for the tick to
/// do.
pub proof fn lemma_pairing_completes(before: ControllerView, profile: u8)
    ensures
        ({
            let advertising = before.after_event(
                Event::PairingState(PairingState::Advertising(profile)),
            );
            let connected = advertising.after_event(
                Event::PairingState(PairingState::Connected(profile)),
            );
            let after = connected.after_tick();
            &&& connected.tick_steps() == Seq::<Step>::empty()
            &&& after.state.current_profile == profile
            &&& !after.state.should_blink
            &&& after.hardware == Hardware::drained(before.pixels())
        }),
{
    let advertising = before.after_event(Event::PairingState(PairingState::Advertising(profile)));
    assert(before.hardware.after_all(Seq::<Step>::empty()) == before.hardware);
    lemma_connected_settles(advertising, profile);
    let connected = advertising.after_event(Event::PairingState(PairingState::Connected(profile)));
    assert(connected.hardware.after_all(Seq::<Step>::empty()) == connected.hardware);
}

/// The rule of the power gate holds at every step of the power-up animation:
/// the power gate goes high first and low last, after the strip has gone
/// dark.
pub proof fn lemma_bootup_keeps_gate_rule(start: Hardware, n: nat)
    requires
        start.is_safe(),
    ensures
        safe_throughout(start, bootup_steps(n)),
{
    let steps = bootup_steps(n);
    let none = Seq::<Step>::empty();
    assert(start.after_all(none) == start);
    lemma_after_all_push(start, none, Step::PowerOn);
    assert forall|k: int| 0 <= k <= steps.len() implies (#[trigger] start.after_all(
        steps.take(k),
    )).is_safe() by {
        if k == 0 {
            assert(steps.take(k) =~= none);
        } else if k == steps.len() {
            assert(steps.take(k) =~= steps);
            lemma_bootup_drains(start, n);
        } else {
            let rest = steps.take(k).subrange(1, k);
            assert(steps.take(k) =~= seq![Step::PowerOn] + rest);
            assert(seq![Step::PowerOn] =~= none.push(Step::PowerOn));
            lemma_after_all_concat(start, seq![Step::PowerOn], rest);
            lemma_stays_powered(start.after(Step::PowerOn), rest);
        }
    }
}

} // verus!
