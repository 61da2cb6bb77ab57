use crate::led::event::{ConnectionType, Event, PairingState};
use crate::led::gauge::{gauge_frame, spec_gauge_frame, EmptyReading};
use crate::led::hardware::{wait, Command, Hardware, LedStrip, PowerGate, Step};
use crate::led::hardware::{lemma_after_all_concat, lemma_after_all_pair, lemma_after_all_push};
use crate::led::pixel::{advertising, blank, blank_frame, good, single, single_frame, Rgb};
use vstd::prelude::*;

verus! {

/// The period of the render tick, in milliseconds.
pub const POLL_INTERVAL_MS: u64 = 700;

/// How long each phase of the connection blink is held, in milliseconds.
pub const CONFIRM_HOLD_MS: u64 = 500;

/// How often the profile pixel blinks to confirm a connection.
pub const CONFIRM_BLINKS: usize = 4;

/// What the controller remembers between events and ticks.
#[derive(Clone, Copy, Debug, PartialEq, Eq, Structural)]
pub struct ControllerState {
    /// Whether the advertising blink is active.
    pub should_blink: bool,
    /// Whether the current phase of the blink has a pixel lit. It follows the
    /// commands given, not what the strip made of them.
    pub leds_on: bool,
    /// The active pairing profile.
    pub current_profile: u8,
    /// The charge last reported, in percent.
    pub battery_percent: u8,
    /// Whether the battery gauge has priority over the blink.
    pub is_showing_battery: bool,
    /// Whether the key that asks for the gauge is down.
    pub key_held: bool,
}

impl ControllerState {
    /// The state of a controller that has seen no event: ready to blink, so
    /// that an early advertising notification is not missed, with a full
    /// battery and nothing shown or held.
    pub open spec fn initial() -> ControllerState {
        ControllerState {
            should_blink: true,
            leds_on: false,
            current_profile: 0,
            battery_percent: 100,
            is_showing_battery: false,
            key_held: false,
        }
    }

    /// The state after `event`.
    pub open spec fn after_event(self, event: Event) -> ControllerState {
        match event {
            Event::ConnectionType(ConnectionType::Wireless) => ControllerState {
                should_blink: true,
                ..self
            },
            Event::ConnectionType(ConnectionType::Wired) => ControllerState {
                should_blink: false,
                leds_on: self.is_showing_battery && self.leds_on,
                ..self
            },
            Event::PairingState(PairingState::Advertising(profile)) => ControllerState {
                current_profile: profile,
                should_blink: true,
                ..self
            },
            Event::PairingState(PairingState::Connected(profile)) => ControllerState {
                current_profile: profile,
                should_blink: false,
                leds_on: false,
                ..self
            },
            Event::PairingState(PairingState::Idle) => ControllerState {
                should_blink: false,
                leds_on: false,
                ..self
            },
            Event::Battery(percent) => ControllerState { battery_percent: percent, ..self },
            Event::PairingProfileChanged(profile) => ControllerState {
                current_profile: profile,
                ..self
            },
            Event::Key(action) => if !action.is_battery_check() {
                self
            } else if !self.key_held {
                ControllerState { key_held: true, is_showing_battery: true, leds_on: true, ..self }
            } else {
                ControllerState {
                    key_held: false,
                    is_showing_battery: false,
                    leds_on: false,
                    ..self
                }
            },
            Event::Other => self,
        }
    }

    /// Whether a tick redraws the blink: it is active and the battery gauge
    /// does not cover it.
    pub open spec fn blinks(self) -> bool {
        self.should_blink && !self.is_showing_battery
    }

    /// The state after a tick.
    pub open spec fn after_tick(self) -> ControllerState {
        if self.blinks() {
            ControllerState { leds_on: !self.leds_on, ..self }
        } else {
            self
        }
    }
}

/// The pixel that stands for a pairing profile on a strip of `n` pixels: the
/// profile's own, or the last one where the strip is too short.
pub open spec fn profile_pixel(n: nat, profile: u8) -> nat {
    vstd::math::min(profile as int, n - 1) as nat
}

/// The steps that clear the strip: an all-dark frame, then power off.
pub open spec fn clear_steps(n: nat) -> Seq<Step> {
    seq![Step::Write(blank(n)), Step::PowerOff]
}

/// The steps that light the pixel of `profile` in `color`: power on, then the
/// frame.
pub open spec fn profile_steps(n: nat, profile: u8, color: Rgb) -> Seq<Step> {
    seq![Step::PowerOn, Step::Write(single(n, profile_pixel(n, profile), color))]
}

/// The steps that draw the battery gauge: power on, then the frame.
pub open spec fn gauge_steps(n: nat, percent: u8, empty: EmptyReading) -> Seq<Step> {
    seq![Step::PowerOn, Step::Write(spec_gauge_frame(n, percent as nat, empty))]
}

/// One blink of the connection confirmation: the pixel of `profile` lit and
/// held, then the strip cleared and held.
pub open spec fn confirm_blink(n: nat, profile: u8) -> Seq<Step> {
    profile_steps(n, profile, good()) + seq![Step::Wait(CONFIRM_HOLD_MS as nat)] + clear_steps(n)
        + seq![Step::Wait(CONFIRM_HOLD_MS as nat)]
}

/// `blinks` blinks of the connection confirmation, one after the other.
pub open spec fn confirm_steps(n: nat, profile: u8, blinks: nat) -> Seq<Step>
    decreases blinks,
{
    if blinks == 0 {
        Seq::empty()
    } else {
        confirm_steps(n, profile, (blinks - 1) as nat) + confirm_blink(n, profile)
    }
}

/// What a controller is, to its callers: what it remembers, what the hardware
/// was last told, and its choice for a reading of zero percent.
#[verifier::ext_equal]
pub struct ControllerView {
    pub state: ControllerState,
    pub hardware: Hardware,
    pub empty_reading: EmptyReading,
}

impl ControllerView {
    /// The number of pixels on the strip.
    pub open spec fn pixels(self) -> nat {
        self.hardware.pixels.len()
    }

    /// The steps that `event` asks of the hardware, in order.
    pub open spec fn event_steps(self, event: Event) -> Seq<Step> {
        match event {
            Event::ConnectionType(ConnectionType::Wired) => if self.state.is_showing_battery {
                Seq::empty()
            } else {
                clear_steps(self.pixels())
            },
            Event::PairingState(PairingState::Connected(profile)) => confirm_steps(
                self.pixels(),
                profile,
                CONFIRM_BLINKS as nat,
            ),
            Event::PairingState(PairingState::Idle) => clear_steps(self.pixels()),
            Event::Key(action) => if !action.is_battery_check() {
                Seq::empty()
            } else if !self.state.key_held {
                gauge_steps(self.pixels(), self.state.battery_percent, self.empty_reading)
            } else {
                clear_steps(self.pixels())
            },
            _ => Seq::empty(),
        }
    }

    /// The controller after `event`, once the hardware has been taken
    /// through the steps of the event.
    pub open spec fn after_event(self, event: Event) -> ControllerView {
        ControllerView {
            state: self.state.after_event(event),
            hardware: self.hardware.after_all(self.event_steps(event)),
            empty_reading: self.empty_reading,
        }
    }

    /// The steps that a tick asks of the hardware, in order: the other phase
    /// of the blink, or nothing.
    pub open spec fn tick_steps(self) -> Seq<Step> {
        if !self.state.blinks() {
            Seq::empty()
        } else if self.state.leds_on {
            clear_steps(self.pixels())
        } else {
            profile_steps(self.pixels(), self.state.current_profile, advertising())
        }
    }

    /// The controller after a tick.
    pub open spec fn after_tick(self) -> ControllerView {
        ControllerView {
            state: self.state.after_tick(),
            hardware: self.hardware.after_all(self.tick_steps()),
            empty_reading: self.empty_reading,
        }
    }
}

/// Clearing leaves a strip of `n` pixels dark and unpowered, whatever it
/// showed.
pub proof fn lemma_clear_drains(start: Hardware, n: nat)
    ensures
        start.after_all(clear_steps(n)) == Hardware::drained(n),
{
    lemma_after_all_pair(start, Step::Write(blank(n)), Step::PowerOff);
}

/// Lighting a profile pixel leaves the strip powered, with that one frame.
pub proof fn lemma_profile_lights(start: Hardware, n: nat, profile: u8, color: Rgb)
    ensures
        start.after_all(profile_steps(n, profile, color)) == (Hardware {
            pixels: single(n, profile_pixel(n, profile), color),
            powered: true,
        }),
{
    lemma_after_all_pair(
        start,
        Step::PowerOn,
        Step::Write(single(n, profile_pixel(n, profile), color)),
    );
}

/// Drawing the gauge leaves the strip powered, with the frame of the gauge.
pub proof fn lemma_gauge_lights(start: Hardware, n: nat, percent: u8, empty: EmptyReading)
    ensures
        start.after_all(gauge_steps(n, percent, empty)) == (Hardware {
            pixels: spec_gauge_frame(n, percent as nat, empty),
            powered: true,
        }),
{
    lemma_after_all_pair(
        start,
        Step::PowerOn,
        Step::Write(spec_gauge_frame(n, percent as nat, empty)),
    );
}

/// One blink of the confirmation ends with the strip dark and unpowered.
pub proof fn lemma_confirm_blink_drains(start: Hardware, n: nat, profile: u8)
    ensures
        start.after_all(confirm_blink(n, profile)) == Hardware::drained(n),
{
    let hold = seq![Step::Wait(CONFIRM_HOLD_MS as nat)];
    let lit = profile_steps(n, profile, good());
    lemma_after_all_concat(start, lit + hold + clear_steps(n), hold);
    lemma_after_all_concat(start, lit + hold, clear_steps(n));
    lemma_clear_drains(start.after_all(lit + hold), n);
    let none = Seq::<Step>::empty();
    assert(Hardware::drained(n).after_all(none) == Hardware::drained(n));
    lemma_after_all_push(Hardware::drained(n), none, Step::Wait(CONFIRM_HOLD_MS as nat));
    assert(hold =~= none.push(Step::Wait(CONFIRM_HOLD_MS as nat)));
}

/// Any number of blinks of the confirmation, if there is one at all, ends
/// with the strip dark and unpowered.
pub proof fn lemma_confirm_drains(start: Hardware, n: nat, profile: u8, blinks: nat)
    requires
        blinks >= 1,
    ensures
        start.after_all(confirm_steps(n, profile, blinks)) == Hardware::drained(n),
{
    let before = confirm_steps(n, profile, (blinks - 1) as nat);
    lemma_after_all_concat(start, before, confirm_blink(n, profile));
    lemma_confirm_blink_drains(start.after_all(before), n, profile);
}

/// The controller of the status display. It holds the records of the strip
/// and of the power gate for as long as it lives, and is driven from one
/// place at a time: by `process_event` for each status event, in order of
/// arrival, and by `update` once every `POLL_INTERVAL_MS` milliseconds.
pub struct StatusLedController<const N: usize> {
    ws2812: LedStrip<N>,
    power_pin: PowerGate,
    state: ControllerState,
    empty_reading: EmptyReading,
}

impl<const N: usize> View for StatusLedController<N> {
    type V = ControllerView;

    closed spec fn view(&self) -> ControllerView {
        ControllerView {
            state: self.state,
            hardware: Hardware { pixels: self.ws2812@, powered: self.power_pin.is_high() },
            empty_reading: self.empty_reading,
        }
    }
}

/// Finds the pixel that stands for a pairing profile on a strip of `N`
/// pixels. Every profile has one.
pub fn profile_pixel_index<const N: usize>(profile: u8) -> (index: usize)
    requires
        N >= 1,
    ensures
        index == profile_pixel(N as nat, profile),
        index == vstd::math::min(profile as int, N - 1),
        index < N,
{
    let last: usize = N - 1;
    if (profile as usize) < last {
        profile as usize
    } else {
        last
    }
}

impl<const N: usize> StatusLedController<N> {
    /// Takes over the strip and the power gate, as they stand. A reading of
    /// zero percent lights the minimum.
    pub fn new(ws2812: LedStrip<N>, power_pin: PowerGate) -> (controller: Self)
        requires
            N >= 1,
        ensures
            controller@ == (ControllerView {
                state: ControllerState::initial(),
                hardware: Hardware { pixels: ws2812@, powered: power_pin.is_high() },
                empty_reading: EmptyReading::Minimum,
            }),
            controller@.pixels() == N,
    {
        proof {
            ws2812.lemma_len();
        }
        StatusLedController {
            ws2812,
            power_pin,
            state: ControllerState {
                should_blink: true,
                leds_on: false,
                current_profile: 0,
                battery_percent: 100,
                is_showing_battery: false,
                key_held: false,
            },
            empty_reading: EmptyReading::Minimum,
        }
    }

    /// The same controller with another choice for a reading of zero percent.
    pub fn with_empty_reading(self, empty_reading: EmptyReading) -> (controller: Self)
        ensures
            controller@ == (ControllerView { empty_reading, ..self@ }),
    {
        StatusLedController {
            ws2812: self.ws2812,
            power_pin: self.power_pin,
            state: self.state,
            empty_reading,
        }
    }

    /// The strip of a controller has `N` pixels.
    pub proof fn lemma_pixels(&self)
        ensures
            self@.pixels() == N,
    {
        self.ws2812.lemma_len();
    }

    /// What the controller remembers.
    pub fn state(&self) -> (state: ControllerState)
        ensures
            state == self@.state,
    {
        self.state
    }

    /// The frame that the strip was last told to show.
    pub fn frame(&self) -> (frame: [Rgb; N])
        ensures
            frame@ == self@.hardware.pixels,
    {
        self.ws2812.frame()
    }

    /// Whether the power gate was last driven high.
    pub fn is_powered(&self) -> (high: bool)
        ensures
            high == self@.hardware.powered,
    {
        self.power_pin.level()
    }

    /// What a reading of zero percent lights.
    pub fn empty_reading(&self) -> (empty_reading: EmptyReading)
        ensures
            empty_reading == self@.empty_reading,
    {
        self.empty_reading
    }

    /// Lights the pixel of the active profile in `color`, and nothing else.
    fn render_profile_pixel(&mut self, color: Rgb, script: &mut Vec<Command<N>>)
        requires
            N >= 1,
        ensures
            final(self)@ == (ControllerView {
                state: ControllerState { leds_on: true, ..old(self)@.state },
                hardware: old(self)@.hardware.after_all(
                    profile_steps(N as nat, old(self)@.state.current_profile, color),
                ),
                ..old(self)@
            }),
            final(script).deep_view() == old(script).deep_view() + profile_steps(
                N as nat,
                old(self)@.state.current_profile,
                color,
            ),
    {
        proof {
            lemma_profile_lights(old(self)@.hardware, N as nat, self.state.current_profile, color);
        }
        self.power_pin.set_high(script);
        let profile_index = profile_pixel_index::<N>(self.state.current_profile);
        let data = single_frame::<N>(profile_index, color);
        self.ws2812.write(data, script);
        self.state.leds_on = true;
        assert(script.deep_view() =~= old(script).deep_view() + profile_steps(
            N as nat,
            old(self)@.state.current_profile,
            color,
        ));
    }

    /// Lights the pixel of the active profile in the advertising colour.
    fn blink_ble_profile_led_blue(&mut self, script: &mut Vec<Command<N>>)
        requires
            N >= 1,
        ensures
            final(self)@ == (ControllerView {
                state: ControllerState { leds_on: true, ..old(self)@.state },
                hardware: old(self)@.hardware.after_all(
                    profile_steps(N as nat, old(self)@.state.current_profile, advertising()),
                ),
                ..old(self)@
            }),
            final(script).deep_view() == old(script).deep_view() + profile_steps(
                N as nat,
                old(self)@.state.current_profile,
                advertising(),
            ),
    {
        self.render_profile_pixel(advertising(), script);
    }

    /// Lights the pixel of the active profile in the colour of a connection.
    fn blink_ble_profile_led_green(&mut self, script: &mut Vec<Command<N>>)
        requires
            N >= 1,
        ensures
            final(self)@ == (ControllerView {
                state: ControllerState { leds_on: true, ..old(self)@.state },
                hardware: old(self)@.hardware.after_all(
                    profile_steps(N as nat, old(self)@.state.current_profile, good()),
                ),
                ..old(self)@
            }),
            final(script).deep_view() == old(script).deep_view() + profile_steps(
                N as nat,
                old(self)@.state.current_profile,
                good(),
            ),
    {
        self.render_profile_pixel(good(), script);
    }

    /// Darkens the strip and cuts its power.
    fn clear_all_leds(&mut self, script: &mut Vec<Command<N>>)
        ensures
            final(self)@ == (ControllerView {
                state: ControllerState { leds_on: false, ..old(self)@.state },
                hardware: old(self)@.hardware.after_all(clear_steps(N as nat)),
                ..old(self)@
            }),
            final(script).deep_view() == old(script).deep_view() + clear_steps(N as nat),
    {
        proof {
            lemma_clear_drains(old(self)@.hardware, N as nat);
        }
        let data = blank_frame::<N>();
        self.ws2812.write(data, script);
        self.power_pin.set_low(script);
        self.state.leds_on = false;
        assert(script.deep_view() =~= old(script).deep_view() + clear_steps(N as nat));
    }

    /// Draws the gauge of the charge last reported.
    fn show_battery_level(&mut self, script: &mut Vec<Command<N>>)
        requires
            N >= 1,
        ensures
            final(self)@ == (ControllerView {
                state: ControllerState { leds_on: true, ..old(self)@.state },
                hardware: old(self)@.hardware.after_all(
                    gauge_steps(
                        N as nat,
                        old(self)@.state.battery_percent,
                        old(self)@.empty_reading,
                    ),
                ),
                ..old(self)@
            }),
            final(script).deep_view() == old(script).deep_view() + gauge_steps(
                N as nat,
                old(self)@.state.battery_percent,
                old(self)@.empty_reading,
            ),
    {
        proof {
            lemma_gauge_lights(
                old(self)@.hardware,
                N as nat,
                self.state.battery_percent,
                self.empty_reading,
            );
        }
        self.power_pin.set_high(script);
        let data = gauge_frame::<N>(self.state.battery_percent, self.empty_reading);
        self.ws2812.write(data, script);
        self.state.leds_on = true;
        assert(script.deep_view() =~= old(script).deep_view() + gauge_steps(
            N as nat,
            old(self)@.state.battery_percent,
            old(self)@.empty_reading,
        ));
    }
    /// Takes one status event: changes what the controller remembers and
    /// returns what the hardware has to do for it, in order. The caller
    /// performs the whole script before it hands in the next event or tick;
    /// events that arrive meanwhile wait their turn.
    pub fn process_event(&mut self, event: Event) -> (script: Vec<Command<N>>)
        requires
            N >= 1,
        ensures
            final(self)@ == old(self)@.after_event(event),
            script.deep_view() == old(self)@.event_steps(event),
    {
        let mut script: Vec<Command<N>> = Vec::new();
        proof {
            self.lemma_pixels();
            assert(script.deep_view() =~= Seq::<Step>::empty());
            assert(self@.hardware.after_all(Seq::<Step>::empty()) == self@.hardware);
        }
        match event {
            Event::ConnectionType(connection) => {
                match connection {
                    ConnectionType::Wireless => {
                        self.state.should_blink = true;
                    },
                    ConnectionType::Wired => {
                        self.state.should_blink = false;
                        if !self.state.is_showing_battery {
                            self.clear_all_leds(&mut script);
                        }
                    },
                }
            },
            Event::PairingState(pairing) => {
                match pairing {
                    PairingState::Advertising(profile) => {
                        self.state.current_profile = profile;
                        self.state.should_blink = true;
                    },
                    PairingState::Connected(profile) => {
                        self.state.should_blink = false;
                        self.state.current_profile = profile;
                        let mut blinks: usize = 0;
                        while blinks < CONFIRM_BLINKS
                            invariant
                                N >= 1,
                                blinks <= CONFIRM_BLINKS,
                                old(self)@.pixels() == N,
                                script.deep_view() == confirm_steps(N as nat, profile, blinks as nat),
                                self@.hardware == old(self)@.hardware.after_all(script.deep_view()),
                                self@.empty_reading == old(self)@.empty_reading,
                                self@.state == (ControllerState {
                                    should_blink: false,
                                    current_profile: profile,
                                    leds_on: blinks == 0 && old(self)@.state.leds_on,
                                    ..old(self)@.state
                                }),
                            decreases CONFIRM_BLINKS - blinks,
                        {
                            let ghost before = script.deep_view();
                            let ghost lit = self@.hardware.after_all(
                                profile_steps(N as nat, profile, good()),
                            );
                            self.blink_ble_profile_led_green(&mut script);
                            wait(CONFIRM_HOLD_MS, &mut script);
                            self.clear_all_leds(&mut script);
                            wait(CONFIRM_HOLD_MS, &mut script);
                            blinks += 1;
                            proof {
                                assert(script.deep_view() =~= before + confirm_blink(
                                    N as nat,
                                    profile,
                                ));
                                lemma_clear_drains(lit, N as nat);
                                lemma_confirm_drains(
                                    old(self)@.hardware,
                                    N as nat,
                                    profile,
                                    blinks as nat,
                                );
                            }
                        }
                    },
                    PairingState::Idle => {
                        self.state.should_blink = false;
                        self.clear_all_leds(&mut script);
                    },
                }
            },
            Event::Battery(percent) => {
                self.state.battery_percent = percent;
            },
            Event::PairingProfileChanged(profile) => {
                self.state.current_profile = profile;
            },
            Event::Key(action) => {
                if action.is_battery_check() {
                    if !self.state.key_held {
                        self.state.key_held = true;
                        self.state.is_showing_battery = true;
                        self.show_battery_level(&mut script);
                    } else {
                        self.state.key_held = false;
                        self.state.is_showing_battery = false;
                        self.clear_all_leds(&mut script);
                    }
                }
            },
            Event::Other => {},
        }
        proof {
            assert(script.deep_view() =~= old(self)@.event_steps(event));
            assert(self@ =~= old(self)@.after_event(event));
        }
        script
    }

    /// Takes one tick of the render timer: shows the other phase of the
    /// advertising blink, unless the blink is off or the battery gauge covers
    /// it, and returns what the hardware has to do for it.
    pub fn update(&mut self) -> (script: Vec<Command<N>>)
        requires
            N >= 1,
        ensures
            final(self)@ == old(self)@.after_tick(),
            script.deep_view() == old(self)@.tick_steps(),
            old(self)@.state.is_showing_battery ==> script@.len() == 0 && final(self)@ == old(
                self,
            )@,
    {
        let mut script: Vec<Command<N>> = Vec::new();
        proof {
            self.lemma_pixels();
            assert(script.deep_view() =~= Seq::<Step>::empty());
            assert(self@.hardware.after_all(Seq::<Step>::empty()) == self@.hardware);
        }
        if self.state.should_blink && !self.state.is_showing_battery {
            if self.state.leds_on {
                self.clear_all_leds(&mut script);
            } else {
                self.blink_ble_profile_led_blue(&mut script);
            }
        }
        proof {
            assert(script.deep_view() =~= old(self)@.tick_steps());
            assert(self@ =~= old(self)@.after_tick());
        }
        script
    }
}

} // verus!
