use crate::led::hardware::{
    lemma_after_all_push, wait, Command, Hardware, LedStrip, PowerGate, Step,
};
use crate::led::pixel::{blank, blank_frame, boot_flash, boot_wave, leading, leading_frame};
use vstd::prelude::*;

verus! {

/// How long each step of the wave is held, in milliseconds.
pub const WAVE_STEP_MS: u64 = 100;

/// How long the flash that ends the wave is held, in milliseconds.
pub const FLASH_HOLD_MS: u64 = 300;

/// How long the cleared strip is held before its power is cut, in
/// milliseconds.
pub const CLEAR_HOLD_MS: u64 = 50;

/// The wave on a strip of `n` pixels, as far as its first `lit` pixels: one
/// pixel more is lit with each frame, and each frame is held.
pub open spec fn wave_steps(n: nat, lit: nat) -> Seq<Step> {
    Seq::new(
        2 * lit,
        |k: int|
            if k % 2 == 0 {
                Step::Write(leading(n, (k / 2 + 1) as nat, boot_wave()))
            } else {
                Step::Wait(WAVE_STEP_MS as nat)
            },
    )
}

/// How the animation ends: the whole strip flashes, is cleared, and loses its
/// power.
pub open spec fn finale_steps(n: nat) -> Seq<Step> {
    seq![
        Step::Write(leading(n, n, boot_flash())),
        Step::Wait(FLASH_HOLD_MS as nat),
        Step::Write(blank(n)),
        Step::Wait(CLEAR_HOLD_MS as nat),
        Step::PowerOff,
    ]
}

/// The whole animation on a strip of `n` pixels: power on, the wave from the
/// first pixel to the last, and the finale.
pub open spec fn bootup_steps(n: nat) -> Seq<Step> {
    seq![Step::PowerOn] + wave_steps(n, n) + finale_steps(n)
}

/// The animation leaves a strip of `n` pixels dark and unpowered, whatever it
/// showed before.
pub proof fn lemma_bootup_drains(start: Hardware, n: nat)
    ensures
        start.after_all(bootup_steps(n)) == Hardware::drained(n),
{
    let before = seq![Step::PowerOn] + wave_steps(n, n);
    let flash = Step::Write(leading(n, n, boot_flash()));
    let hold = Step::Wait(FLASH_HOLD_MS as nat);
    let clear = Step::Write(blank(n));
    let rest = Step::Wait(CLEAR_HOLD_MS as nat);
    let s1 = before.push(flash);
    let s2 = s1.push(hold);
    let s3 = s2.push(clear);
    let s4 = s3.push(rest);
    lemma_after_all_push(start, s3, rest);
    lemma_after_all_push(start, s4, Step::PowerOff);
    lemma_after_all_push(start, s2, clear);
    assert(bootup_steps(n) =~= s4.push(Step::PowerOff));
}

/// The animation that runs once at power-up, before anything else owns the
/// strip. It holds the records of the strip and of the power gate until
/// `take` hands them on.
pub struct StartupAnimator<const N: usize> {
    ws2812: LedStrip<N>,
    power_pin: PowerGate,
}

impl<const N: usize> View for StartupAnimator<N> {
    type V = Hardware;

    closed spec fn view(&self) -> Hardware {
        Hardware { pixels: self.ws2812@, powered: self.power_pin.is_high() }
    }
}

impl<const N: usize> StartupAnimator<N> {
    /// Takes over the strip and the power gate, as they stand.
    pub fn new(ws2812: LedStrip<N>, power_pin: PowerGate) -> (animator: Self)
        ensures
            animator@ == (Hardware { pixels: ws2812@, powered: power_pin.is_high() }),
    {
        StartupAnimator { ws2812, power_pin }
    }

    /// Returns the script of the animation: the strip fills pixel by pixel,
    /// flashes as a whole and goes dark, and the power gate is driven low at the
    /// end. A frame that fails to show is not written again.
    pub fn bootup_animation(&mut self) -> (script: Vec<Command<N>>)
        ensures
            script.deep_view() == bootup_steps(N as nat),
            final(self)@ == old(self)@.after_all(bootup_steps(N as nat)),
            final(self)@ == Hardware::drained(N as nat),
    {
        let mut script: Vec<Command<N>> = Vec::new();
        self.power_pin.set_high(&mut script);
        assert(script.deep_view() =~= seq![Step::PowerOn] + wave_steps(N as nat, 0));
        for i in 0..N
            invariant
                script.deep_view() == seq![Step::PowerOn] + wave_steps(N as nat, i as nat),
        {
            let data = leading_frame::<N>(i + 1, boot_wave());
            self.ws2812.write(data, &mut script);
            wait(WAVE_STEP_MS, &mut script);
            assert(script.deep_view() =~= seq![Step::PowerOn] + wave_steps(
                N as nat,
                (i + 1) as nat,
            ));
        }
        let data = leading_frame::<N>(N, boot_flash());
        self.ws2812.write(data, &mut script);
        wait(FLASH_HOLD_MS, &mut script);

        let data = blank_frame::<N>();
        self.ws2812.write(data, &mut script);
        wait(CLEAR_HOLD_MS, &mut script);

        self.power_pin.set_low(&mut script);
        proof {
            assert(script.deep_view() =~= bootup_steps(N as nat));
            lemma_bootup_drains(old(self)@, N as nat);
        }
        script
    }

    /// Hands the strip and the power gate on to their next owner, as they
    /// stand.
    pub fn take(self) -> (parts: (LedStrip<N>, PowerGate))
        ensures
            parts.0@ == self@.pixels,
            parts.1.is_high() == self@.powered,
    {
        (self.ws2812, self.power_pin)
    }
}

} // verus!
