use crate::led::pixel::{blank, is_blank, Rgb};
use vstd::prelude::*;

verus! {

/// One thing the firmware is asked to do with the strip, the power gate or
/// the timer. `N` is the number of pixels on the strip.
#[derive(Clone, Copy, Debug, PartialEq, Eq)]
pub enum Command<const N: usize> {
    /// Drive the power gate high.
    PowerOn,
    /// Drive the power gate low.
    PowerOff,
    /// Write one whole frame to the strip. A failed write is not retried.
    Write([Rgb; N]),
    /// Let this many milliseconds pass before the next command.
    Wait(u64),
}

/// What a command means, with the frame as a sequence of pixels.
#[verifier::ext_equal]
pub enum Step {
    PowerOn,
    PowerOff,
    Write(Seq<Rgb>),
    Wait(nat),
}

impl<const N: usize> View for Command<N> {
    type V = Step;

    open spec fn view(&self) -> Step {
        match *self {
            Command::PowerOn => Step::PowerOn,
            Command::PowerOff => Step::PowerOff,
            Command::Write(frame) => Step::Write(frame@),
            Command::Wait(millis) => Step::Wait(millis as nat),
        }
    }
}

impl<const N: usize> DeepView for Command<N> {
    type V = Step;

    open spec fn deep_view(&self) -> Step {
        self.view()
    }
}

/// What the strip and the power gate were last told: the frame that was
/// written last, and the level the power gate was driven to.
#[verifier::ext_equal]
pub struct Hardware {
    pub pixels: Seq<Rgb>,
    pub powered: bool,
}

impl Hardware {
    /// A strip of `n` pixels that shows nothing, with its power cut.
    pub open spec fn drained(n: nat) -> Hardware {
        Hardware { pixels: blank(n), powered: false }
    }

    /// The hardware once `step` has been performed.
    pub open spec fn after(self, step: Step) -> Hardware {
        match step {
            Step::PowerOn => Hardware { powered: true, ..self },
            Step::PowerOff => Hardware { powered: false, ..self },
            Step::Write(frame) => Hardware { pixels: frame, ..self },
            Step::Wait(_) => self,
        }
    }

    /// The hardware once every step of `steps` has been performed, first to
    /// last.
    pub open spec fn after_all(self, steps: Seq<Step>) -> Hardware
        decreases steps.len(),
    {
        if steps.len() == 0 {
            self
        } else {
            self.after_all(steps.drop_last()).after(steps.last())
        }
    }

    /// The rule of the power gate: it is high whenever a pixel is lit.
    pub open spec fn is_safe(self) -> bool {
        !is_blank(self.pixels) ==> self.powered
    }

    /// The hardware at rest: the power gate is high exactly when a pixel is
    /// lit, so a cleared strip draws no idle power.
    pub open spec fn is_settled(self) -> bool {
        self.powered <==> !is_blank(self.pixels)
    }
}

/// Whether the rule of the power gate holds before the first step of `steps`,
/// between any two of them, and after the last.
pub open spec fn safe_throughout(start: Hardware, steps: Seq<Step>) -> bool {
    forall|k: int| 0 <= k <= steps.len() ==> (#[trigger] start.after_all(steps.take(k))).is_safe()
}

/// Performing `steps` and then `step` is performing `steps.push(step)`.
pub proof fn lemma_after_all_push(start: Hardware, steps: Seq<Step>, step: Step)
    ensures
        start.after_all(steps.push(step)) == start.after_all(steps).after(step),
{
    assert(steps.push(step).drop_last() =~= steps);
}

/// Performing a script of two steps is performing the one and then the other.
pub proof fn lemma_after_all_pair(start: Hardware, first: Step, second: Step)
    ensures
        start.after_all(seq![first, second]) == start.after(first).after(second),
{
    let none = Seq::<Step>::empty();
    assert(start.after_all(none) == start);
    lemma_after_all_push(start, none, first);
    lemma_after_all_push(start, none.push(first), second);
    assert(seq![first, second] =~= none.push(first).push(second));
}

/// Performing `first` and then `second` is performing their concatenation.
pub proof fn lemma_after_all_concat(start: Hardware, first: Seq<Step>, second: Seq<Step>)
    ensures
        start.after_all(first + second) == start.after_all(first).after_all(second),
    decreases second.len(),
{
    if second.len() == 0 {
        assert(first + second =~= first);
    } else {
        lemma_after_all_concat(start, first, second.drop_last());
        assert((first + second).drop_last() =~= first + second.drop_last());
    }
}

/// A script that keeps the rule of the power gate, followed by one that keeps
/// it from where the first ends, keeps it from start to end.
pub proof fn lemma_safe_throughout_concat(start: Hardware, first: Seq<Step>, second: Seq<Step>)
    requires
        safe_throughout(start, first),
        safe_throughout(start.after_all(first), second),
    ensures
        safe_throughout(start, first + second),
{
    let whole = first + second;
    assert forall|k: int| 0 <= k <= whole.len() implies (#[trigger] start.after_all(
        whole.take(k),
    )).is_safe() by {
        if k <= first.len() {
            assert(whole.take(k) =~= first.take(k));
        } else {
            let rest = second.take(k - first.len());
            assert(whole.take(k) =~= first + rest);
            lemma_after_all_concat(start, first, rest);
        }
    }
}

/// A single step keeps the rule of the power gate if the rule holds before it
/// and after it.
pub proof fn lemma_safe_single(start: Hardware, step: Step)
    requires
        start.is_safe(),
        start.after(step).is_safe(),
    ensures
        safe_throughout(start, seq![step]),
{
    let none = Seq::<Step>::empty();
    let steps = seq![step];
    assert(start.after_all(none) == start);
    lemma_after_all_push(start, none, step);
    assert forall|k: int| 0 <= k <= steps.len() implies (#[trigger] start.after_all(
        steps.take(k),
    )).is_safe() by {
        if k == 0 {
            assert(steps.take(k) =~= none);
        } else {
            assert(steps.take(k) =~= none.push(step));
        }
    }
}

/// Two steps keep the rule of the power gate if the rule holds before them,
/// between them and after them.
pub proof fn lemma_safe_pair(start: Hardware, first: Step, second: Step)
    requires
        start.is_safe(),
        start.after(first).is_safe(),
        start.after(first).after(second).is_safe(),
    ensures
        safe_throughout(start, seq![first, second]),
{
    lemma_safe_single(start, first);
    lemma_safe_single(start.after(first), second);
    let none = Seq::<Step>::empty();
    assert(start.after_all(none) == start);
    lemma_after_all_push(start, none, first);
    assert(seq![first] =~= none.push(first));
    lemma_safe_throughout_concat(start, seq![first], seq![second]);
    assert(seq![first, second] =~= seq![first] + seq![second]);
}

/// While the power gate is high and no step drives it low, it stays high.
pub proof fn lemma_stays_powered(start: Hardware, steps: Seq<Step>)
    requires
        start.powered,
        forall|i: int| 0 <= i < steps.len() ==> steps[i] != Step::PowerOff,
    ensures
        start.after_all(steps).powered,
    decreases steps.len(),
{
    if steps.len() > 0 {
        lemma_stays_powered(start, steps.drop_last());
    }
}

/// The record of an addressable strip of `N` pixels: the frame it was last
/// told to show.
pub struct LedStrip<const N: usize> {
    frame: [Rgb; N],
}

impl<const N: usize> View for LedStrip<N> {
    type V = Seq<Rgb>;

    closed spec fn view(&self) -> Seq<Rgb> {
        self.frame@
    }
}

impl<const N: usize> LedStrip<N> {
    /// A strip that has been told nothing yet, and so shows nothing.
    pub fn new() -> (strip: Self)
        ensures
            strip@ == blank(N as nat),
    {
        LedStrip { frame: crate::led::pixel::blank_frame() }
    }

    /// A frame has one pixel for each pixel of the strip.
    pub proof fn lemma_len(&self)
        ensures
            self@.len() == N,
    {
    }

    /// The frame that the strip was last told to show.
    pub fn frame(&self) -> (frame: [Rgb; N])
        ensures
            frame@ == self@,
    {
        self.frame
    }

    /// Asks for `frame` to be written, as the next command of `script`.
    pub fn write(&mut self, frame: [Rgb; N], script: &mut Vec<Command<N>>)
        ensures
            final(self)@ == frame@,
            final(script).deep_view() == old(script).deep_view().push(Step::Write(frame@)),
    {
        self.frame = frame;
        script.push(Command::Write(frame));
        assert(script.deep_view() =~= old(script).deep_view().push(Step::Write(frame@)));
    }
}

/// The record of the pin that gates power to the strip: the level it was last
/// driven to.
pub struct PowerGate {
    high: bool,
}

impl PowerGate {
    /// Whether the power gate was last driven high.
    pub closed spec fn is_high(&self) -> bool {
        self.high
    }

    /// A gate that stands at the given level.
    pub fn new(high: bool) -> (gate: Self)
        ensures
            gate.is_high() == high,
    {
        PowerGate { high }
    }

    /// The level that the power gate was last driven to.
    pub fn level(&self) -> (high: bool)
        ensures
            high == self.is_high(),
    {
        self.high
    }

    /// Asks for the power gate to be driven high, as the next command of
    /// `script`.
    pub fn set_high<const N: usize>(&mut self, script: &mut Vec<Command<N>>)
        ensures
            final(self).is_high(),
            final(script).deep_view() == old(script).deep_view().push(Step::PowerOn),
    {
        self.high = true;
        script.push(Command::PowerOn);
        assert(script.deep_view() =~= old(script).deep_view().push(Step::PowerOn));
    }

    /// Asks for the power gate to be driven low, as the next command of
    /// `script`.
    pub fn set_low<const N: usize>(&mut self, script: &mut Vec<Command<N>>)
        ensures
            !final(self).is_high(),
            final(script).deep_view() == old(script).deep_view().push(Step::PowerOff),
    {
        self.high = false;
        script.push(Command::PowerOff);
        assert(script.deep_view() =~= old(script).deep_view().push(Step::PowerOff));
    }
}

/// Asks for a pause of `millis` milliseconds, as the next command of `script`.
pub fn wait<const N: usize>(millis: u64, script: &mut Vec<Command<N>>)
    ensures
        final(script).deep_view() == old(script).deep_view().push(Step::Wait(millis as nat)),
{
    script.push(Command::Wait(millis));
    assert(script.deep_view() =~= old(script).deep_view().push(Step::Wait(millis as nat)));
}

} // verus!
