use vstd::prelude::*;

verus! {

/// One pixel of the strip: an independent red, green and blue level.
#[derive(Clone, Copy, Debug, PartialEq, Eq, Structural)]
pub struct Rgb {
    pub r: u8,
    pub g: u8,
    pub b: u8,
}

/// A pixel that emits no light.
pub open spec fn spec_dark() -> Rgb {
    Rgb { r: 0, g: 0, b: 0 }
}

/// A pixel that emits no light.
#[verifier::when_used_as_spec(spec_dark)]
pub fn dark() -> (color: Rgb)
    ensures
        color == spec_dark(),
{
    Rgb { r: 0, g: 0, b: 0 }
}

/// The colour of the wave that fills the strip at power-up.
pub open spec fn spec_boot_wave() -> Rgb {
    Rgb { r: 60, g: 20, b: 0 }
}

/// The colour of the wave that fills the strip at power-up.
#[verifier::when_used_as_spec(spec_boot_wave)]
pub fn boot_wave() -> (color: Rgb)
    ensures
        color == spec_boot_wave(),
{
    Rgb { r: 60, g: 20, b: 0 }
}

/// The colour of the full-strip flash that ends the power-up wave.
pub open spec fn spec_boot_flash() -> Rgb {
    Rgb { r: 0, g: 0, b: 50 }
}

/// The colour of the full-strip flash that ends the power-up wave.
#[verifier::when_used_as_spec(spec_boot_flash)]
pub fn boot_flash() -> (color: Rgb)
    ensures
        color == spec_boot_flash(),
{
    Rgb { r: 0, g: 0, b: 50 }
}

/// The colour in which the profile pixel blinks while advertising.
pub open spec fn spec_advertising() -> Rgb {
    Rgb { r: 0, g: 0, b: 70 }
}

/// The colour in which the profile pixel blinks while advertising.
#[verifier::when_used_as_spec(spec_advertising)]
pub fn advertising() -> (color: Rgb)
    ensures
        color == spec_advertising(),
{
    Rgb { r: 0, g: 0, b: 70 }
}

/// The colour that confirms a connection, and of a healthy battery gauge.
pub open spec fn spec_good() -> Rgb {
    Rgb { r: 0, g: 70, b: 0 }
}

/// The colour that confirms a connection, and of a healthy battery gauge.
#[verifier::when_used_as_spec(spec_good)]
pub fn good() -> (color: Rgb)
    ensures
        color == spec_good(),
{
    Rgb { r: 0, g: 70, b: 0 }
}

/// The colour of the battery gauge when the charge is low.
pub open spec fn spec_low() -> Rgb {
    Rgb { r: 70, g: 0, b: 0 }
}

/// The colour of the battery gauge when the charge is low.
#[verifier::when_used_as_spec(spec_low)]
pub fn low() -> (color: Rgb)
    ensures
        color == spec_low(),
{
    Rgb { r: 70, g: 0, b: 0 }
}

impl Rgb {
    /// Whether any channel of the pixel is driven.
    pub open spec fn is_lit(self) -> bool {
        self.r != 0 || self.g != 0 || self.b != 0
    }
}

/// The frame of `n` pixels in which none is lit.
pub open spec fn blank(n: nat) -> Seq<Rgb> {
    Seq::new(n, |i: int| dark())
}

/// The frame of `n` pixels whose first `count` pixels show `color`; the rest
/// are dark. A `count` beyond `n` fills the frame.
pub open spec fn leading(n: nat, count: nat, color: Rgb) -> Seq<Rgb> {
    Seq::new(n, |i: int| if i < count { color } else { dark() })
}

/// The frame of `n` pixels in which the pixel at `index` alone shows `color`.
pub open spec fn single(n: nat, index: nat, color: Rgb) -> Seq<Rgb> {
    Seq::new(n, |i: int| if i == index { color } else { dark() })
}

/// Whether no pixel of the frame is lit.
pub open spec fn is_blank(frame: Seq<Rgb>) -> bool {
    forall|i: int| 0 <= i < frame.len() ==> !(#[trigger] frame[i]).is_lit()
}

/// Builds the frame in which no pixel is lit.
pub fn blank_frame<const N: usize>() -> (frame: [Rgb; N])
    ensures
        frame@ == blank(N as nat),
{
    let frame = [dark(); N];
    assert(frame@ =~= blank(N as nat));
    frame
}

/// Builds the frame whose first `count` pixels show `color`.
pub fn leading_frame<const N: usize>(count: usize, color: Rgb) -> (frame: [Rgb; N])
    ensures
        frame@ == leading(N as nat, count as nat, color),
{
    let mut frame = [dark(); N];
    let mut i: usize = 0;
    while i < N && i < count
        invariant
            i <= N,
            i <= count,
            forall|j: int| 0 <= j < i ==> frame@[j] == color,
            forall|j: int| i <= j < N ==> frame@[j] == dark(),
        decreases N - i,
    {
        frame[i] = color;
        i += 1;
    }
    assert(frame@ =~= leading(N as nat, count as nat, color));
    frame
}

/// Builds the frame in which the pixel at `index` alone shows `color`. An
/// `index` beyond the strip lights nothing.
pub fn single_frame<const N: usize>(index: usize, color: Rgb) -> (frame: [Rgb; N])
    ensures
        frame@ == single(N as nat, index as nat, color),
{
    let mut frame = [dark(); N];
    if index < N {
        frame[index] = color;
    }
    assert(frame@ =~= single(N as nat, index as nat, color));
    frame
}

} // verus!
