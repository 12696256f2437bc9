use vstd::prelude::*;

verus! {

/// The largest value of a color channel.
pub const CHANNEL_MAX: u8 = 255;

/// A color of three 8-bit channels.
#[derive(Clone, Copy, Debug, PartialEq, Eq, Structural)]
pub struct RGBColor {
    pub r: u8,
    pub g: u8,
    pub b: u8,
}

/// One channel scaled by the fraction `num / den`, rounded down and clamped
/// to the channel's range.
pub open spec fn scaled_channel(c: u8, num: nat, den: nat) -> nat
    recommends
        den > 0,
{
    let v = (c as nat) * num / den;
    if v > CHANNEL_MAX as nat {
        CHANNEL_MAX as nat
    } else {
        v
    }
}

/// A color whose channels are all scaled by the fraction `num / den`.
pub open spec fn scaled_color(c: RGBColor, num: nat, den: nat) -> RGBColor
    recommends
        den > 0,
{
    RGBColor {
        r: scaled_channel(c.r, num, den) as u8,
        g: scaled_channel(c.g, num, den) as u8,
        b: scaled_channel(c.b, num, den) as u8,
    }
}

/// Scaling by a larger fraction never gives a smaller channel.
pub proof fn lemma_scaled_channel_monotone(c: u8, num1: nat, num2: nat, den: nat)
    requires
        den > 0,
        num1 <= num2,
    ensures
        scaled_channel(c, num1, den) <= scaled_channel(c, num2, den),
{
    assert((c as nat) * num1 <= (c as nat) * num2) by (nonlinear_arith)
        requires
            num1 <= num2,
    ;
    vstd::arithmetic::div_mod::lemma_div_is_ordered(
        ((c as nat) * num1) as int,
        ((c as nat) * num2) as int,
        den as int,
    );
}

/// Lighting is monotone: of two shadings of the same color, the one with the
/// stronger light intensity has every channel at least as bright.
pub proof fn lemma_light_monotone(c: RGBColor, weaker: nat, stronger: nat, den: nat)
    requires
        den > 0,
        weaker <= stronger,
    ensures
        scaled_color(c, weaker, den).r <= scaled_color(c, stronger, den).r,
        scaled_color(c, weaker, den).g <= scaled_color(c, stronger, den).g,
        scaled_color(c, weaker, den).b <= scaled_color(c, stronger, den).b,
{
    lemma_scaled_channel_monotone(c.r, weaker, stronger, den);
    lemma_scaled_channel_monotone(c.g, weaker, stronger, den);
    lemma_scaled_channel_monotone(c.b, weaker, stronger, den);
}

fn scale_channel(c: u8, num: u64, den: u64) -> (r: u8)
    requires
        den > 0,
    ensures
        r as nat == scaled_channel(c, num as nat, den as nat),
{
    assert((c as nat) * (num as nat) <= 255 * 0xffff_ffff_ffff_ffff) by (nonlinear_arith)
        requires
            c <= 255,
            num <= 0xffff_ffff_ffff_ffff,
    ;
    let prod: u128 = (c as u128) * (num as u128);
    let v: u128 = prod / (den as u128);
    if v > CHANNEL_MAX as u128 {
        CHANNEL_MAX
    } else {
        v as u8
    }
}

impl RGBColor {
    pub fn new(r: u8, g: u8, b: u8) -> (c: RGBColor)
        ensures
            c.r == r,
            c.g == g,
            c.b == b,
    {
        RGBColor { r, g, b }
    }

    pub fn black() -> (c: RGBColor)
        ensures
            c == (RGBColor { r: 0, g: 0, b: 0 }),
    {
        RGBColor { r: 0, g: 0, b: 0 }
    }

    pub fn red() -> (c: RGBColor)
        ensures
            c == (RGBColor { r: 255, g: 0, b: 0 }),
    {
        RGBColor { r: 255, g: 0, b: 0 }
    }

    pub fn green() -> (c: RGBColor)
        ensures
            c == (RGBColor { r: 0, g: 255, b: 0 }),
    {
        RGBColor { r: 0, g: 255, b: 0 }
    }

    pub fn blue() -> (c: RGBColor)
        ensures
            c == (RGBColor { r: 0, g: 0, b: 255 }),
    {
        RGBColor { r: 0, g: 0, b: 255 }
    }

    pub fn yellow() -> (c: RGBColor)
        ensures
            c == (RGBColor { r: 255, g: 255, b: 0 }),
    {
        RGBColor { r: 255, g: 255, b: 0 }
    }

    pub fn dark_gray() -> (c: RGBColor)
        ensures
            c == (RGBColor { r: 64, g: 64, b: 64 }),
    {
        RGBColor { r: 64, g: 64, b: 64 }
    }

    /// Darkens (or brightens) the color uniformly by the light intensity
    /// `num / den`: each channel is multiplied by it, rounded down and
    /// clamped to the channel's range.
    pub fn adjust_light_intensity(&self, num: u64, den: u64) -> (c: RGBColor)
        requires
            den > 0,
        ensures
            c == scaled_color(*self, num as nat, den as nat),
    {
        RGBColor {
            r: scale_channel(self.r, num, den),
            g: scale_channel(self.g, num, den),
            b: scale_channel(self.b, num, den),
        }
    }
}

} // verus!
