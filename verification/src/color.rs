//! Colours, by channel and by hue.
use vstd::prelude::*;
use crate::fixed::{Fixed, ONE, HALF, quot, add_spec, sub_spec, mul_spec, div_spec, abs_spec,
    trunc_int_spec, fx_add, fx_sub, fx_mul, fx_div, fx_abs, fx_trunc_int};

verus! {

/// A colour of four channels: red, green, blue and opacity.
#[derive(Clone, Copy, Debug, PartialEq, Eq, Structural)]
pub struct RGBColor {
    pub r: u8,
    pub g: u8,
    pub b: u8,
    pub a: u8,
}

/// A colour by hue in degrees, saturation and lightness.
#[derive(Clone, Copy, Debug, PartialEq, Eq, Structural)]
pub struct HSLColor {
    /// The hue, in degrees.
    pub h: Fixed,
    /// The saturation: 0 is grey, 1 is pure.
    pub s: Fixed,
    /// The lightness: 0 is black, 1 is white.
    pub l: Fixed,
}

/// What is left of `a` over a positive `b`, with the sign of `a`.
pub open spec fn rem_spec(a: int, b: int) -> int
    recommends
        b > 0,
{
    a - b * quot(a, b)
}

/// The channel that the fraction `v` of full intensity stands for: `v * 255`
/// without what is behind the point, held within `0..=255`.
pub open spec fn channel_spec(v: int) -> u8 {
    let scaled = trunc_int_spec(mul_spec(v, 255 * ONE));
    if scaled < 0 {
        0u8
    } else if scaled > 255 {
        255u8
    } else {
        scaled as u8
    }
}

/// The fraction of full intensity that a channel stands for.
pub open spec fn fraction_spec(channel: u8) -> int {
    div_spec(channel as int * ONE, 255 * ONE)
}

/// The lesser of two numbers.
pub open spec fn least(a: int, b: int) -> int {
    if a <= b {
        a
    } else {
        b
    }
}

/// The greater of two numbers.
pub open spec fn most(a: int, b: int) -> int {
    if a >= b {
        a
    } else {
        b
    }
}

/// The mean of two channels, rounded down.
pub open spec fn mean_spec(a: u8, b: u8) -> u8 {
    ((a + b) / 2) as u8
}

/// The mean of two channels, rounded down.
fn mean(a: u8, b: u8) -> (r: u8)
    ensures
        r == mean_spec(a, b),
        r == (a + b) / 2,
        a == b ==> r == a,
{
    ((a as u16 + b as u16) / 2) as u8
}

fn channel(v: Fixed) -> (r: u8)
    ensures
        r == channel_spec(v as int),
{
    let scaled: i64 = fx_trunc_int(fx_mul(v, 255 * ONE));
    if scaled < 0 {
        0
    } else if scaled > 255 {
        255
    } else {
        scaled as u8
    }
}

fn fraction(channel: u8) -> (r: Fixed)
    ensures
        r == fraction_spec(channel),
{
    fx_div(channel as i64 * 1_000_000, 255 * ONE)
}

fn remainder(a: Fixed, b: Fixed) -> (r: Fixed)
    requires
        b > 0,
    ensures
        r == rem_spec(a as int, b as int),
{
    proof {
        let q = quot(a as int, b as int);
        assert(a >= 0 ==> a - b * q == (a as int) % (b as int)) by (nonlinear_arith)
            requires
                b > 0,
                a >= 0 ==> q == (a as int) / (b as int),
        ;
        assert(a < 0 ==> a - b * q == -((-a) % (b as int))) by (nonlinear_arith)
            requires
                b > 0,
                a < 0 ==> q == -((-a) / (b as int)),
        ;
    }
    a % b
}

impl RGBColor {
    /// The opaque colour of the three channels.
    pub fn new(r: u8, g: u8, b: u8) -> (c: RGBColor)
        ensures
            c == (RGBColor { r, g, b, a: 255 }),
    {
        RGBColor { r, g, b, a: 255 }
    }

    /// Opaque white.
    pub fn white() -> (c: RGBColor)
        ensures
            c == (RGBColor { r: 255, g: 255, b: 255, a: 255 }),
    {
        RGBColor { r: 255, g: 255, b: 255, a: 255 }
    }

    /// The colour half way between two colours: each channel is the mean of
    /// the two, rounded down, and the opacity is that of `rhs`.
    pub open spec fn blended(self, rhs: RGBColor) -> RGBColor {
        RGBColor {
            r: mean_spec(self.r, rhs.r),
            g: mean_spec(self.g, rhs.g),
            b: mean_spec(self.b, rhs.b),
            a: rhs.a,
        }
    }

    /// Mixes `rhs` into the colour: each channel becomes the mean of the
    /// two, and the opacity that of `rhs`. A colour mixed with an equal one
    /// keeps its channels.
    pub fn blend(&mut self, rhs: &RGBColor)
        ensures
            *final(self) == old(self).blended(*rhs),
            final(self).r == (old(self).r + rhs.r) / 2,
            final(self).g == (old(self).g + rhs.g) / 2,
            final(self).b == (old(self).b + rhs.b) / 2,
            final(self).a == rhs.a,
    {
        self.r = mean(self.r, rhs.r);
        self.g = mean(self.g, rhs.g);
        self.b = mean(self.b, rhs.b);
        self.a = rhs.a;
    }

    /// The chroma of a colour: `(1 - |2l - 1|) * s`.
    pub open spec fn chroma(hsl: HSLColor) -> int {
        mul_spec(
            sub_spec(ONE as int, abs_spec(sub_spec(mul_spec(hsl.l as int, 2 * ONE), ONE as int))),
            hsl.s as int,
        )
    }

    /// The second largest component of a colour before the lightness is
    /// added: `c * (1 - |(h / 60) mod 2 - 1|)`.
    pub open spec fn second(hsl: HSLColor) -> int {
        mul_spec(
            Self::chroma(hsl),
            sub_spec(
                ONE as int,
                abs_spec(sub_spec(rem_spec(div_spec(hsl.h as int, 60 * ONE), 2 * ONE), ONE as int)),
            ),
        )
    }

    /// The opaque colour that `hsl` stands for. The sixth of the circle that
    /// the hue lies in decides which channel takes the chroma and which the
    /// second component; a hue outside `[0, 300)` counts with the last sixth.
    pub open spec fn of_hsl(hsl: HSLColor) -> RGBColor {
        let c = Self::chroma(hsl);
        let x = Self::second(hsl);
        let m = sub_spec(hsl.l as int, div_spec(c, 2 * ONE));
        let h = hsl.h;
        let (r, g, b) = if 0 <= h < 60 * ONE {
            (c, x, 0int)
        } else if 60 * ONE <= h < 120 * ONE {
            (x, c, 0int)
        } else if 120 * ONE <= h < 180 * ONE {
            (0int, c, x)
        } else if 180 * ONE <= h < 240 * ONE {
            (0int, x, c)
        } else if 240 * ONE <= h < 300 * ONE {
            (x, 0int, c)
        } else {
            (c, 0int, x)
        };
        RGBColor {
            r: channel_spec(add_spec(r, m)),
            g: channel_spec(add_spec(g, m)),
            b: channel_spec(add_spec(b, m)),
            a: 255,
        }
    }

    /// The opaque colour that `hsl` stands for.
    pub fn from_hsl(hsl: &HSLColor) -> (c: RGBColor)
        ensures
            c == Self::of_hsl(*hsl),
    {
        let c: Fixed = fx_mul(fx_sub(ONE, fx_abs(fx_sub(fx_mul(hsl.l, 2 * ONE), ONE))), hsl.s);
        let x: Fixed = fx_mul(
            c,
            fx_sub(ONE, fx_abs(fx_sub(remainder(fx_div(hsl.h, 60 * ONE), 2 * ONE), ONE))),
        );
        let m: Fixed = fx_sub(hsl.l, fx_div(c, 2 * ONE));
        let h: Fixed = hsl.h;

        let (r, g, b): (Fixed, Fixed, Fixed) = if h >= 0 && h < 60 * ONE {
            (c, x, 0)
        } else if h >= 60 * ONE && h < 120 * ONE {
            (x, c, 0)
        } else if h >= 120 * ONE && h < 180 * ONE {
            (0, c, x)
        } else if h >= 180 * ONE && h < 240 * ONE {
            (0, x, c)
        } else if h >= 240 * ONE && h < 300 * ONE {
            (x, 0, c)
        } else {
            (c, 0, x)
        };

        RGBColor {
            r: channel(fx_add(r, m)),
            g: channel(fx_add(g, m)),
            b: channel(fx_add(b, m)),
            a: 255,
        }
    }
}

impl HSLColor {
    /// The colour of the three components.
    pub fn new(h: Fixed, s: Fixed, l: Fixed) -> (c: HSLColor)
        ensures
            c == (HSLColor { h, s, l }),
    {
        HSLColor { h, s, l }
    }

    /// The hue, saturation and lightness of `rgb`; its opacity is not read.
    ///
    /// The lightness is the mean of the least and the greatest channel. A
    /// grey has hue and saturation 0. Otherwise the saturation is the spread
    /// of the channels over their sum, or over two less their sum where the
    /// colour is light, and the hue is sixty degrees times the place of the
    /// colour between the two channels next to the greatest one, so that a hue
    /// just below red is negative.
    pub open spec fn of_rgb(rgb: RGBColor) -> HSLColor {
        let r = fraction_spec(rgb.r);
        let g = fraction_spec(rgb.g);
        let b = fraction_spec(rgb.b);
        let lo = least(r, least(g, b));
        let hi = most(r, most(g, b));
        let l = div_spec(add_spec(lo, hi), 2 * ONE);
        if lo == hi {
            HSLColor { h: 0, s: 0, l: l as i64 }
        } else {
            let spread = sub_spec(hi, lo);
            let s = if l < HALF {
                div_spec(spread, add_spec(hi, lo))
            } else {
                div_spec(spread, sub_spec(sub_spec(2 * ONE, hi), lo))
            };
            let place = if r == hi {
                div_spec(sub_spec(g, b), spread)
            } else if g == hi {
                add_spec(2 * ONE, div_spec(sub_spec(b, r), spread))
            } else {
                add_spec(4 * ONE, div_spec(sub_spec(r, g), spread))
            };
            HSLColor { h: mul_spec(place, 60 * ONE) as i64, s: s as i64, l: l as i64 }
        }
    }

    /// The hue, saturation and lightness of `rgb`.
    pub fn from_rgb(rgb: &RGBColor) -> (c: HSLColor)
        ensures
            c == Self::of_rgb(*rgb),
    {
        let r: Fixed = fraction(rgb.r);
        let g: Fixed = fraction(rgb.g);
        let b: Fixed = fraction(rgb.b);

        let gb_min: Fixed = if g <= b { g } else { b };
        let gb_max: Fixed = if g >= b { g } else { b };
        let min: Fixed = if r <= gb_min { r } else { gb_min };
        let max: Fixed = if r >= gb_max { r } else { gb_max };

        let mut h: Fixed = 0;
        let mut s: Fixed = 0;
        let l: Fixed = fx_div(fx_add(min, max), 2 * ONE);

        if min != max {
            let spread: Fixed = fx_sub(max, min);
            s = if l < HALF {
                fx_div(spread, fx_add(max, min))
            } else {
                fx_div(spread, fx_sub(fx_sub(2 * ONE, max), min))
            };
            let place: Fixed = if r == max {
                fx_div(fx_sub(g, b), spread)
            } else if g == max {
                fx_add(2 * ONE, fx_div(fx_sub(b, r), spread))
            } else {
                fx_add(4 * ONE, fx_div(fx_sub(r, g), spread))
            };
            h = fx_mul(place, 60 * ONE);
        }
        HSLColor { h, s, l }
    }

    /// The sum of two colours, component by component; the hue is taken
    /// modulo 361 degrees.
    pub open spec fn sum(self, rhs: HSLColor) -> HSLColor {
        HSLColor {
            h: rem_spec(add_spec(self.h as int, rhs.h as int), 361 * ONE) as i64,
            s: add_spec(self.s as int, rhs.s as int) as i64,
            l: add_spec(self.l as int, rhs.l as int) as i64,
        }
    }

    /// The sum of two colours, component by component; the hue is taken
    /// modulo 361 degrees.
    pub fn add(self, rhs: HSLColor) -> (c: HSLColor)
        ensures
            c == self.sum(rhs),
    {
        HSLColor {
            h: remainder(fx_add(self.h, rhs.h), 361 * ONE),
            s: fx_add(self.s, rhs.s),
            l: fx_add(self.l, rhs.l),
        }
    }
}

impl Default for HSLColor {
    fn default() -> (c: HSLColor)
        ensures
            c == (HSLColor { h: 0, s: 0, l: 0 }),
    {
        HSLColor { h: 0, s: 0, l: 0 }
    }
}

/// A colour mixed with a colour of the same channels keeps its channels,
/// and no mixing leaves the range between the two colours.
pub proof fn lemma_blend_stays_between(c: RGBColor, rhs: RGBColor)
    ensures
        least(c.r as int, rhs.r as int) <= c.blended(rhs).r <= most(c.r as int, rhs.r as int),
        least(c.g as int, rhs.g as int) <= c.blended(rhs).g <= most(c.g as int, rhs.g as int),
        least(c.b as int, rhs.b as int) <= c.blended(rhs).b <= most(c.b as int, rhs.b as int),
        c.r == rhs.r && c.g == rhs.g && c.b == rhs.b ==> c.blended(rhs) == rhs,
{
}

} // verus!
