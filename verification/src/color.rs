//! 8-bit RGBA device color.

use vstd::prelude::*;
use crate::units::{FloatValue, MAX_SCALED, FP_SCALE};

verus! {

/// Alpha value of a fully transparent channel.
pub const ALPHA_TRANSPARENT: u8 = 0;

/// Alpha value of a fully opaque channel.
pub const ALPHA_OPAQUE: u8 = 255;

/// u8-based color, each channel in the range 0 to 255.
#[derive(Debug, Copy, Clone, PartialEq, Eq, PartialOrd, Ord, Hash, Structural)]
pub struct ColorU {
    pub r: u8,
    pub g: u8,
    pub b: u8,
    pub a: u8,
}

/// Division rounding half away from zero, for a positive divisor.
pub open spec fn round_half_away(n: int, d: int) -> int
    recommends
        d > 0,
{
    if n >= 0 {
        (n + d / 2) / d
    } else {
        -((-n + d / 2) / d)
    }
}

/// Clamp into the range of one color channel.
pub open spec fn clamp_channel(x: int) -> int {
    if x < 0 {
        0
    } else if x > 255 {
        255
    } else {
        x
    }
}

/// One channel of a blended color: the linear blend `a + (b - a) * t`
/// (with `t` scaled by 1000), rounded to the nearest integer with ties
/// away from zero, clamped into the channel range.
pub open spec fn interp_channel(a: int, b: int, t: int) -> int {
    clamp_channel(round_half_away(a * FP_SCALE + (b - a) * t, FP_SCALE as int))
}

/// Blending a channel with itself gives the channel back, whatever the
/// blend factor.
pub proof fn lemma_interp_channel_identity(a: int, t: int)
    requires
        0 <= a <= 255,
    ensures
        interp_channel(a, a, t) == a,
{
    let x = a * FP_SCALE + 500;
    vstd::arithmetic::div_mod::lemma_fundamental_div_mod_converse(x, FP_SCALE as int, a, 500);
}

fn interp_channel_exec(a: u8, b: u8, t: i64) -> (r: u8)
    requires
        -MAX_SCALED <= t <= MAX_SCALED,
    ensures
        r as int == interp_channel(a as int, b as int, t as int),
{
    let diff: i64 = b as i64 - a as i64;
    proof {
        crate::units::lemma_mul_bound(diff as int, t as int, 255, MAX_SCALED as int);
    }
    let n: i64 = a as i64 * FP_SCALE + diff * t;
    let rounded: i64 = if n >= 0 {
        (n + 500) / FP_SCALE
    } else {
        -((-n + 500) / FP_SCALE)
    };
    if rounded < 0 {
        0
    } else if rounded > 255 {
        255
    } else {
        rounded as u8
    }
}

impl ColorU {
    pub fn new_rgb(r: u8, g: u8, b: u8) -> (c: Self)
        ensures
            c == (ColorU { r, g, b, a: 255u8 }),
    {
        Self { r, g, b, a: 255 }
    }

    /// Opaque red.
    pub fn red() -> (c: Self)
        ensures
            c == (ColorU { r: 255u8, g: 0u8, b: 0u8, a: 255u8 }),
    {
        Self { r: 255, g: 0, b: 0, a: ALPHA_OPAQUE }
    }

    /// Opaque green.
    pub fn green() -> (c: Self)
        ensures
            c == (ColorU { r: 0u8, g: 255u8, b: 0u8, a: 255u8 }),
    {
        Self { r: 0, g: 255, b: 0, a: ALPHA_OPAQUE }
    }

    /// Opaque blue.
    pub fn blue() -> (c: Self)
        ensures
            c == (ColorU { r: 0u8, g: 0u8, b: 255u8, a: 255u8 }),
    {
        Self { r: 0, g: 0, b: 255, a: ALPHA_OPAQUE }
    }

    /// Opaque white.
    pub fn white() -> (c: Self)
        ensures
            c == (ColorU { r: 255u8, g: 255u8, b: 255u8, a: 255u8 }),
    {
        Self { r: 255, g: 255, b: 255, a: ALPHA_OPAQUE }
    }

    /// Opaque black.
    pub fn black() -> (c: Self)
        ensures
            c == (ColorU { r: 0u8, g: 0u8, b: 0u8, a: 255u8 }),
    {
        Self { r: 0, g: 0, b: 0, a: ALPHA_OPAQUE }
    }

    /// Fully transparent black.
    pub fn transparent() -> (c: Self)
        ensures
            c == (ColorU { r: 0u8, g: 0u8, b: 0u8, a: 0u8 }),
    {
        Self { r: 0, g: 0, b: 0, a: ALPHA_TRANSPARENT }
    }

    /// Independent per-channel linear blend, each channel rounded to the
    /// nearest integer with ties away from zero, without gamma correction.
    /// Blending a color with itself gives the color back.
    pub fn interpolate(&self, other: &Self, t: &FloatValue) -> (c: Self)
        requires
            t.wf(),
        ensures
            c.r as int == interp_channel(self.r as int, other.r as int, t.0 as int),
            c.g as int == interp_channel(self.g as int, other.g as int, t.0 as int),
            c.b as int == interp_channel(self.b as int, other.b as int, t.0 as int),
            c.a as int == interp_channel(self.a as int, other.a as int, t.0 as int),
            other == self ==> c == *self,
    {
        proof {
            if other == self {
                lemma_interp_channel_identity(self.r as int, t.0 as int);
                lemma_interp_channel_identity(self.g as int, t.0 as int);
                lemma_interp_channel_identity(self.b as int, t.0 as int);
                lemma_interp_channel_identity(self.a as int, t.0 as int);
            }
        }
        Self {
            r: interp_channel_exec(self.r, other.r, t.0),
            g: interp_channel_exec(self.g, other.g, t.0),
            b: interp_channel_exec(self.b, other.b, t.0),
            a: interp_channel_exec(self.a, other.a, t.0),
        }
    }

    /// Whether the color is not fully opaque.
    pub fn has_alpha(&self) -> (r: bool)
        ensures
            r == (self.a != 255),
    {
        self.a != ALPHA_OPAQUE
    }
}

impl Default for ColorU {
    /// Opaque black.
    fn default() -> (c: Self)
        ensures
            c == (ColorU { r: 0u8, g: 0u8, b: 0u8, a: 255u8 }),
    {
        ColorU::black()
    }
}

/// The lowercase hexadecimal digit of a value below 16.
pub open spec fn hex_digit_char(d: int) -> char {
    if d == 0 {
        '0'
    } else if d == 1 {
        '1'
    } else if d == 2 {
        '2'
    } else if d == 3 {
        '3'
    } else if d == 4 {
        '4'
    } else if d == 5 {
        '5'
    } else if d == 6 {
        '6'
    } else if d == 7 {
        '7'
    } else if d == 8 {
        '8'
    } else if d == 9 {
        '9'
    } else if d == 10 {
        'a'
    } else if d == 11 {
        'b'
    } else if d == 12 {
        'c'
    } else if d == 13 {
        'd'
    } else if d == 14 {
        'e'
    } else {
        'f'
    }
}

/// Two lowercase hexadecimal digits of a channel value.
pub open spec fn hex_pair(n: int) -> Seq<char> {
    seq![hex_digit_char(n / 16), hex_digit_char(n % 16)]
}

/// The canonical text form of a color: `#rrggbbaa`, lowercase.
pub open spec fn spec_color_hash(c: ColorU) -> Seq<char> {
    seq!['#'] + hex_pair(c.r as int) + hex_pair(c.g as int) + hex_pair(c.b as int) + hex_pair(
        c.a as int,
    )
}

fn hex_digit_str(d: u8) -> (r: &'static str)
    requires
        d < 16,
    ensures
        r@ =~= seq![hex_digit_char(d as int)],
{
    proof {
        reveal_strlit("0");
        reveal_strlit("1");
        reveal_strlit("2");
        reveal_strlit("3");
        reveal_strlit("4");
        reveal_strlit("5");
        reveal_strlit("6");
        reveal_strlit("7");
        reveal_strlit("8");
        reveal_strlit("9");
        reveal_strlit("a");
        reveal_strlit("b");
        reveal_strlit("c");
        reveal_strlit("d");
        reveal_strlit("e");
        reveal_strlit("f");
    }
    match d {
        0 => "0",
        1 => "1",
        2 => "2",
        3 => "3",
        4 => "4",
        5 => "5",
        6 => "6",
        7 => "7",
        8 => "8",
        9 => "9",
        10 => "a",
        11 => "b",
        12 => "c",
        13 => "d",
        14 => "e",
        _ => "f",
    }
}

fn append_hex_pair(s: &mut String, n: u8)
    ensures
        final(s)@ == old(s)@ + hex_pair(n as int),
{
    s.append(hex_digit_str(n / 16));
    s.append(hex_digit_str(n % 16));
    proof {
        assert(s@ =~= old(s)@ + hex_pair(n as int));
    }
}

impl ColorU {
    /// The canonical text form `#rrggbbaa`, lowercase.
    pub fn to_hash(&self) -> (r: String)
        ensures
            r@ == spec_color_hash(*self),
    {
        proof {
            reveal_strlit("#");
        }
        let mut s = String::new();
        s.append("#");
        append_hex_pair(&mut s, self.r);
        append_hex_pair(&mut s, self.g);
        append_hex_pair(&mut s, self.b);
        append_hex_pair(&mut s, self.a);
        proof {
            assert(s@ =~= spec_color_hash(*self));
        }
        s
    }
}

} // verus!
