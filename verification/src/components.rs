//! Replicated player state.
//!
//! A [`PlayerRecord`] is the authoritative per-player state: position,
//! velocity, grounded flag, color and (in multiplayer) the owning client.
//! Coordinates and velocities are fixed-point `i64` values in thousandths;
//! color channels are thousandths in `[0, 1000]`.

use vstd::prelude::*;

use crate::protocol::{COORD_LIMIT, GROUNDED_Y, MAX_X};

verus! {

/// A two-dimensional fixed-point vector, in thousandths of a pixel
/// (or of a pixel per second, for velocities).
#[derive(Clone, Copy, PartialEq, Eq, Structural, Debug)]
pub struct Vec2 {
    pub x: i64,
    pub y: i64,
}

impl Vec2 {
    /// The zero vector.
    pub fn zero() -> (v: Vec2)
        ensures
            v.x == 0 && v.y == 0,
    {
        Vec2 { x: 0, y: 0 }
    }
}

/// An RGBA color; each channel holds thousandths of full intensity,
/// so `1000` is full and `0` is none.
#[derive(Clone, Copy, PartialEq, Eq, Structural, Debug)]
pub struct Rgba {
    pub r: u32,
    pub g: u32,
    pub b: u32,
    pub a: u32,
}

/// The magnitude of `v`.
pub open spec fn abs_val(v: int) -> int {
    if v < 0 {
        -v
    } else {
        v
    }
}

/// Chroma of an HSL color, in thousandths.
pub open spec fn hsl_chroma(s: int, l: int) -> int {
    ((1000 - abs_val(2 * l - 1000)) * s) / 1000
}

/// Secondary component of an HSL color, in thousandths; `h` is in
/// thousandths of a degree.
pub open spec fn hsl_second(h: int, s: int, l: int) -> int {
    (hsl_chroma(s, l) * (1000 - abs_val((h / 60) % 2000 - 1000))) / 1000
}

/// Lightness offset added to every channel, in thousandths.
pub open spec fn hsl_offset(s: int, l: int) -> int {
    l - hsl_chroma(s, l) / 2
}

/// The red, green and blue channels, before the lightness offset, of the
/// HSL color `(h, s, l)`: the hue's sixth of the color wheel picks how
/// chroma and the secondary component are laid out.
pub open spec fn hsl_base(h: int, s: int, l: int) -> (int, int, int) {
    let c = hsl_chroma(s, l);
    let x = hsl_second(h, s, l);
    if h < 60_000 {
        (c, x, 0)
    } else if h < 120_000 {
        (x, c, 0)
    } else if h < 180_000 {
        (0, c, x)
    } else if h < 240_000 {
        (0, x, c)
    } else if h < 300_000 {
        (x, 0, c)
    } else {
        (c, 0, x)
    }
}

/// The RGBA color, in thousandths per channel, of the HSL color
/// `(h, s, l)`; alpha is always full.
pub open spec fn hsl_to_rgba(h: int, s: int, l: int) -> Rgba {
    let (r, g, b) = hsl_base(h, s, l);
    let m = hsl_offset(s, l);
    Rgba {
        r: (r + m) as u32,
        g: (g + m) as u32,
        b: (b + m) as u32,
        a: 1000u32,
    }
}

impl Rgba {
    /// Every channel is at most full intensity.
    pub open spec fn wf(self) -> bool {
        self.r <= 1000 && self.g <= 1000 && self.b <= 1000 && self.a <= 1000
    }

    /// A color from its four channels.
    pub fn new(r: u32, g: u32, b: u32, a: u32) -> (c: Rgba)
        ensures
            c == (Rgba { r, g, b, a }),
    {
        Rgba { r, g, b, a }
    }

    /// The canonical HSL to RGB conversion, on thousandth units: `h` is in
    /// thousandths of a degree below 360 degrees, `s` and `l` in
    /// thousandths of full scale. Alpha is always full.
    pub fn from_hsl(h: u32, s: u32, l: u32) -> (c: Rgba)
        requires
            h < 360_000,
            s <= 1000,
            l <= 1000,
        ensures
            c == hsl_to_rgba(h as int, s as int, l as int),
            c.wf(),
    {
        let two_l: u32 = 2 * l;
        let dl: u32 = if two_l >= 1000 {
            two_l - 1000
        } else {
            1000 - two_l
        };
        proof {
            assert((1000 - dl) * s <= 1_000_000) by (nonlinear_arith)
                requires
                    dl <= 1000,
                    s <= 1000,
            ;
        }
        let c: u32 = (1000 - dl) * s / 1000;
        let sixth: u32 = h / 60;
        let dh: u32 = if sixth % 2000 >= 1000 {
            sixth % 2000 - 1000
        } else {
            1000 - sixth % 2000
        };
        proof {
            assert(c * (1000 - dh) <= 1_000_000) by (nonlinear_arith)
                requires
                    c <= 1000,
                    dh <= 1000,
            ;
        }
        let x: u32 = c * (1000 - dh) / 1000;
        proof {
            lemma_hsl_channel_bounds(h as int, s as int, l as int);
            assert(c == hsl_chroma(s as int, l as int));
            assert(x == hsl_second(h as int, s as int, l as int));
        }
        let m: u32 = l - c / 2;
        assert(m == hsl_offset(s as int, l as int));
        let (rp, gp, bp): (u32, u32, u32) = if h < 60_000 {
            (c, x, 0)
        } else if h < 120_000 {
            (x, c, 0)
        } else if h < 180_000 {
            (0, c, x)
        } else if h < 240_000 {
            (0, x, c)
        } else if h < 300_000 {
            (x, 0, c)
        } else {
            (c, 0, x)
        };
        Rgba { r: rp + m, g: gp + m, b: bp + m, a: 1000 }
    }
}

/// Chroma, the secondary component and the lightness offset all lie in
/// `[0, 1000]`, chroma dominates the secondary component, and a channel
/// never exceeds full intensity.
pub proof fn lemma_hsl_channel_bounds(h: int, s: int, l: int)
    requires
        0 <= h < 360_000,
        0 <= s <= 1000,
        0 <= l <= 1000,
    ensures
        0 <= hsl_chroma(s, l) <= 1000,
        0 <= hsl_second(h, s, l) <= hsl_chroma(s, l),
        0 <= hsl_offset(s, l) <= l,
        hsl_chroma(s, l) + hsl_offset(s, l) <= 1000,
{
    let c = hsl_chroma(s, l);
    let x = hsl_second(h, s, l);
    let m = hsl_offset(s, l);
    let dl = abs_val(2 * l - 1000);
    assert(0 <= c <= 1000 && c <= 2 * l && c <= 2000 - 2 * l) by (nonlinear_arith)
        requires
            c == ((1000 - dl) * s) / 1000,
            dl == abs_val(2 * l - 1000),
            0 <= s <= 1000,
            0 <= l <= 1000,
    ;
    let dh = abs_val((h / 60) % 2000 - 1000);
    assert(0 <= dh <= 1000);
    assert(0 <= x <= c) by (nonlinear_arith)
        requires
            x == (c * (1000 - dh)) / 1000,
            0 <= dh <= 1000,
            0 <= c <= 1000,
    ;
    assert(0 <= c / 2 <= l && c + (l - c / 2) <= 1000) by (nonlinear_arith)
        requires
            0 <= c <= 2 * l,
            c <= 2000 - 2 * l,
            0 <= l <= 1000,
    ;
}

/// One player's authoritative state. In multiplayer, `owner` names the
/// client whose inputs drive this record; the single-player record has
/// no owner.
#[derive(Clone, Copy, PartialEq, Eq, Debug)]
pub struct PlayerRecord {
    pub position: Vec2,
    pub velocity: Vec2,
    pub grounded: bool,
    pub color: Rgba,
    pub owner: Option<u64>,
}

impl PlayerRecord {
    /// The physical invariants a record satisfies after every step: it
    /// rests on or above the ground, within the horizontal bounds, and a
    /// grounded record sits exactly on the ground with no vertical motion.
    pub open spec fn phys_wf(self) -> bool {
        &&& self.position.y >= GROUNDED_Y
        &&& -MAX_X <= self.position.x <= MAX_X
        &&& self.grounded ==> self.velocity.y == 0 && self.position.y == GROUNDED_Y
    }

    /// Coordinates and velocities small enough for one fixed-point physics
    /// step to be computed without overflow.
    pub open spec fn in_bounds(self) -> bool {
        &&& -COORD_LIMIT <= self.position.x <= COORD_LIMIT
        &&& -COORD_LIMIT <= self.position.y <= COORD_LIMIT
        &&& -COORD_LIMIT <= self.velocity.x <= COORD_LIMIT
        &&& -COORD_LIMIT <= self.velocity.y <= COORD_LIMIT
    }
}

} // verus!
