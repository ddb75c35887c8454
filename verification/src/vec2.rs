//! A two-dimensional vector of pixel coordinates.
//!
//! Positions and velocities are whole pixels.  Componentwise addition and
//! subtraction saturate at the machine limits of `i64`, so the operations are
//! total; every in-range result is the exact mathematical one.

use vstd::prelude::*;

verus! {

/// The largest coordinate magnitude the simulation works with.  Arena
/// geometry is a few hundred pixels, so this bound is generous; it exists so
/// that collision arithmetic provably stays inside `i64`.
pub const COORD_BOUND: i64 = 1_000_000_000_000;

/// Clips a mathematical integer to the range of `i64`.
pub open spec fn sat64(x: int) -> int {
    if x > i64::MAX {
        i64::MAX as int
    } else if x < i64::MIN {
        i64::MIN as int
    } else {
        x
    }
}

/// A 2D vector; `x` grows to the right, `y` grows downwards.
#[derive(Clone, Copy, Debug, PartialEq, Eq, Structural)]
pub struct Vec2 {
    pub x: i64,
    pub y: i64,
}

/// `i64` addition that saturates instead of overflowing.
fn sat_add_i64(a: i64, b: i64) -> (r: i64)
    ensures
        r == sat64(a + b),
{
    if b >= 0 {
        if a > i64::MAX - b {
            i64::MAX
        } else {
            a + b
        }
    } else {
        if a < i64::MIN - b {
            i64::MIN
        } else {
            a + b
        }
    }
}

/// `i64` subtraction that saturates instead of overflowing.
fn sat_sub_i64(a: i64, b: i64) -> (r: i64)
    ensures
        r == sat64(a - b),
{
    if b >= 0 {
        if a < i64::MIN + b {
            i64::MIN
        } else {
            a - b
        }
    } else {
        if a > i64::MAX + b {
            i64::MAX
        } else {
            a - b
        }
    }
}

impl Vec2 {
    /// Both components within [`COORD_BOUND`]; enough room that one frame of
    /// collision arithmetic cannot overflow.
    pub open spec fn in_bounds(self) -> bool {
        &&& -COORD_BOUND <= self.x <= COORD_BOUND
        &&& -COORD_BOUND <= self.y <= COORD_BOUND
    }

    /// Constructor.
    pub fn new(x: i64, y: i64) -> (r: Vec2)
        ensures
            r == (Vec2 { x, y }),
    {
        Vec2 { x, y }
    }

    /// Componentwise sum, saturating at the `i64` limits.
    pub fn add(&self, rhs: &Vec2) -> (r: Vec2)
        ensures
            r.x == sat64(self.x + rhs.x),
            r.y == sat64(self.y + rhs.y),
    {
        Vec2 { x: sat_add_i64(self.x, rhs.x), y: sat_add_i64(self.y, rhs.y) }
    }

    /// Componentwise difference, saturating at the `i64` limits.
    pub fn sub(&self, rhs: &Vec2) -> (r: Vec2)
        ensures
            r.x == sat64(self.x - rhs.x),
            r.y == sat64(self.y - rhs.y),
    {
        Vec2 { x: sat_sub_i64(self.x, rhs.x), y: sat_sub_i64(self.y, rhs.y) }
    }

    /// In-place saturating sum.
    pub fn add_assign(&mut self, rhs: &Vec2)
        ensures
            final(self).x == sat64(old(self).x + rhs.x),
            final(self).y == sat64(old(self).y + rhs.y),
    {
        self.x = sat_add_i64(self.x, rhs.x);
        self.y = sat_add_i64(self.y, rhs.y);
    }

    /// In-place saturating difference.
    pub fn sub_assign(&mut self, rhs: &Vec2)
        ensures
            final(self).x == sat64(old(self).x - rhs.x),
            final(self).y == sat64(old(self).y - rhs.y),
    {
        self.x = sat_sub_i64(self.x, rhs.x);
        self.y = sat_sub_i64(self.y, rhs.y);
    }

    /// Scaling by a scalar, componentwise.
    pub fn scale(&self, rhs: i64) -> (r: Vec2)
        requires
            i64::MIN <= self.x * rhs <= i64::MAX,
            i64::MIN <= self.y * rhs <= i64::MAX,
        ensures
            r.x == self.x * rhs,
            r.y == self.y * rhs,
    {
        Vec2 { x: self.x * rhs, y: self.y * rhs }
    }

    /// In-place scaling by a scalar.
    pub fn scale_assign(&mut self, rhs: i64)
        requires
            i64::MIN <= old(self).x * rhs <= i64::MAX,
            i64::MIN <= old(self).y * rhs <= i64::MAX,
        ensures
            final(self).x == old(self).x * rhs,
            final(self).y == old(self).y * rhs,
    {
        self.x = self.x * rhs;
        self.y = self.y * rhs;
    }

    /// Componentwise division by a scalar, truncating towards zero as the
    /// machine does.  The excluded values are machine limits: a zero
    /// divisor has no quotient and `i64::MIN` no magnitude.
    pub fn div(&self, rhs: i64) -> (r: Vec2)
        requires
            rhs != 0,
            self.x != i64::MIN,
            self.y != i64::MIN,
        ensures
            r.x == trunc_div(self.x as int, rhs as int),
            r.y == trunc_div(self.y as int, rhs as int),
    {
        Vec2 { x: div_trunc_i64(self.x, rhs), y: div_trunc_i64(self.y, rhs) }
    }

    /// In-place division by a scalar, truncating towards zero.
    pub fn div_assign(&mut self, rhs: i64)
        requires
            rhs != 0,
            old(self).x != i64::MIN,
            old(self).y != i64::MIN,
        ensures
            final(self).x == trunc_div(old(self).x as int, rhs as int),
            final(self).y == trunc_div(old(self).y as int, rhs as int),
    {
        self.x = div_trunc_i64(self.x, rhs);
        self.y = div_trunc_i64(self.y, rhs);
    }

    /// Generate a vector of the given horizontal speed pointing in a random
    /// direction: the x component keeps the full magnitude with its sign
    /// chosen by a fair coin flip, and the y component is drawn uniformly
    /// with a strictly smaller magnitude, so the direction stays strictly
    /// within an eighth turn of the horizontal axis.
    pub fn random_with_magnitude(magnitude: i64, rng: &mut rand::rngs::ThreadRng) -> (r: Vec2)
        requires
            0 < magnitude <= COORD_BOUND,
        ensures
            r.x == magnitude || r.x == -magnitude,
            -magnitude < r.y < magnitude,
            r.in_bounds(),
    {
        let y = crate::rng::int_in_range(rng, -(magnitude - 1), magnitude - 1);
        let flip = crate::rng::coin_flip(rng);
        Vec2 { x: if flip { -magnitude } else { magnitude }, y }
    }
}

/// Division as the machine rounds it: the quotient truncated towards zero,
/// written over the Euclidean operators of specifications.
pub open spec fn trunc_div(a: int, b: int) -> int {
    let aa = if a < 0 { -a } else { a };
    let bb = if b < 0 { -b } else { b };
    if (a < 0) == (b < 0) {
        aa / bb
    } else {
        -(aa / bb)
    }
}

/// `i64` division truncating towards zero.  Ruling out `i64::MIN` as a
/// dividend is a machine limit: its magnitude has no `i64` counterpart.
fn div_trunc_i64(a: i64, b: i64) -> (r: i64)
    requires
        b != 0,
        a != i64::MIN,
    ensures
        r == trunc_div(a as int, b as int),
{
    if b == i64::MIN {
        // The divisor's magnitude exceeds any allowed dividend's.
        return 0;
    }
    let neg = (a < 0) != (b < 0);
    let aa: i64 = if a < 0 {
        -a
    } else {
        a
    };
    let bb: i64 = if b < 0 {
        -b
    } else {
        b
    };
    let q = aa / bb;
    if neg {
        -q
    } else {
        q
    }
}

/// The center of the screen, the default position.
pub open spec fn screen_center() -> Vec2 {
    Vec2 {
        x: (crate::scene::SCREEN_WIDTH / 2) as i64,
        y: (crate::scene::SCREEN_HEIGHT / 2) as i64,
    }
}

impl Default for Vec2 {
    /// Generates a default vec2, which sits at the center of the screen.
    fn default() -> (r: Vec2)
        ensures
            r == screen_center(),
            r.in_bounds(),
    {
        Vec2 { x: 400, y: 300 }
    }
}

} // verus!
