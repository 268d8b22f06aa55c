//! Three-dimensional positions in fixed-point millionths of a length unit.
use vstd::prelude::*;

use crate::decimal::Fixed;

verus! {

pub open spec fn fits_i64(v: int) -> bool {
    i64::MIN <= v <= i64::MAX
}

/// Division of `a` by a positive `k`, rounding toward zero.
pub open spec fn div_toward_zero(a: int, k: int) -> int {
    if a >= 0 {
        a / k
    } else {
        -((-a) / k)
    }
}

/// A point or offset `(x, y, z)`.
#[derive(Clone, Copy, Debug, PartialEq, Eq, Structural)]
pub struct Position {
    pub x: Fixed,
    pub y: Fixed,
    pub z: Fixed,
}

impl Position {
    pub open spec fn in_range(self) -> bool {
        self.x.in_range() && self.y.in_range() && self.z.in_range()
    }

    /// The coordinates as integers of millionths.
    pub open spec fn coords(self) -> (int, int, int) {
        (self.x.raw as int, self.y.raw as int, self.z.raw as int)
    }

    pub fn is_in_range(&self) -> (r: bool)
        ensures
            r == self.in_range(),
    {
        self.x.is_in_range() && self.y.is_in_range() && self.z.is_in_range()
    }

    pub fn zero() -> (r: Position)
        ensures
            r.coords() == (0int, 0int, 0int),
    {
        Position { x: Fixed::zero(), y: Fixed::zero(), z: Fixed::zero() }
    }

    pub fn neg(self) -> (r: Position)
        requires
            self.x.raw > i64::MIN,
            self.y.raw > i64::MIN,
            self.z.raw > i64::MIN,
        ensures
            r.coords() == (-self.x.raw, -self.y.raw, -self.z.raw),
    {
        Position {
            x: Fixed { raw: -self.x.raw },
            y: Fixed { raw: -self.y.raw },
            z: Fixed { raw: -self.z.raw },
        }
    }

    pub fn add(self, rhs: Position) -> (r: Position)
        requires
            fits_i64(self.x.raw + rhs.x.raw),
            fits_i64(self.y.raw + rhs.y.raw),
            fits_i64(self.z.raw + rhs.z.raw),
        ensures
            r.coords() == (self.x.raw + rhs.x.raw, self.y.raw + rhs.y.raw, self.z.raw + rhs.z.raw),
    {
        Position {
            x: Fixed { raw: self.x.raw + rhs.x.raw },
            y: Fixed { raw: self.y.raw + rhs.y.raw },
            z: Fixed { raw: self.z.raw + rhs.z.raw },
        }
    }

    pub fn sub(self, rhs: Position) -> (r: Position)
        requires
            fits_i64(self.x.raw - rhs.x.raw),
            fits_i64(self.y.raw - rhs.y.raw),
            fits_i64(self.z.raw - rhs.z.raw),
        ensures
            r.coords() == (self.x.raw - rhs.x.raw, self.y.raw - rhs.y.raw, self.z.raw - rhs.z.raw),
    {
        Position {
            x: Fixed { raw: self.x.raw - rhs.x.raw },
            y: Fixed { raw: self.y.raw - rhs.y.raw },
            z: Fixed { raw: self.z.raw - rhs.z.raw },
        }
    }

    /// Each coordinate multiplied by `k`.
    pub fn mul(self, k: i64) -> (r: Position)
        requires
            fits_i64(self.x.raw * k),
            fits_i64(self.y.raw * k),
            fits_i64(self.z.raw * k),
        ensures
            r.coords() == (self.x.raw * k, self.y.raw * k, self.z.raw * k),
    {
        Position {
            x: Fixed { raw: self.x.raw * k },
            y: Fixed { raw: self.y.raw * k },
            z: Fixed { raw: self.z.raw * k },
        }
    }

    /// Each coordinate divided by a positive `k`, rounding toward zero.
    pub fn div(self, k: i64) -> (r: Position)
        requires
            k > 0,
            self.x.raw > i64::MIN,
            self.y.raw > i64::MIN,
            self.z.raw > i64::MIN,
        ensures
            r.coords() == (
                div_toward_zero(self.x.raw as int, k as int),
                div_toward_zero(self.y.raw as int, k as int),
                div_toward_zero(self.z.raw as int, k as int),
            ),
    {
        Position { x: div_raw(self.x, k), y: div_raw(self.y, k), z: div_raw(self.z, k) }
    }
}

fn div_raw(v: Fixed, k: i64) -> (r: Fixed)
    requires
        k > 0,
        v.raw > i64::MIN,
    ensures
        r.raw == div_toward_zero(v.raw as int, k as int),
{
    if v.raw >= 0 {
        Fixed { raw: ((v.raw as u64) / (k as u64)) as i64 }
    } else {
        Fixed { raw: -(((-v.raw) as u64 / (k as u64)) as i64) }
    }
}

impl From<(Fixed, Fixed, Fixed)> for Position {
    fn from(f: (Fixed, Fixed, Fixed)) -> (r: Position) {
        Position { x: f.0, y: f.1, z: f.2 }
    }
}

impl vstd::std_specs::convert::FromSpecImpl<(Fixed, Fixed, Fixed)> for Position {
    open spec fn obeys_from_spec() -> bool {
        true
    }

    open spec fn from_spec(f: (Fixed, Fixed, Fixed)) -> Position {
        Position { x: f.0, y: f.1, z: f.2 }
    }
}

} // verus!
