//! Servo geometry: a pure linear map from an angle to a duty-cycle fraction,
//! clamped to a symmetric band around the servo's center position.

use vstd::prelude::*;

use crate::regs::UNIT;

verus! {

/// A servo's geometry. All quantities are fixed-point micro-units: `center`
/// and `limit_radius` are duty-cycle fractions, `dc_per_rad` is the
/// duty-cycle change per radian of angle.
pub struct Servo {
    pub center: i64,
    pub limit_radius: i64,
    pub dc_per_rad: i64,
}

/// Product of two micro-unit quantities, rescaled back to micro-units with
/// the quotient truncated toward zero.
pub open spec fn spec_scaled_product(a: int, b: int) -> int {
    let p = a * b;
    if p >= 0 {
        p / (UNIT as int)
    } else {
        -((-p) / (UNIT as int))
    }
}

/// A value pulled into the closed interval [lo, hi].
pub open spec fn spec_clamp(v: int, lo: int, hi: int) -> int {
    if v > hi {
        hi
    } else if v < lo {
        lo
    } else {
        v
    }
}

impl Servo {
    /// The clamp band is non-empty and both of its ends fit the fixed-point
    /// machine representation.
    pub open spec fn wf(self) -> bool {
        &&& 0 <= self.limit_radius
        &&& i64::MIN <= self.center - self.limit_radius
        &&& self.center + self.limit_radius <= i64::MAX
    }

    /// The duty-cycle fraction for an angle: the linear map
    /// `center + angle * dc_per_rad`, clamped to
    /// `[center - limit_radius, center + limit_radius]`.
    pub open spec fn spec_duty_from_angle(self, angle: int) -> int {
        spec_clamp(
            self.center + spec_scaled_product(angle, self.dc_per_rad as int),
            self.center - self.limit_radius,
            self.center + self.limit_radius,
        )
    }

    /// Build a servo geometry. Pure, no failure mode; the bounds only keep
    /// the clamp band representable.
    pub fn new(center: i64, limit_radius: i64, dc_per_rad: i64) -> (s: Servo)
        requires
            0 <= limit_radius,
            i64::MIN + limit_radius <= center,
            center <= i64::MAX - limit_radius,
        ensures
            s == (Servo { center, limit_radius, dc_per_rad }),
            s.wf(),
    {
        Servo { center, limit_radius, dc_per_rad }
    }

    /// Map an angle (micro-radians) to a duty-cycle fraction (micro-units).
    /// The result always lies inside the servo's clamp band.
    pub fn get_dt_from_angle(&self, angle: i64) -> (r: i64)
        requires
            self.wf(),
        ensures
            r == self.spec_duty_from_angle(angle as int),
            self.center - self.limit_radius <= r <= self.center + self.limit_radius,
    {
        proof {
            let a = angle as int;
            let b = self.dc_per_rad as int;
            assert(-0x40000000000000000000000000000000 <= a * b
                <= 0x40000000000000000000000000000000) by (nonlinear_arith)
                requires
                    -0x8000000000000000 <= a <= 0x7fffffffffffffff,
                    -0x8000000000000000 <= b <= 0x7fffffffffffffff,
            ;
        }
        let p: i128 = (angle as i128) * (self.dc_per_rad as i128);
        let q: i128 = if p >= 0 {
            p / 1_000_000
        } else {
            -((-p) / 1_000_000)
        };
        let out: i128 = (self.center as i128) + q;
        let lo: i128 = (self.center as i128) - (self.limit_radius as i128);
        let hi: i128 = (self.center as i128) + (self.limit_radius as i128);
        let clamped: i128 = if out > hi {
            hi
        } else if out < lo {
            lo
        } else {
            out
        };
        clamped as i64
    }
}

} // verus!
