use vstd::prelude::*;

verus! {

/// Microseconds in one second.
pub const MICROS_PER_SECOND: u64 = 1_000_000;

/// Magnitude below which every stored rate stays; it leaves room for one
/// more difference quotient inside `i128`.
pub const RATE_BOUND: i128 = 0x10_0000_0000_0000_0000_0000_0000;

/// A six-axis quantity in exact arithmetic: the model of `Pose` and `Rates`.
pub struct Axes {
    pub x: int,
    pub y: int,
    pub z: int,
    pub yaw: int,
    pub pitch: int,
    pub roll: int,
}

/// Division that rounds toward zero, as integer division does in Rust.
pub open spec fn div_toward_zero(n: int, d: int) -> int {
    if n >= 0 {
        n / d
    } else {
        -((-n) / d)
    }
}

/// Change per second of a value that went from `before` to `after` in
/// `elapsed` microseconds.
pub open spec fn rate_of(after: int, before: int, elapsed: int) -> int {
    div_toward_zero((after - before) * MICROS_PER_SECOND, elapsed)
}

/// `rate_of` applied to each axis.
pub open spec fn axes_rate(after: Axes, before: Axes, elapsed: int) -> Axes {
    Axes {
        x: rate_of(after.x, before.x, elapsed),
        y: rate_of(after.y, before.y, elapsed),
        z: rate_of(after.z, before.z, elapsed),
        yaw: rate_of(after.yaw, before.yaw, elapsed),
        pitch: rate_of(after.pitch, before.pitch, elapsed),
        roll: rate_of(after.roll, before.roll, elapsed),
    }
}

pub open spec fn zero_axes() -> Axes {
    Axes { x: 0, y: 0, z: 0, yaw: 0, pitch: 0, roll: 0 }
}

/// Position (`x`, `y`, `z`, in millionths of a sensor unit) and orientation
/// (`yaw`, `pitch`, `roll`, in micro-degrees) at one instant.
#[derive(Clone, Copy, Debug, PartialEq, Eq, Structural)]
pub struct Pose {
    pub x: i64,
    pub y: i64,
    pub z: i64,
    pub yaw: i64,
    pub pitch: i64,
    pub roll: i64,
}

/// A pose together with the instant, in microseconds, at which it arrived.
#[derive(Clone, Copy, Debug, PartialEq, Eq, Structural)]
pub struct PoseSample {
    pub pose: Pose,
    pub instant: u64,
}

/// A rate of change of each pose axis, per second: a velocity or, one
/// level up, an acceleration.
#[derive(Clone, Copy, Debug, PartialEq, Eq, Structural)]
pub struct Rates {
    pub x: i128,
    pub y: i128,
    pub z: i128,
    pub yaw: i128,
    pub pitch: i128,
    pub roll: i128,
}

impl View for Pose {
    type V = Axes;

    open spec fn view(&self) -> Axes {
        Axes {
            x: self.x as int,
            y: self.y as int,
            z: self.z as int,
            yaw: self.yaw as int,
            pitch: self.pitch as int,
            roll: self.roll as int,
        }
    }
}

impl View for Rates {
    type V = Axes;

    open spec fn view(&self) -> Axes {
        Axes {
            x: self.x as int,
            y: self.y as int,
            z: self.z as int,
            yaw: self.yaw as int,
            pitch: self.pitch as int,
            roll: self.roll as int,
        }
    }
}

pub open spec fn within_rate_bound(v: int) -> bool {
    -RATE_BOUND < v < RATE_BOUND
}

impl Rates {
    /// Every axis lies strictly inside `RATE_BOUND`.
    pub open spec fn bounded(&self) -> bool {
        &&& within_rate_bound(self.x as int)
        &&& within_rate_bound(self.y as int)
        &&& within_rate_bound(self.z as int)
        &&& within_rate_bound(self.yaw as int)
        &&& within_rate_bound(self.pitch as int)
        &&& within_rate_bound(self.roll as int)
    }

    pub fn zero() -> (r: Rates)
        ensures
            r@ == zero_axes(),
            r.bounded(),
    {
        Rates { x: 0, y: 0, z: 0, yaw: 0, pitch: 0, roll: 0 }
    }

    /// Rate of change from `earlier` to `self` over `elapsed` microseconds:
    /// the acceleration when both are velocities.
    pub fn rate_since(&self, earlier: &Rates, elapsed: u64) -> (r: Rates)
        requires
            elapsed > 0,
            self.bounded(),
            earlier.bounded(),
        ensures
            r@ == axes_rate(self@, earlier@, elapsed as int),
    {
        Rates {
            x: rate(self.x, earlier.x, elapsed),
            y: rate(self.y, earlier.y, elapsed),
            z: rate(self.z, earlier.z, elapsed),
            yaw: rate(self.yaw, earlier.yaw, elapsed),
            pitch: rate(self.pitch, earlier.pitch, elapsed),
            roll: rate(self.roll, earlier.roll, elapsed),
        }
    }
}

proof fn lemma_quotient_bound(n: int, d: int)
    requires
        n >= 0,
        d >= 1,
    ensures
        0 <= n / d <= n,
{
    assert(0 <= n / d <= n) by (nonlinear_arith)
        requires
            n >= 0,
            d >= 1,
    ;
}

/// Difference quotient of one axis, per second.
fn rate(after: i128, before: i128, elapsed: u64) -> (r: i128)
    requires
        elapsed > 0,
        within_rate_bound(after as int),
        within_rate_bound(before as int),
    ensures
        r == rate_of(after as int, before as int, elapsed as int),
{
    let diff: i128 = after - before;
    assert(i128::MIN < diff * 1_000_000 < i128::MAX) by (nonlinear_arith)
        requires
            -0x20_0000_0000_0000_0000_0000_0000 < diff < 0x20_0000_0000_0000_0000_0000_0000,
    ;
    let scaled: i128 = diff * (MICROS_PER_SECOND as i128);
    let d: i128 = elapsed as i128;
    if scaled >= 0 {
        proof {
            lemma_quotient_bound(scaled as int, d as int);
        }
        scaled / d
    } else {
        let m: i128 = -scaled;
        proof {
            lemma_quotient_bound(m as int, d as int);
        }
        -(m / d)
    }
}

/// Velocity of a pose reached within the rate bound: a pose axis differs
/// by less than 2^64 micro-units, times a million per microsecond.
proof fn lemma_pose_rate_bounded(after: int, before: int, elapsed: int)
    requires
        i64::MIN <= after <= i64::MAX,
        i64::MIN <= before <= i64::MAX,
        elapsed >= 1,
    ensures
        within_rate_bound(rate_of(after, before, elapsed)),
{
    let n = (after - before) * MICROS_PER_SECOND;
    assert(-0x1_0000_0000_0000_0000 * 1_000_000 < n < 0x1_0000_0000_0000_0000 * 1_000_000)
        by (nonlinear_arith)
        requires
            n == (after - before) * 1_000_000,
            i64::MIN <= after <= i64::MAX,
            i64::MIN <= before <= i64::MAX,
    ;
    if n >= 0 {
        lemma_quotient_bound(n, elapsed);
    } else {
        lemma_quotient_bound(-n, elapsed);
    }
}

impl Pose {
    pub fn zero() -> (r: Pose)
        ensures
            r@ == zero_axes(),
    {
        Pose { x: 0, y: 0, z: 0, yaw: 0, pitch: 0, roll: 0 }
    }

    /// Velocity from `earlier` to `self` over `elapsed` microseconds.
    pub fn rate_since(&self, earlier: &Pose, elapsed: u64) -> (r: Rates)
        requires
            elapsed > 0,
        ensures
            r@ == axes_rate(self@, earlier@, elapsed as int),
            r.bounded(),
    {
        proof {
            let e = elapsed as int;
            lemma_pose_rate_bounded(self.x as int, earlier.x as int, e);
            lemma_pose_rate_bounded(self.y as int, earlier.y as int, e);
            lemma_pose_rate_bounded(self.z as int, earlier.z as int, e);
            lemma_pose_rate_bounded(self.yaw as int, earlier.yaw as int, e);
            lemma_pose_rate_bounded(self.pitch as int, earlier.pitch as int, e);
            lemma_pose_rate_bounded(self.roll as int, earlier.roll as int, e);
        }
        Rates {
            x: rate(self.x as i128, earlier.x as i128, elapsed),
            y: rate(self.y as i128, earlier.y as i128, elapsed),
            z: rate(self.z as i128, earlier.z as i128, elapsed),
            yaw: rate(self.yaw as i128, earlier.yaw as i128, elapsed),
            pitch: rate(self.pitch as i128, earlier.pitch as i128, elapsed),
            roll: rate(self.roll as i128, earlier.roll as i128, elapsed),
        }
    }

    /// Arrow for the direction of the yaw: left for negative, else right.
    pub fn yaw_arrow(&self) -> (r: char)
        ensures
            r == (if self.yaw < 0 { '\u{2190}' } else { '\u{2192}' }),
    {
        if self.yaw < 0 {
            '\u{2190}'
        } else {
            '\u{2192}'
        }
    }

    /// Arrow for the direction of the pitch: up for positive, else down.
    pub fn pitch_arrow(&self) -> (r: char)
        ensures
            r == (if self.pitch > 0 { '\u{2191}' } else { '\u{2193}' }),
    {
        if self.pitch > 0 {
            '\u{2191}'
        } else {
            '\u{2193}'
        }
    }
}

} // verus!
