//! Acceleration samples and their per-sample classification.
//!
//! Units and axes: each component is in milli-g, so a device at rest reads a
//! vector of length about 1000. Positive X points to the side that is "up" in
//! landscape, positive Y to the side that is "up" in portrait, and positive Z
//! out of the screen.

use vstd::prelude::*;
use crate::orientation::Orientation;

verus! {

/// Length of the gravity vector at rest, in the unit of the samples (milli-g).
pub const ONE_G: i32 = 1000;

/// Shortest vector that is trusted for classification: 0.5 g. Anything
/// shorter is taken for free fall or vibration.
pub const MIN_MAGNITUDE: u64 = 500;

/// Longest vector that is trusted for classification: 1.5 g. Anything longer
/// is taken for a shock or a saturated sensor.
pub const MAX_MAGNITUDE: u64 = 1500;

/// `MIN_MAGNITUDE` squared.
pub const MIN_MAGNITUDE_SQUARED: u64 = MIN_MAGNITUDE * MIN_MAGNITUDE;

/// `MAX_MAGNITUDE` squared.
pub const MAX_MAGNITUDE_SQUARED: u64 = MAX_MAGNITUDE * MAX_MAGNITUDE;

/// An axis dominates when its share of the squared magnitude is at least
/// `DOMINANCE_NUMERATOR / DOMINANCE_DENOMINATOR`. With 2/3 the vector lies
/// within about 35.3 degrees of the axis.
pub const DOMINANCE_NUMERATOR: u64 = 2;

/// See `DOMINANCE_NUMERATOR`.
pub const DOMINANCE_DENOMINATOR: u64 = 3;

/// One reading of a three-axis accelerometer, in milli-g.
#[derive(Copy, Clone, Debug, PartialEq, Eq, Structural)]
pub struct AccelSample {
    /// Acceleration along the device's X axis
    pub x: i32,
    /// Acceleration along the device's Y axis
    pub y: i32,
    /// Acceleration along the device's Z axis
    pub z: i32,
}

/// Whether a component `a` dominates a vector of squared length `m2`.
pub open spec fn dominates(a: int, m2: int) -> bool {
    DOMINANCE_DENOMINATOR * (a * a) >= DOMINANCE_NUMERATOR * m2
}

/// The orientation whose axis is `positive` when the component along it is
/// above zero, and `negative` otherwise.
pub open spec fn by_sign(a: int, positive: Orientation, negative: Orientation) -> Orientation {
    if a > 0 {
        positive
    } else {
        negative
    }
}

impl AccelSample {
    /// The squared length of the vector.
    pub open spec fn norm_squared(self) -> int {
        self.x * self.x + self.y * self.y + self.z * self.z
    }

    /// The magnitude gate: the vector's length lies between `MIN_MAGNITUDE`
    /// and `MAX_MAGNITUDE`, both included.
    pub open spec fn reliable(self) -> bool {
        MIN_MAGNITUDE_SQUARED <= self.norm_squared() <= MAX_MAGNITUDE_SQUARED
    }

    /// What a single sample says by itself: `Unknown` outside the magnitude
    /// gate and where no axis dominates, else the orientation of the
    /// dominating axis and its sign.
    pub open spec fn candidate(self) -> Orientation {
        let m2 = self.norm_squared();
        if !self.reliable() {
            Orientation::Unknown
        } else if dominates(self.z as int, m2) {
            by_sign(self.z as int, Orientation::FaceUp, Orientation::FaceDown)
        } else if dominates(self.y as int, m2) {
            by_sign(self.y as int, Orientation::PortraitUp, Orientation::PortraitDown)
        } else if dominates(self.x as int, m2) {
            by_sign(self.x as int, Orientation::LandscapeUp, Orientation::LandscapeDown)
        } else {
            Orientation::Unknown
        }
    }

    /// The squared length of the vector. It fits for every sample.
    pub fn magnitude_squared(&self) -> (m2: u64)
        ensures
            m2 == self.norm_squared(),
    {
        let xx: u64 = square(self.x);
        let yy: u64 = square(self.y);
        let zz: u64 = square(self.z);
        xx + yy + zz
    }

    /// Whether the sample passes the magnitude gate.
    pub fn is_reliable(&self) -> (ok: bool)
        ensures
            ok == self.reliable(),
    {
        let m2: u64 = self.magnitude_squared();
        MIN_MAGNITUDE_SQUARED <= m2 && m2 <= MAX_MAGNITUDE_SQUARED
    }

    /// Classifies the sample by itself, without any history.
    pub fn classify(&self) -> (orientation: Orientation)
        ensures
            orientation == self.candidate(),
    {
        let xx: u64 = square(self.x);
        let yy: u64 = square(self.y);
        let zz: u64 = square(self.z);
        let m2: u64 = xx + yy + zz;
        if m2 < MIN_MAGNITUDE_SQUARED || m2 > MAX_MAGNITUDE_SQUARED {
            return Orientation::Unknown;
        }
        let bound: u64 = DOMINANCE_NUMERATOR * m2;
        if DOMINANCE_DENOMINATOR * zz >= bound {
            if self.z > 0 {
                Orientation::FaceUp
            } else {
                Orientation::FaceDown
            }
        } else if DOMINANCE_DENOMINATOR * yy >= bound {
            if self.y > 0 {
                Orientation::PortraitUp
            } else {
                Orientation::PortraitDown
            }
        } else if DOMINANCE_DENOMINATOR * xx >= bound {
            if self.x > 0 {
                Orientation::LandscapeUp
            } else {
                Orientation::LandscapeDown
            }
        } else {
            Orientation::Unknown
        }
    }

    /// Outside the magnitude gate a sample says `Unknown`, whatever its
    /// direction.
    pub proof fn unreliable_is_unknown(self)
        requires
            !self.reliable(),
        ensures
            self.candidate() == Orientation::Unknown,
    {
    }

    /// Inside the magnitude gate at most one axis dominates, so the
    /// classification does not depend on the order in which the axes are
    /// tried: a dominating axis decides, with its sign, and without one the
    /// sample says `Unknown`.
    pub proof fn dominant_axis_decides(self)
        requires
            self.reliable(),
        ensures
            dominates(self.x as int, self.norm_squared()) ==> self.candidate() == by_sign(
                self.x as int,
                Orientation::LandscapeUp,
                Orientation::LandscapeDown,
            ),
            dominates(self.y as int, self.norm_squared()) ==> self.candidate() == by_sign(
                self.y as int,
                Orientation::PortraitUp,
                Orientation::PortraitDown,
            ),
            dominates(self.z as int, self.norm_squared()) ==> self.candidate() == by_sign(
                self.z as int,
                Orientation::FaceUp,
                Orientation::FaceDown,
            ),
            !dominates(self.x as int, self.norm_squared()) && !dominates(
                self.y as int,
                self.norm_squared(),
            ) && !dominates(self.z as int, self.norm_squared()) ==> self.candidate()
                == Orientation::Unknown,
    {
        lemma_one_dominant_axis(self.x as int, self.y as int, self.z as int);
    }

    /// A vector along one axis alone, of a length inside the magnitude gate,
    /// says the orientation of that axis and sign.
    pub proof fn pure_gravity_classifies(g: i32)
        requires
            MIN_MAGNITUDE <= g <= MAX_MAGNITUDE,
        ensures
            (AccelSample { x: g, y: 0, z: 0 }).candidate() == Orientation::LandscapeUp,
            (AccelSample { x: (-g) as i32, y: 0, z: 0 }).candidate() == Orientation::LandscapeDown,
            (AccelSample { x: 0, y: g, z: 0 }).candidate() == Orientation::PortraitUp,
            (AccelSample { x: 0, y: (-g) as i32, z: 0 }).candidate() == Orientation::PortraitDown,
            (AccelSample { x: 0, y: 0, z: g }).candidate() == Orientation::FaceUp,
            (AccelSample { x: 0, y: 0, z: (-g) as i32 }).candidate() == Orientation::FaceDown,
    {
        let n: int = -g;
        assert(MIN_MAGNITUDE_SQUARED <= g * g <= MAX_MAGNITUDE_SQUARED) by (nonlinear_arith)
            requires
                MIN_MAGNITUDE <= g <= MAX_MAGNITUDE,
        ;
        assert(n * n == g * g) by (nonlinear_arith)
            requires
                n == -g,
        ;
    }
}

/// The square of a component, which always fits.
fn square(a: i32) -> (aa: u64)
    ensures
        aa == a * a,
        aa <= 0x4000_0000_0000_0000,
{
    let wide: i64 = a as i64;
    assert(0 <= wide * wide <= 0x4000_0000_0000_0000) by (nonlinear_arith)
        requires
            -0x8000_0000 <= wide <= 0x7fff_ffff,
    ;
    let aa: i64 = wide * wide;
    aa as u64
}

/// No squared component exceeds the squared length.
proof fn lemma_component_within_norm(x: int, y: int, z: int)
    ensures
        0 <= x * x <= x * x + y * y + z * z,
        0 <= y * y <= x * x + y * y + z * z,
        0 <= z * z <= x * x + y * y + z * z,
{
    assert(0 <= x * x) by (nonlinear_arith);
    assert(0 <= y * y) by (nonlinear_arith);
    assert(0 <= z * z) by (nonlinear_arith);
}

/// Two axes cannot both hold two thirds of a vector that is not zero.
proof fn lemma_one_dominant_axis(x: int, y: int, z: int)
    requires
        x * x + y * y + z * z > 0,
    ensures
        !(dominates(x, x * x + y * y + z * z) && dominates(y, x * x + y * y + z * z)),
        !(dominates(x, x * x + y * y + z * z) && dominates(z, x * x + y * y + z * z)),
        !(dominates(y, x * x + y * y + z * z) && dominates(z, x * x + y * y + z * z)),
{
    lemma_component_within_norm(x, y, z);
}

} // verus!
