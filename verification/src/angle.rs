//! Angles as whole billionths of a radian, kept in the half-open range from
//! minus half a turn up to, but not including, half a turn. Half a turn is
//! pi to ten digits. Degrees are read and written in millionths, through a
//! conversion that gives back what was put in.

use vstd::prelude::*;
use crate::fixed::{abs, divide_up, lemma_quot, quot, quot_up};

verus! {

/// Half a turn, in billionths of a radian: pi to ten digits.
pub const HALF_TURN: i64 = 3_141_592_654;

/// A full turn, in billionths of a radian.
pub const FULL_TURN: i64 = 6_283_185_308;

/// Half a turn, in millionths of a degree.
pub const HALF_TURN_DEGREES: i64 = 180_000_000;

/// A quarter turn, in millionths of a degree.
pub const QUARTER_TURN_DEGREES: i64 = 90_000_000;

/// `x` billionths of a radian lie in the canonical range.
pub open spec fn in_range(x: int) -> bool {
    -HALF_TURN <= x < HALF_TURN
}

/// `d` millionths of a degree lie in the canonical range.
pub open spec fn in_range_degrees(d: int) -> bool {
    -HALF_TURN_DEGREES <= d < HALF_TURN_DEGREES
}

/// One correction by a full turn: up when `x` is below the range, down when
/// it is at or above its end, none otherwise.
pub open spec fn normalize_once(x: int) -> int {
    if x < -HALF_TURN {
        x + FULL_TURN
    } else if x >= HALF_TURN {
        x - FULL_TURN
    } else {
        x
    }
}

/// The representative of `x` modulo a full turn that lies in the canonical
/// range.
pub open spec fn wrap(x: int) -> int {
    (x + HALF_TURN) % (FULL_TURN as int) - HALF_TURN
}

/// Millionths of a radian in `microdegrees` millionths of a degree, rounded
/// away from zero.
pub open spec fn nanoradians_of(microdegrees: int) -> int {
    quot_up(microdegrees * HALF_TURN, HALF_TURN_DEGREES as int)
}

/// Thousandths of a degree in `nanoradians` billionths of a radian, rounded
/// toward zero.
pub open spec fn microdegrees_of(nanoradians: int) -> int {
    quot(nanoradians * HALF_TURN_DEGREES, HALF_TURN as int)
}

/// A direction or a rotation, in billionths of a radian.
///
/// Every angle that is built from a value within one and a half turns of
/// zero is canonical, and so is every difference of canonical angles.
#[derive(Clone, Copy, Debug, PartialEq, Eq, Structural)]
pub struct Angle {
    pub nanoradians: i64,
}

impl Angle {
    /// The angle lies in the canonical range.
    pub open spec fn canonical(&self) -> bool {
        in_range(self.nanoradians as int)
    }

    /// The angle in millionths of a degree, rounded toward zero.
    pub open spec fn in_degrees(&self) -> int {
        microdegrees_of(self.nanoradians as int)
    }

    /// The shortest signed rotation that takes `from` to this angle: their
    /// difference after one correction by a full turn.
    pub open spec fn rotation_from(self, from: Angle) -> Angle {
        Angle { nanoradians: normalize_once(self.nanoradians - from.nanoradians) as i64 }
    }

    /// The angle of `nanoradians` billionths of a radian, corrected by at
    /// most one full turn. A canonical value is held as it is.
    pub fn from_radians(nanoradians: i64) -> (r: Angle)
        ensures
            r.nanoradians == normalize_once(nanoradians as int),
            -3 * HALF_TURN <= nanoradians < 3 * HALF_TURN ==> r.canonical(),
            in_range(nanoradians as int) ==> r.nanoradians == nanoradians,
    {
        (Angle { nanoradians }).normalized()
    }

    /// The angle of `microdegrees` millionths of a degree, converted to
    /// billionths of a radian and corrected by at most one full turn.
    pub fn from_degrees(microdegrees: i32) -> (r: Angle)
        ensures
            r.nanoradians == normalize_once(nanoradians_of(microdegrees as int)),
            -3 * HALF_TURN_DEGREES <= microdegrees < 3 * HALF_TURN_DEGREES ==> r.canonical(),
            in_range_degrees(microdegrees as int) ==> r.in_degrees() == microdegrees,
    {
        proof {
            law_degrees_come_back(microdegrees as int);
        }
        let scaled: i128 = (microdegrees as i128) * (HALF_TURN as i128);
        let nanoradians: i128 = divide_up(scaled, HALF_TURN_DEGREES as i128);
        (Angle { nanoradians: nanoradians as i64 }).normalized()
    }

    /// This angle after one correction by a full turn.
    pub fn normalized(&self) -> (r: Angle)
        ensures
            r.nanoradians == normalize_once(self.nanoradians as int),
    {
        Angle {
            nanoradians: if self.nanoradians < -HALF_TURN {
                self.nanoradians + FULL_TURN
            } else if self.nanoradians >= HALF_TURN {
                self.nanoradians - FULL_TURN
            } else {
                self.nanoradians
            },
        }
    }

    /// Thousandths of a degree, rounded toward zero.
    pub fn degrees(&self) -> (r: i64)
        ensures
            r == self.in_degrees(),
            self.canonical() ==> in_range_degrees(r as int),
    {
        let scaled: i128 = (self.nanoradians as i128) * (HALF_TURN_DEGREES as i128);
        let microdegrees: i128 = scaled / (HALF_TURN as i128);
        proof {
            lemma_quot(scaled as int, HALF_TURN as int);
            assert(scaled == self.nanoradians * 180_000_000);
            assert(microdegrees == quot(scaled as int, 3_141_592_654));
            assert(-0x7fff_ffff_ffff_ffff <= microdegrees <= 0x7fff_ffff_ffff_ffff);
        }
        microdegrees as i64
    }

    /// Millionths of a radian.
    pub fn radians(&self) -> (r: i64)
        ensures
            r == self.nanoradians,
    {
        self.nanoradians
    }

    /// Whether the angle lies in the canonical range.
    pub fn is_canonical(&self) -> (r: bool)
        ensures
            r == self.canonical(),
    {
        -HALF_TURN <= self.nanoradians && self.nanoradians < HALF_TURN
    }
}

impl core::ops::Sub for Angle {
    type Output = Angle;

    /// The shortest signed rotation that takes `rhs` to `self`.
    fn sub(self, rhs: Angle) -> (r: Angle)
        ensures
            r == self.rotation_from(rhs),
            r.canonical(),
    {
        Angle::from_radians(self.nanoradians - rhs.nanoradians)
    }
}

impl vstd::std_specs::ops::SubSpecImpl for Angle {
    open spec fn obeys_sub_spec() -> bool {
        true
    }

    open spec fn sub_req(self, rhs: Angle) -> bool {
        self.canonical() && rhs.canonical()
    }

    open spec fn sub_spec(self, rhs: Angle) -> Angle {
        self.rotation_from(rhs)
    }
}

/// Normalising is idempotent, and lands in the canonical range, exactly on
/// the values within one and a half turns of zero.
pub proof fn law_normalize_idempotent(x: int)
    ensures
        -3 * HALF_TURN <= x < 3 * HALF_TURN <==> in_range(normalize_once(x)),
        -3 * HALF_TURN <= x < 3 * HALF_TURN <==> normalize_once(normalize_once(x))
            == normalize_once(x),
        in_range(x) ==> normalize_once(x) == x,
{
}

/// The reduction modulo a full turn lands in the canonical range, differs
/// from its argument by whole turns, and leaves a canonical value as it is,
/// whatever the argument.
pub proof fn law_wrap_is_canonical(x: int)
    ensures
        in_range(wrap(x)),
        (x - wrap(x)) % (FULL_TURN as int) == 0,
        wrap(wrap(x)) == wrap(x),
        in_range(x) ==> wrap(x) == x,
{
}

/// On values within one and a half turns of zero, one correction is the
/// reduction modulo a full turn.
pub proof fn law_normalize_is_wrap(x: int)
    requires
        -3 * HALF_TURN <= x < 3 * HALF_TURN,
    ensures
        normalize_once(x) == wrap(x),
{
}

/// The difference of two canonical angles is canonical, is the difference of
/// their values reduced modulo a full turn, and is no longer than any other
/// rotation that takes the second to the first.
pub proof fn law_sub_shortest_rotation(a: Angle, b: Angle)
    requires
        a.canonical(),
        b.canonical(),
    ensures
        a.rotation_from(b).canonical(),
        a.rotation_from(b).nanoradians == wrap(a.nanoradians - b.nanoradians),
        forall|k: int|
            abs(a.rotation_from(b).nanoradians as int) <= abs(
                a.nanoradians - b.nanoradians + #[trigger] (k * FULL_TURN),
            ),
{
    let d = a.nanoradians - b.nanoradians;
    law_normalize_is_wrap(d);
    assert forall|k: int|
        abs(a.rotation_from(b).nanoradians as int) <= abs(d + #[trigger] (k * FULL_TURN)) by {
        if k >= 1 {
            assert(k * FULL_TURN >= FULL_TURN) by (nonlinear_arith)
                requires
                    k >= 1,
            ;
        } else if k <= -1 {
            assert(k * FULL_TURN <= -FULL_TURN) by (nonlinear_arith)
                requires
                    k <= -1,
            ;
        } else {
            assert(k * FULL_TURN == 0);
        }
    }
}

/// Degrees come back as they went in: millionths of a degree, turned into
/// billionths of a radian and back, are the same thousandths. Within one and
/// a half turns they are turned into a value within one and a half turns,
/// and within half a turn into a canonical one.
pub proof fn law_degrees_come_back(microdegrees: int)
    ensures
        microdegrees_of(nanoradians_of(microdegrees)) == microdegrees,
        -3 * HALF_TURN_DEGREES <= microdegrees < 3 * HALF_TURN_DEGREES ==> -3 * HALF_TURN
            <= nanoradians_of(microdegrees) < 3 * HALF_TURN,
        in_range_degrees(microdegrees) ==> in_range(nanoradians_of(microdegrees)),
{
}

/// A canonical angle reads as canonical degrees.
pub proof fn law_degrees_are_canonical(nanoradians: int)
    requires
        in_range(nanoradians),
    ensures
        in_range_degrees(microdegrees_of(nanoradians)),
{
}

} // verus!
