//! The volume model.
//!
//! The audio endpoint's volume is a fraction of full scale. The protocol
//! speaks in percentage points (0 to 100). Internally the fraction is held
//! in basis points: an integer number of ten-thousandths of full scale, so
//! that one percentage point is exactly 100 basis points and conversions
//! round-trip without loss.

use vstd::prelude::*;

verus! {

/// Full scale in basis points: a fraction of 1.0.
pub const FULL_SCALE: u32 = 10000;

/// Basis points per percentage point.
pub const POINTS_PER_PERCENT: u32 = 100;

/// The state of the audio endpoint the status report and the volume
/// commands read: the output fraction in basis points, and the mute flag.
#[derive(Clone, Copy, Debug, PartialEq, Eq, Structural)]
pub struct AudioState {
    /// The output volume as a fraction of full scale, in basis points.
    pub volume: u32,
    /// Whether the output is muted.
    pub muted: bool,
}

impl AudioState {
    /// A well-formed audio state holds a fraction no greater than full
    /// scale.
    pub open spec fn wf(self) -> bool {
        self.volume <= FULL_SCALE
    }
}

/// Clamp an integer to the inclusive range `[lo, hi]`.
pub open spec fn clamp_int(v: int, lo: int, hi: int) -> int {
    if v < lo {
        lo
    } else if v > hi {
        hi
    } else {
        v
    }
}

/// The fraction, in basis points, that an absolute volume command sets,
/// given its level in hundredths of a percentage point: `level / 100`
/// clamped to `[0, 1]`. One hundredth of a percentage point is exactly one
/// basis point of full scale.
pub open spec fn spec_level_to_points(level: int) -> int {
    clamp_int(level, 0, 10000)
}

/// The fraction, in basis points, after a relative volume command whose
/// step count is in hundredths of a percentage point: the current fraction
/// plus `steps / 100`, clamped to `[0, 1]`.
pub open spec fn spec_step_points(cur: int, steps: int) -> int {
    clamp_int(cur + steps, 0, 10000)
}

/// The percentage reported for a fraction held in basis points, rounded to
/// the nearest whole percentage point.
pub open spec fn spec_report_percent(points: int) -> int {
    (points + 50) / 100
}

/// Convert an absolute volume level, in hundredths of a percentage point,
/// to the fraction in basis points that the audio endpoint is set to.
/// Out-of-range levels are clamped, never rejected.
pub fn level_to_points(level: i64) -> (r: u32)
    ensures
        r as int == spec_level_to_points(level as int),
        r <= FULL_SCALE,
{
    if level < 0 {
        0
    } else if level > 10000 {
        FULL_SCALE
    } else {
        level as u32
    }
}

/// Add a relative step count, in hundredths of a percentage point, to the
/// current fraction, clamping to `[0, 1]`.
pub fn step_points(cur: u32, steps: i64) -> (r: u32)
    requires
        cur <= FULL_SCALE,
    ensures
        r as int == spec_step_points(cur as int, steps as int),
        r <= FULL_SCALE,
{
    if steps > 10000 {
        FULL_SCALE
    } else if steps < -10000 {
        0
    } else {
        let moved: i64 = (cur as i64) + steps;
        if moved < 0 {
            0
        } else if moved > 10000 {
            FULL_SCALE
        } else {
            moved as u32
        }
    }
}

/// Round the fraction to the percentage the status report carries. The
/// report's precision is whole percentage points: the endpoint keeps the
/// exact fraction, hundredths included, and only the report rounds.
pub fn report_percent(points: u32) -> (r: u32)
    requires
        points <= FULL_SCALE,
    ensures
        r as int == spec_report_percent(points as int),
        r <= 100,
{
    (points + 50) / POINTS_PER_PERCENT
}

/// Setting an absolute level of whole percentage points within the
/// protocol range and reading the volume back yields exactly that
/// percentage: the percent/fraction conversion round-trips. Levels outside
/// the range clamp to the nearest bound.
pub proof fn lemma_set_volume_round_trip(percent: int)
    ensures
        0 <= percent <= 100 ==> spec_level_to_points(percent * 100) == percent * 100
            && spec_report_percent(spec_level_to_points(percent * 100)) == percent,
        percent < 0 ==> spec_level_to_points(percent * 100) == 0,
        percent > 100 ==> spec_level_to_points(percent * 100) == 10000,
{
    if 0 <= percent <= 100 {
        assert((percent * 100 + 50) / 100 == percent) by (nonlinear_arith);
    }
}

/// Two relative steps in one session compose: stepping by `a` and then by
/// `b` ends at the same fraction as stepping once by `a + b`, provided the
/// intermediate fraction did not clamp at a boundary. (With intermediate
/// clamping the two differ: from half scale, a step of a full scale up and
/// then one of a full scale down ends at zero, while a single step of
/// their sum stays at half scale.)
pub proof fn lemma_step_points_associative(cur: int, a: int, b: int)
    requires
        0 <= cur <= 10000,
        0 <= cur + a <= 10000,
    ensures
        spec_step_points(spec_step_points(cur, a), b) == spec_step_points(cur, a + b),
{
}

} // verus!
