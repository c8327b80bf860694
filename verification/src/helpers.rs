//! Match metrics derived from extracted scalars: overtime detection,
//! overtime duration and shooting percentage. All pure functions; durations
//! are fixed point in thousandths of a second.

use vstd::prelude::*;

use crate::props::{spec_get_i32, spec_get_millis, PropList, PropValue};

verus! {

/// Regulation play is capped at 300s plus a short end-of-match buffer;
/// a match is deemed overtime when it ran longer than 303s and ended with
/// a one-goal margin.
pub open spec fn spec_is_overtime(props: Seq<(String, PropValue)>) -> bool {
    let duration = spec_get_millis(props, "TotalSecondsPlayed"@);
    let team0 = spec_get_i32(props, "Team0Score"@);
    let team1 = spec_get_i32(props, "Team1Score"@);
    let diff = if team0 >= team1 {
        team0 - team1
    } else {
        team1 - team0
    };
    duration > 303_000 && diff == 1
}

/// Returns `true` iff the match went into overtime: duration above 303s and
/// a score difference of exactly 1.
pub fn is_overtime(props: &PropList) -> (r: bool)
    ensures
        r == spec_is_overtime(props@),
{
    let duration = crate::props::get_millis(props, "TotalSecondsPlayed");
    let team0 = crate::props::get_i32(props, "Team0Score");
    let team1 = crate::props::get_i32(props, "Team1Score");
    let diff: i64 = team0 as i64 - team1 as i64;
    duration > 303_000 && (diff == 1 || diff == -1)
}

/// The seconds played past regulation: the duration beyond 300s, rounded to
/// the nearest whole second (half up, saturating at the output's range);
/// 0 for a match without overtime.
pub open spec fn spec_overtime_seconds(duration_millis: i64, overtime: bool) -> u32 {
    if overtime && duration_millis > 300_000 {
        let rounded = (duration_millis - 300_000 + 500) / 1000;
        if rounded > u32::MAX {
            u32::MAX
        } else {
            rounded as u32
        }
    } else {
        0
    }
}

/// Overtime duration in whole seconds, if overtime occurred (duration - 300s,
/// rounded to nearest).
pub fn get_overtime_seconds(duration_millis: i64, overtime: bool) -> (r: u32)
    ensures
        r == spec_overtime_seconds(duration_millis, overtime),
{
    if overtime && duration_millis > 300_000 {
        let past: u64 = (duration_millis - 300_000) as u64;
        if past > u64::MAX - 500 {
            return u32::MAX;
        }
        let rounded: u64 = (past + 500) / 1000;
        if rounded > u32::MAX as u64 {
            u32::MAX
        } else {
            rounded as u32
        }
    } else {
        0
    }
}

/// Goals per hundred shots, rounded to the nearest integer, half up;
/// 0 when no shot was taken (no division). The quotient is clamped to the
/// output's range.
pub open spec fn spec_shooting_percentage(goals: int, shots: int) -> u32 {
    if shots <= 0 {
        0
    } else {
        let rounded = (200 * goals + shots) / (2 * shots);
        if rounded < 0 {
            0
        } else if rounded > u32::MAX {
            u32::MAX
        } else {
            rounded as u32
        }
    }
}

/// Shooting percentage: `round(goals / shots * 100)` when shots > 0, else 0.
pub fn shooting_percentage(goals: i32, shots: i32) -> (r: u32)
    ensures
        r == spec_shooting_percentage(goals as int, shots as int),
{
    if shots <= 0 {
        return 0;
    }
    let numer: i64 = 200 * (goals as i64) + (shots as i64);
    let denom: i64 = 2 * (shots as i64);
    if numer < 0 {
        proof {
            let n = numer as int;
            let d = denom as int;
            vstd::arithmetic::div_mod::lemma_fundamental_div_mod(n, d);
            vstd::arithmetic::div_mod::lemma_mod_bound(n, d);
            if n / d >= 0 {
                vstd::arithmetic::mul::lemma_mul_nonnegative(d, n / d);
            }
        }
        return 0;
    }
    let q: u64 = (numer as u64) / (denom as u64);
    if q > u32::MAX as u64 {
        u32::MAX
    } else {
        q as u32
    }
}

} // verus!
