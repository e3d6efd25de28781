use vstd::prelude::*;

use crate::generator::SETTING_UNITS_PER_ONE;

verus! {

/// Angles are integers: this many units make half a turn, so a direction
/// lies in `[-ANGLE_HALF_TURN, ANGLE_HALF_TURN]`.
pub const ANGLE_HALF_TURN: i64 = 1_000_000;

/// A star's position is drawn at most this many times.
pub const MAX_PLACEMENT_ATTEMPTS: u8 = 5;

/// Start of arm `i` (counted from zero) of `n` arms, times `n - 1`: the arms
/// start at even steps from minus half a turn to plus half a turn.
pub open spec fn arm_start_scaled(n: int, i: int) -> int {
    ANGLE_HALF_TURN * (2 * i - (n - 1))
}

/// Whether direction `d` lies in arm `i`'s band `[start, start + width)`,
/// where `start = arm_start_scaled(n, i) / (n - 1)` and
/// `width = ANGLE_HALF_TURN * spread / (n * SETTING_UNITS_PER_ONE)`; both sides are
/// multiplied by the denominators so that the comparison stays exact.
pub open spec fn in_band(d: int, n: int, spread: int, i: int) -> bool {
    &&& d * (n - 1) >= arm_start_scaled(n, i)
    &&& d * (n - 1) * n * SETTING_UNITS_PER_ONE < arm_start_scaled(n, i) * n * SETTING_UNITS_PER_ONE + ANGLE_HALF_TURN
        * spread * (n - 1)
}

/// Whether direction `d` lies in the band of any of the `n` arms.
pub open spec fn on_some_arm(d: int, n: int, spread: int) -> bool {
    exists|i: int| 0 <= i < n && #[trigger] in_band(d, n, spread, i)
}

/// Whether another position must be drawn after `attempts` draws, the last
/// of which was `valid`.
pub open spec fn must_retry(attempts: int, valid: bool) -> bool {
    !valid && attempts < MAX_PLACEMENT_ATTEMPTS
}

/// Whether direction `angle` (in angle units) lies in the band of one of
/// `arms_count` arms of relative width `arm_spread` (fixed point, in
/// millionths).
pub fn on_arm(angle: i32, arms_count: u8, arm_spread: i64) -> (r: bool)
    requires
        arms_count >= 2,
    ensures
        r == on_some_arm(angle as int, arms_count as int, arm_spread as int),
{
    let n = arms_count as i128;
    let d = angle as i128;
    let h = ANGLE_HALF_TURN as i128;
    let one = SETTING_UNITS_PER_ONE as i128;
    let s = arm_spread as i128;
    assert(-0x8000_0000 * 255 <= d * (n - 1) <= 0x8000_0000 * 255) by (nonlinear_arith)
        requires
            -0x8000_0000 <= d <= 0x8000_0000,
            1 <= n - 1 <= 255,
    ;
    let lhs_start = d * (n - 1);
    assert(-0x8000_0000 * 255 * 256 <= lhs_start * n <= 0x8000_0000 * 255 * 256)
        by (nonlinear_arith)
        requires
            -0x8000_0000 * 255 <= lhs_start <= 0x8000_0000 * 255,
            2 <= n <= 256,
    ;
    let lhs_n = lhs_start * n;
    let lhs_end = lhs_n * one;
    assert(-0x8000_0000 * 255 * 256 * 1_000_000 <= lhs_end <= 0x8000_0000 * 255 * 256 * 1_000_000)
        by (nonlinear_arith)
        requires
            lhs_end == lhs_n * one,
            -0x8000_0000 * 255 * 256 <= lhs_n <= 0x8000_0000 * 255 * 256,
            one == 1_000_000,
    ;
    let hs = h * s;
    assert(-1_000_000 * 0x8000_0000_0000_0000 <= hs <= 1_000_000 * 0x8000_0000_0000_0000)
        by (nonlinear_arith)
        requires
            hs == h * s,
            h == 1_000_000,
            -0x8000_0000_0000_0000 <= s <= 0x8000_0000_0000_0000,
    ;
    assert(-1_000_000 * 0x8000_0000_0000_0000 * 255 <= hs * (n - 1) <= 1_000_000
        * 0x8000_0000_0000_0000 * 255) by (nonlinear_arith)
        requires
            -1_000_000 * 0x8000_0000_0000_0000 <= hs <= 1_000_000 * 0x8000_0000_0000_0000,
            1 <= n - 1 <= 255,
    ;
    let width = hs * (n - 1);
    assert(width == h * s * (n - 1));
    let mut i: i128 = 0;
    while i < n
        invariant
            0 <= i <= n,
            n == arms_count as i128,
            2 <= n <= 255,
            d == angle as i128,
            h == ANGLE_HALF_TURN,
            one == SETTING_UNITS_PER_ONE,
            s == arm_spread as i128,
            lhs_start == d * (n - 1),
            lhs_end == d * (n - 1) * n * one,
            width == h * s * (n - 1),
            -1_000_000 * 0x8000_0000_0000_0000 * 255 <= width <= 1_000_000 * 0x8000_0000_0000_0000
                * 255,
            forall|k: int| 0 <= k < i ==> !#[trigger] in_band(d as int, n as int, s as int, k),
        decreases n - i,
    {
        let start = h * (2 * i - (n - 1));
        assert(-1_000_000 * 255 <= start <= 1_000_000 * 255) by (nonlinear_arith)
            requires
                start == h * (2 * i - (n - 1)),
                h == 1_000_000,
                0 <= i < n,
                n <= 255,
        ;
        assert(-1_000_000 * 255 * 255 <= start * n <= 1_000_000 * 255 * 255) by (nonlinear_arith)
            requires
                -1_000_000 * 255 <= start <= 1_000_000 * 255,
                2 <= n <= 255,
        ;
        let start_n = start * n;
        let start_end = start_n * one;
        assert(-1_000_000 * 255 * 255 * 1_000_000 <= start_end <= 1_000_000 * 255 * 255
            * 1_000_000) by (nonlinear_arith)
            requires
                start_end == start_n * one,
                -1_000_000 * 255 * 255 <= start_n <= 1_000_000 * 255 * 255,
                one == 1_000_000,
        ;
        if lhs_start >= start && lhs_end < start_end + width {
            assert(in_band(d as int, n as int, s as int, i as int));
            return true;
        }
        i = i + 1;
    }
    false
}

/// Whether another position must be drawn after `attempts` draws, the last
/// of which landed on an arm or not (`valid`).
pub fn retry_placement(attempts: u8, valid: bool) -> (r: bool)
    ensures
        r == must_retry(attempts as int, valid),
{
    !valid && attempts < MAX_PLACEMENT_ATTEMPTS
}

/// A placement stops drawing at once after a draw on an arm, and after the
/// fifth draw in any case.
pub proof fn lemma_placement_bounded(attempts: int, valid: bool)
    ensures
        valid ==> !must_retry(attempts, valid),
        attempts >= MAX_PLACEMENT_ATTEMPTS ==> !must_retry(attempts, valid),
        must_retry(attempts, valid) ==> attempts + 1 <= MAX_PLACEMENT_ATTEMPTS,
{
}

} // verus!
