//! Launching a firework from the bottom of the screen.
//!
//! A firework starts at the bottom row, at the tenth of the width that the
//! pressed digit names, and rises fast enough to burst on screen but never so
//! fast that it would burst above the top.

use vstd::prelude::*;
use crate::chance::uniform;
use crate::pellet::{fits_i32, toward_zero, BlastType, Pellet, GRAVITY, SUBPIXEL};

verus! {

/// The greatest sideways speed of a launch, either way.
pub const MAX_DRIFT: i32 = 1000;

/// The least upward speed of a launch, as a velocity: every launch is
/// faster upward than this.
pub const SLOWEST_CLIMB: i32 = -1500;

/// Rows below the top of the screen at which the fastest launch peaks.
pub const HEADROOM: i32 = 3;

/// Whether `r` is the square root of `n`, rounded down.
pub open spec fn is_sqrt_floor(n: int, r: int) -> bool {
    0 <= r && r * r <= n < (r + 1) * (r + 1)
}

/// The greatest integer whose square is at most `n`; 0 where `n` is
/// negative.
pub open spec fn sqrt_floor(n: int) -> int {
    if n <= 0 {
        0
    } else {
        choose|r: int| is_sqrt_floor(n, r)
    }
}

/// [`sqrt_floor`] is the one root that fits.
pub proof fn lemma_sqrt_floor(n: int, r: int)
    requires
        is_sqrt_floor(n, r),
    ensures
        sqrt_floor(n) == r,
{
    if n <= 0 {
        assert(r == 0) by (nonlinear_arith)
            requires
                0 <= r,
                r * r <= n,
                n <= 0,
        ;
    } else {
        let c = sqrt_floor(n);
        assert(is_sqrt_floor(n, c));
        assert(c == r) by (nonlinear_arith)
            requires
                0 <= r,
                r * r <= n < (r + 1) * (r + 1),
                0 <= c,
                c * c <= n < (c + 1) * (c + 1),
        ;
    }
}

/// The velocity of the fastest launch on a screen `max_y` rows high: the
/// upward speed `sqrt(2000 * GRAVITY * (max_y - HEADROOM))`, rounded toward
/// zero, which carries a firework to `HEADROOM` rows below the top.
pub open spec fn spec_launch_limit(max_y: int) -> int {
    -sqrt_floor(2000 * GRAVITY * (max_y - HEADROOM))
}

/// Where a firework launched by the digit `digit` starts, on a screen
/// `max_x` columns wide and `max_y` rows high: at `digit` tenths of the
/// width, on the bottom row.
pub open spec fn launch_pos(digit: int, max_x: int, max_y: int) -> (int, int) {
    (SUBPIXEL * toward_zero(max_x * digit, 10), max_y * SUBPIXEL)
}

/// Whether a launch position can be computed in 32-bit arithmetic.
pub open spec fn placeable(digit: int, max_x: int, max_y: int) -> bool {
    &&& 1 <= digit <= 9
    &&& fits_i32(max_x * digit)
    &&& fits_i32(SUBPIXEL * toward_zero(max_x * digit, 10))
    &&& fits_i32(max_y * SUBPIXEL)
}

/// Whether a firework can be launched: its position can be computed, the
/// fastest launch can be computed, and the fastest launch is faster than the
/// slowest, so that there is a speed to draw.
pub open spec fn launchable(digit: int, max_x: int, max_y: int) -> bool {
    &&& placeable(digit, max_x, max_y)
    &&& fits_i32(2000 * GRAVITY * (max_y - HEADROOM))
    &&& spec_launch_limit(max_y) < SLOWEST_CLIMB
}

/// The greatest integer whose square is at most `n`.
pub fn isqrt(n: i32) -> (root: i32)
    ensures
        root == sqrt_floor(n as int),
        0 <= root,
        n >= 0 ==> is_sqrt_floor(n as int, root as int),
{
    if n <= 0 {
        proof {
            if n == 0 {
                lemma_sqrt_floor(0, 0);
            }
        }
        return 0;
    }
    let target: i64 = n as i64;
    let mut low: i64 = 0;
    let mut high: i64 = 46341;
    assert(target < high * high) by (nonlinear_arith)
        requires
            target <= 2147483647,
            high == 46341,
    ;
    while high - low > 1
        invariant
            0 <= low < high <= 46341,
            target == n,
            low * low <= target < high * high,
        decreases high - low,
    {
        let mid: i64 = low + (high - low) / 2;
        assert(0 <= mid * mid <= 46341 * 46341) by (nonlinear_arith)
            requires
                0 <= mid <= 46341,
        ;
        if mid * mid <= target {
            low = mid;
        } else {
            high = mid;
        }
    }
    proof {
        lemma_sqrt_floor(n as int, low as int);
    }
    low as i32
}

/// The velocity of the fastest launch on a screen `max_y` rows high.
pub fn launch_limit(max_y: i32) -> (limit: i32)
    requires
        fits_i32(2000 * GRAVITY * (max_y - HEADROOM)),
    ensures
        limit == spec_launch_limit(max_y as int),
{
    assert(2000 * GRAVITY * (max_y - HEADROOM) == 200000 * (max_y - 3)) by (nonlinear_arith)
        requires
            GRAVITY == 100,
            HEADROOM == 3,
    ;
    let rows: i32 = max_y - HEADROOM;
    let span: i32 = 2000 * GRAVITY;
    assert(span * rows == 200000 * (max_y - 3)) by (nonlinear_arith)
        requires
            span == 200000,
            rows == max_y - 3,
    ;
    -isqrt(span * rows)
}

/// A firework at its launch position, with the velocity `vel`.
pub fn place(digit: i32, max_x: i32, max_y: i32, vel: (i32, i32)) -> (pellet: Pellet)
    requires
        placeable(digit as int, max_x as int, max_y as int),
    ensures
        pellet@.pos == launch_pos(digit as int, max_x as int, max_y as int),
        pellet.vel == vel,
        pellet.blast_type == BlastType::Normal,
{
    Pellet {
        pos: (SUBPIXEL * (max_x * digit / 10), max_y * SUBPIXEL),
        vel,
        blast_type: BlastType::Normal,
    }
}

/// Whether [`spawn`] may be called: decides [`launchable`].
pub fn can_launch(digit: i32, max_x: i32, max_y: i32) -> (ok: bool)
    ensures
        ok == launchable(digit as int, max_x as int, max_y as int),
{
    if digit < 1 || digit > 9 {
        return false;
    }
    assert(-9 * 2147483648 <= max_x * digit <= 9 * 2147483648) by (nonlinear_arith)
        requires
            -2147483648 <= max_x <= 2147483647,
            1 <= digit <= 9,
    ;
    let across: i64 = max_x as i64 * digit as i64;
    if !within_i32(across) {
        return false;
    }
    if !within_i32(1000 * (across / 10)) || !within_i32(max_y as i64 * 1000) {
        return false;
    }
    let energy: i64 = 200000 * (max_y as i64 - 3);
    if !within_i32(energy) {
        return false;
    }
    launch_limit(max_y) < SLOWEST_CLIMB
}

/// Launches a firework: it stands at its launch position, drifts sideways
/// at a speed drawn below [`MAX_DRIFT`] either way, and climbs at a speed
/// drawn between the slowest climb and the fastest launch.
pub fn spawn(digit: i32, max_x: i32, max_y: i32) -> (pellet: Pellet)
    requires
        launchable(digit as int, max_x as int, max_y as int),
    ensures
        pellet@.pos == launch_pos(digit as int, max_x as int, max_y as int),
        pellet.blast_type == BlastType::Normal,
        -MAX_DRIFT <= pellet.vel.0 < MAX_DRIFT,
        spec_launch_limit(max_y as int) <= pellet.vel.1 < SLOWEST_CLIMB,
{
    let upper_lim = launch_limit(max_y);
    let vel_x = uniform(-MAX_DRIFT, MAX_DRIFT);
    let vel_y = uniform(upper_lim, SLOWEST_CLIMB);
    place(digit, max_x, max_y, (vel_x, vel_y))
}

/// Whether a 64-bit value is a value of `i32`.
fn within_i32(x: i64) -> (ok: bool)
    ensures
        ok == fits_i32(x as int),
{
    -2147483648 <= x && x <= 2147483647
}

} // verus!
