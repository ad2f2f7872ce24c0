//! Fixed-point axis readings and their conversion to the virtual pad's
//! integer ranges.
//!
//! An axis reading is held as a signed count of millionths of full
//! deflection: `AXIS_FULL` is 1.0, `-AXIS_FULL` is -1.0.
use vstd::prelude::*;

verus! {

/// One full deflection of an axis (1.0), in millionths.
pub const AXIS_FULL: i32 = 1_000_000;

/// A trigger reading strictly above this level (0.1) counts as pressed.
pub const TRIGGER_PRESS_LEVEL: i32 = 100_000;

/// Largest stick value on the virtual pad.
pub const STICK_MAX: i16 = 32767;

/// Largest trigger value on the virtual pad.
pub const TRIGGER_MAX: u8 = 255;

/// `n / d` rounded to the nearest integer, halves away from zero.
pub open spec fn round_div(n: int, d: int) -> int
    recommends
        d > 0,
{
    if n >= 0 {
        (2 * n + d) / (2 * d)
    } else {
        -((-2 * n + d) / (2 * d))
    }
}

/// `x` held within `[lo, hi]`.
pub open spec fn clamp(x: int, lo: int, hi: int) -> int {
    if x < lo {
        lo
    } else if x > hi {
        hi
    } else {
        x
    }
}

/// The stick value for reading `v`: `round(v * 32767)`, held in the range of `i16`.
pub open spec fn stick_of(v: int) -> int {
    clamp(round_div(v * 32767, AXIS_FULL as int), i16::MIN as int, i16::MAX as int)
}

/// The trigger value for reading `v`: `round(v * 255)`, held in `[0, 255]`.
pub open spec fn trigger_of(v: int) -> int {
    clamp(round_div(v * 255, AXIS_FULL as int), 0, 255)
}

/// Whether a trigger reading `v` counts as a press.
pub open spec fn is_pressed_level(v: int) -> bool {
    v > TRIGGER_PRESS_LEVEL as int
}

/// Rounds `n / 1_000_000` to the nearest integer, halves away from zero.
fn round_millionths(n: i64) -> (r: i64)
    requires
        -4_000_000_000_000_000 <= n <= 4_000_000_000_000_000,
    ensures
        r == round_div(n as int, AXIS_FULL as int),
{
    if n >= 0 {
        (2 * n + 1_000_000) / 2_000_000
    } else {
        let m: i64 = -n;
        let x: i64 = 2 * m + 1_000_000;
        let q: i64 = x / 2_000_000;
        assert(0 <= q <= x) by (nonlinear_arith)
            requires
                x >= 0,
                q == x / 2_000_000,
        ;
        -q
    }
}

/// Scales a stick reading to the virtual pad's `i16` range.
pub fn scale_stick(v: i32) -> (r: i16)
    ensures
        r as int == stick_of(v as int),
        v == AXIS_FULL ==> r == STICK_MAX,
        v == -AXIS_FULL ==> r == -STICK_MAX,
        v == 0 ==> r == 0,
{
    let scaled = round_millionths(v as i64 * 32767);
    assert(65_535_000_000int / 2_000_000 == 32767) by (nonlinear_arith);
    assert(round_div(32_767_000_000, 1_000_000) == 32767);
    assert(round_div(-32_767_000_000, 1_000_000) == -32767);
    if scaled < i16::MIN as i64 {
        i16::MIN
    } else if scaled > i16::MAX as i64 {
        i16::MAX
    } else {
        scaled as i16
    }
}

/// Scales a trigger reading to the virtual pad's `u8` range; readings
/// outside `[0, 1]` saturate at the ends.
pub fn scale_trigger(v: i32) -> (r: u8)
    ensures
        r as int == trigger_of(v as int),
        v >= AXIS_FULL ==> r == TRIGGER_MAX,
        v <= 0 ==> r == 0,
{
    let scaled = round_millionths(v as i64 * 255);
    assert((v >= AXIS_FULL ==> scaled >= 255) && (v <= 0 ==> scaled <= 0)) by (nonlinear_arith)
        requires
            scaled == round_div(v * 255, AXIS_FULL as int),
            AXIS_FULL == 1_000_000,
    ;
    if scaled < 0 {
        0
    } else if scaled > 255 {
        255
    } else {
        scaled as u8
    }
}

/// Whether a trigger reading counts as pressed: strictly above 0.1.
pub fn trigger_pressed(v: i32) -> (r: bool)
    ensures
        r == is_pressed_level(v as int),
{
    v > TRIGGER_PRESS_LEVEL
}

} // verus!
