//! Motor mixing: steering and throttle axes become one signed speed per
//! wheel. A positive speed drives the wheel forwards.

use vstd::prelude::*;

verus! {

/// Numerator of the fraction of the supply voltage that the motors may see.
pub const DOWNVOLTAGE_NUM: i32 = 3;

/// Denominator of the fraction of the supply voltage that the motors may see.
pub const DOWNVOLTAGE_DEN: i32 = 4;

/// Which of the two motors.
#[derive(Clone, Copy, Debug, PartialEq, Eq, Structural)]
pub enum Motor {
    /// The motor of the left wheel.
    Left,
    /// The motor of the right wheel.
    Right,
}

/// What a motor driver is told to do with its two direction pins.
#[derive(Clone, Copy, Debug, PartialEq, Eq, Structural)]
pub enum Direction {
    /// First pin high, second pin low.
    Forward,
    /// First pin low, second pin high.
    Backward,
    /// Both pins low: the motor is held, not left to coast.
    Brake,
}

/// The signed speeds of the two wheels.
#[derive(Clone, Copy, Debug, PartialEq, Eq, Structural)]
pub struct Speeds {
    /// Speed of the left wheel.
    pub left: i32,
    /// Speed of the right wheel.
    pub right: i32,
}

/// Quotient of `a` by a positive `b`, rounded toward zero.
pub open spec fn div_toward_zero(a: int, b: int) -> int {
    if a >= 0 {
        a / b
    } else {
        -((-a) / b)
    }
}

/// Absolute value.
pub open spec fn magnitude_of(v: int) -> int {
    if v < 0 {
        -v
    } else {
        v
    }
}

/// The speed of the outer wheel: full duty scaled by the throttle, limited
/// to the allowed fraction of the supply voltage, and brought from the
/// axis range to duty units by a floor division by 2^15. A negative `y`
/// means forwards.
pub open spec fn base_speed(max_duty: u16, y: i16) -> int {
    (div_toward_zero(max_duty as int * (-(y as int)), DOWNVOLTAGE_DEN as int) * (
    DOWNVOLTAGE_NUM as int)) / 32768
}

/// The speed of the left wheel. Turning left (`x <= 0`) slows it down.
pub open spec fn left_speed(max_duty: u16, x: i16, y: i16) -> int {
    if x > 0 {
        base_speed(max_duty, y)
    } else {
        (base_speed(max_duty, y) * (32768 + 2 * (x as int))) / 32768
    }
}

/// The speed of the right wheel. Turning right (`x > 0`) slows it down.
pub open spec fn right_speed(max_duty: u16, x: i16, y: i16) -> int {
    if x > 0 {
        (base_speed(max_duty, y) * (32768 - 2 * (x as int))) / 32768
    } else {
        base_speed(max_duty, y)
    }
}

/// The direction that a signed speed selects: forwards when positive,
/// backwards otherwise.
pub open spec fn direction_of(speed: int) -> Direction {
    if speed > 0 {
        Direction::Forward
    } else {
        Direction::Backward
    }
}

/// The value that a speed leaves in a signed 16-bit cell: the speed itself
/// where it fits, else the speed reduced modulo 2^16 into the cell's range.
pub open spec fn wrap_i16(speed: int) -> int {
    (speed + 32768) % 65536 - 32768
}

/// Levels of the two direction pins, `true` for high.
pub open spec fn pin_levels(direction: Direction) -> (bool, bool) {
    match direction {
        Direction::Forward => (true, false),
        Direction::Backward => (false, true),
        Direction::Brake => (false, false),
    }
}

/// Widens a signed 16-bit axis value.
///
/// Trusted: `cast::i32` on an `i16` is taken to return the same number; the
/// crate implements this promotion as a plain widening conversion.
#[verifier::external_body]
fn i32_from_i16(value: i16) -> (wide: i32)
    ensures
        wide == value,
{
    cast::i32(value)
}

/// Widens an unsigned 16-bit duty value.
///
/// Trusted: `cast::i32` on a `u16` is taken to return the same number; the
/// crate implements this promotion as a plain widening conversion.
#[verifier::external_body]
fn i32_from_u16(value: u16) -> (wide: i32)
    ensures
        wide == value,
{
    cast::i32(value)
}

proof fn lemma_product_bound(a: int, b: int, low: int, high: int)
    by (nonlinear_arith)
    requires
        0 <= a,
        low <= b <= high,
    ensures
        a * low <= a * b <= a * high,
{
}

proof fn lemma_scaled_bound(speed: int, factor: int)
    requires
        -32768 <= factor <= 32768,
    ensures
        -magnitude_of(speed) <= (speed * factor) / 32768 <= magnitude_of(speed),
        -(magnitude_of(speed) * 32768) <= speed * factor <= magnitude_of(speed) * 32768,
{
    let m = magnitude_of(speed);
    lemma_product_bound(m, factor, -32768, 32768);
    assert(speed * factor == m * factor || speed * factor == -(m * factor)) by (nonlinear_arith)
        requires
            m == speed || m == -speed,
    ;
}

/// The outer wheel never asks for more than the full duty, in either
/// direction.
pub proof fn lemma_base_speed_bound(max_duty: u16, y: i16)
    ensures
        magnitude_of(base_speed(max_duty, y)) <= max_duty,
        -(max_duty as int * 32768) <= max_duty as int * (-(y as int)) <= max_duty as int * 32768,
{
    lemma_product_bound(max_duty as int, -(y as int), -32768, 32768);
}

/// Neither wheel ever asks for more than the full duty, in either
/// direction, so the magnitude always lies in the range of the PWM unit.
pub proof fn lemma_speed_bounds(max_duty: u16, x: i16, y: i16)
    ensures
        magnitude_of(left_speed(max_duty, x, y)) <= max_duty,
        magnitude_of(right_speed(max_duty, x, y)) <= max_duty,
{
    lemma_base_speed_bound(max_duty, y);
    let base = base_speed(max_duty, y);
    if x > 0 {
        lemma_scaled_bound(base, 32768 - 2 * (x as int));
    } else {
        lemma_scaled_bound(base, 32768 + 2 * (x as int));
    }
}

/// With the steering centred both wheels run at the same speed. Steering to
/// one side never makes the wheel on that side faster than the other one.
pub proof fn lemma_mixing_symmetry(max_duty: u16, x: i16, y: i16)
    ensures
        x == 0 ==> left_speed(max_duty, x, y) == right_speed(max_duty, x, y),
        x > 0 ==> magnitude_of(right_speed(max_duty, x, y)) <= magnitude_of(
            left_speed(max_duty, x, y),
        ),
        x < 0 ==> magnitude_of(left_speed(max_duty, x, y)) <= magnitude_of(
            right_speed(max_duty, x, y),
        ),
{
    let base = base_speed(max_duty, y);
    if x > 0 {
        lemma_scaled_bound(base, 32768 - 2 * (x as int));
    } else {
        lemma_scaled_bound(base, 32768 + 2 * (x as int));
        if x == 0 {
            assert(base * (32768 + 2 * (x as int)) == base * 32768) by (nonlinear_arith)
                requires
                    x == 0,
            ;
        }
    }
}

/// With both axes at rest neither wheel moves, whatever the full duty is.
pub proof fn lemma_rest_is_still(max_duty: u16)
    ensures
        left_speed(max_duty, 0, 0) == 0,
        right_speed(max_duty, 0, 0) == 0,
{
    assert(max_duty as int * (-(0i16 as int)) == 0) by (nonlinear_arith);
    assert(0int * (32768 + 2 * (0i16 as int)) == 0) by (nonlinear_arith);
}

/// Mixes the steering axis `x` and the throttle axis `y` into the speeds of
/// the two wheels, for a PWM unit whose full duty is `max_duty`.
pub fn mix(max_duty: u16, x: i16, y: i16) -> (speeds: Speeds)
    ensures
        speeds.left == left_speed(max_duty, x, y),
        speeds.right == right_speed(max_duty, x, y),
{
    let full: i32 = i32_from_u16(max_duty);
    let x: i32 = i32_from_i16(x);
    let y: i32 = i32_from_i16(y);
    proof {
        lemma_base_speed_bound(max_duty, y as i16);
    }
    let scaled: i32 = (full * -y / DOWNVOLTAGE_DEN) * DOWNVOLTAGE_NUM;
    let speed: i32 = scaled >> 15;
    let unit: i32 = 1 << 15;
    assert(scaled >> 15 == scaled / 32768) by (bit_vector);
    assert(1i32 << 15 == 32768) by (bit_vector);
    if x > 0 {
        proof {
            lemma_scaled_bound(speed as int, 32768 - 2 * (x as int));
        }
        let product: i32 = speed * (unit - 2 * x);
        assert(product >> 15 == product / 32768) by (bit_vector);
        Speeds { left: speed, right: product >> 15 }
    } else {
        proof {
            lemma_scaled_bound(speed as int, 32768 + 2 * (x as int));
        }
        let product: i32 = speed * (unit + 2 * x);
        assert(product >> 15 == product / 32768) by (bit_vector);
        Speeds { left: product >> 15, right: speed }
    }
}

/// The direction that the sign of `speed` selects.
pub fn direction(speed: i32) -> (d: Direction)
    ensures
        d == direction_of(speed as int),
{
    if speed > 0 {
        Direction::Forward
    } else {
        Direction::Backward
    }
}

/// The duty that drives a wheel at `speed`: its absolute value, which is
/// the duty itself wherever it fits in 16 bits, as it does for every speed
/// that `mix` gives; beyond that it is reduced modulo 2^16.
pub fn magnitude(speed: i32) -> (duty: u16)
    ensures
        duty == magnitude_of(speed as int) % 65536,
        magnitude_of(speed as int) <= 65535 ==> duty == magnitude_of(speed as int),
{
    let wide: i64 = speed as i64;
    let absolute: i64 = if wide < 0 {
        -wide
    } else {
        wide
    };
    let duty = #[verifier::truncate]
    (absolute as u16);
    assert(absolute as u16 == absolute % 65536) by (bit_vector)
        requires
            0 <= absolute <= 0x8000_0000,
    ;
    duty
}

/// The value that storing `speed` in a signed 16-bit cell leaves there.
pub fn stored_duty(speed: i32) -> (duty: i16)
    ensures
        duty == wrap_i16(speed as int),
        -32768 <= speed <= 32767 ==> duty == speed,
{
    let duty = #[verifier::truncate]
    (speed as i16);
    assert(speed as i16 == (speed + 32768) % 65536 - 32768) by (bit_vector);
    duty
}

impl Direction {
    /// Levels of the two direction pins, `true` for high.
    pub fn pins(self) -> (levels: (bool, bool))
        ensures
            levels == pin_levels(self),
    {
        match self {
            Direction::Forward => (true, false),
            Direction::Backward => (false, true),
            Direction::Brake => (false, false),
        }
    }
}

} // verus!
