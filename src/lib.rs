//! A minimal native plugin: two lifecycle entry points that always report
//! success, and a transform that doubles a 32-bit signed integer.
//!
//! The transform wraps on overflow, as two's complement arithmetic on `i32`
//! does: where `2 * x` leaves the range of `i32`, the result is `2 * x` taken
//! modulo 2^32 into that range.
use vstd::prelude::*;

verus! {

/// The status code that reports success.
pub const STATUS_OK: i32 = 0;

/// `v` brought into the range of `i32` by adding or subtracting 2^32 once;
/// exact for every `v` in `[2 * i32::MIN, 2 * i32::MAX]`.
pub open spec fn wrap_once_i32(v: int) -> int {
    if v > i32::MAX {
        v - 0x1_0000_0000
    } else if v < i32::MIN {
        v + 0x1_0000_0000
    } else {
        v
    }
}

/// What the transform returns for `x`: twice `x`, wrapped into `i32`.
pub open spec fn doubled(x: i32) -> int {
    wrap_once_i32(2 * x)
}

/// Initialises the plugin. There is no failure path: the status is always
/// success.
pub fn plugin_init() -> (r: i32)
    ensures
        r == STATUS_OK,
        r == 0,
{
    STATUS_OK
}

/// Releases the plugin. There is no failure path: the status is always
/// success.
pub fn plugin_cleanup() -> (r: i32)
    ensures
        r == STATUS_OK,
        r == 0,
{
    STATUS_OK
}

/// Doubles `input`, wrapping on overflow.
pub fn plugin_process(input: i32) -> (r: i32)
    ensures
        r == doubled(input),
        i32::MIN <= 2 * input <= i32::MAX ==> r == 2 * input,
        2 * input > i32::MAX ==> r == 2 * input - 0x1_0000_0000,
        2 * input < i32::MIN ==> r == 2 * input + 0x1_0000_0000,
{
    let r = input.wrapping_mul(2);
    proof {
        let p: int = input as int * 2;
        assert(r == vstd::wrapping::i32_specs::signed_crop(p));
        assert(p % 0x1_0000_0000 == if p < 0 { p + 0x1_0000_0000 } else { p }) by (nonlinear_arith)
            requires
                -0x1_0000_0000 <= p < 0x1_0000_0000,
        ;
    }
    r
}

} // verus!
