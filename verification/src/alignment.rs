//! How far the clocks of the devices are apart.

use vstd::prelude::*;

verus! {

/// The magnitude bits of a system time difference; the remaining bit is its sign.
pub const MASK: u32 = 0x7FFF_FFFF;

/// The difference that the register `DcSystemTimeDifference` holds in sign and magnitude notation,
/// in nanoseconds.
pub open spec fn system_time_difference(value: u32) -> int {
    if value <= MASK {
        value as int
    } else {
        -(value - 0x8000_0000)
    }
}

/// Reads the register `DcSystemTimeDifference`.
pub fn decode_difference(value: u32) -> (difference: i32)
    ensures
        difference == system_time_difference(value),
{
    assert(value & !0x7FFF_FFFFu32 != 0 <==> value > 0x7FFF_FFFFu32) by (bit_vector);
    assert(value > 0x7FFF_FFFFu32 ==> value & 0x7FFF_FFFFu32 == value - 0x8000_0000u32)
        by (bit_vector);
    if value & !MASK != 0 {
        -((value & MASK) as i32)
    } else {
        value as i32
    }
}

/// Setting the sign bit of a register value negates the difference.
pub proof fn law_sign_bit_negates(magnitude: u32)
    requires
        magnitude <= MASK,
    ensures
        system_time_difference(magnitude | !MASK) == -system_time_difference(magnitude),
{
    assert(magnitude | !0x7FFF_FFFFu32 == magnitude + 0x8000_0000) by (bit_vector)
        requires
            magnitude <= 0x7FFF_FFFFu32,
    ;
}

/// Every difference that can be told in the register's notation is the difference of some
/// register value.
pub proof fn law_every_difference_is_read(difference: int)
    requires
        -0x7FFF_FFFF <= difference <= 0x7FFF_FFFF,
    ensures
        exists|value: u32| system_time_difference(value) == difference,
{
    let value = if difference < 0 {
        (0x8000_0000 - difference) as u32
    } else {
        difference as u32
    };
    assert(system_time_difference(value) == difference);
}

/// A register value without the sign bit is the difference itself; with the sign bit, it is the
/// negative of what is left without that bit.
pub proof fn law_register_is_sign_and_magnitude(value: u32)
    ensures
        value < 0x8000_0000 ==> system_time_difference(value) == value,
        value >= 0x8000_0000 ==> system_time_difference(value) == 0x8000_0000 - value,
{
}

} // verus!
