//! Status register layout and the flag bookkeeping shared by every
//! instruction handler.
//!
//! The status register is an 8-bit bitfield. Bit positions follow the
//! canonical 6502 layout, low to high: Carry, Zero, Interrupt-Disable,
//! Decimal, Break, Unused, Overflow, Negative. Bits other than the seven
//! defined flags are never inspected by instruction semantics, but they
//! round-trip unchanged through the set/clear operations.

use vstd::prelude::*;

verus! {

pub const CARRY_FLAG: u8 = 0b0000_0001;

pub const ZERO_FLAG: u8 = 0b0000_0010;

pub const INTERRUPT_DISABLE_FLAG: u8 = 0b0000_0100;

pub const DECIMAL_FLAG: u8 = 0b0000_1000;

pub const BREAK_FLAG: u8 = 0b0001_0000;

pub const UNUSED_FLAG: u8 = 0b0010_0000;

pub const OVERFLOW_FLAG: u8 = 0b0100_0000;

pub const NEGATIVE_FLAG: u8 = 0b1000_0000;

/// True when every bit of `flag` is set in `status`.
pub open spec fn flag_set(status: u8, flag: u8) -> bool {
    status & flag != 0
}

/// The status byte with the bits of `flag` switched on.
pub open spec fn set_flag_spec(status: u8, flag: u8) -> u8 {
    status | flag
}

/// The status byte with the bits of `flag` switched off.
pub open spec fn clear_flag_spec(status: u8, flag: u8) -> u8 {
    status & !flag
}

/// The status byte with the bits of `flag` set or cleared as `value` says.
pub open spec fn assign_flag_spec(status: u8, flag: u8, value: bool) -> u8 {
    if value {
        set_flag_spec(status, flag)
    } else {
        clear_flag_spec(status, flag)
    }
}

/// The status byte after the zero-and-negative update every
/// register-writing instruction performs: Zero is assigned `value == 0`,
/// Negative is assigned bit 7 of `value`.
pub open spec fn update_zero_negative_spec(status: u8, value: u8) -> u8 {
    assign_flag_spec(
        assign_flag_spec(status, ZERO_FLAG, value == 0),
        NEGATIVE_FLAG,
        value & 0x80 != 0,
    )
}

/// Law: after a zero-and-negative flag update for `value`, the Zero flag
/// is set iff `value` is 0x00, the Negative flag is set iff bit 7 of
/// `value` is 1 (equivalently, iff `value >= 0x80`), and the two flags are
/// never set together, since 0x00 has bit 7 clear.
pub proof fn lemma_zero_negative_flags(status: u8, value: u8)
    ensures
        flag_set(update_zero_negative_spec(status, value), ZERO_FLAG) <==> value == 0,
        flag_set(update_zero_negative_spec(status, value), NEGATIVE_FLAG) <==> value & 0x80 != 0,
        flag_set(update_zero_negative_spec(status, value), NEGATIVE_FLAG) <==> value >= 0x80,
        !(flag_set(update_zero_negative_spec(status, value), ZERO_FLAG) && flag_set(
            update_zero_negative_spec(status, value),
            NEGATIVE_FLAG,
        )),
{
    assert(flag_set(update_zero_negative_spec(status, value), ZERO_FLAG) <==> value == 0)
        by (bit_vector);
    assert(flag_set(update_zero_negative_spec(status, value), NEGATIVE_FLAG) <==> value & 0x80
        != 0) by (bit_vector);
    assert(value & 0x80 != 0 <==> value >= 0x80) by (bit_vector);
}

/// A zero-and-negative update leaves every status bit outside Zero and
/// Negative as it was; `other` is any flag mask disjoint from those two
/// bits, such as Carry or Overflow.
pub proof fn lemma_update_zero_negative_preserves(status: u8, value: u8, other: u8)
    requires
        other & (ZERO_FLAG | NEGATIVE_FLAG) == 0,
    ensures
        flag_set(update_zero_negative_spec(status, value), other) == flag_set(status, other),
{
    assert(other & (0x02u8 | 0x80u8) == 0 ==> flag_set(
        update_zero_negative_spec(status, value),
        other,
    ) == flag_set(status, other)) by (bit_vector);
}

/// Assigning one flag reads back as assigned, and leaves every bit
/// outside that flag as it was.
pub proof fn lemma_assign_flag(status: u8, flag: u8, value: bool, other: u8)
    requires
        other & flag == 0,
    ensures
        flag_set(assign_flag_spec(status, flag, value), flag) == (value && flag != 0),
        flag_set(assign_flag_spec(status, flag, value), other) == flag_set(status, other),
{
    assert(flag_set(assign_flag_spec(status, flag, value), flag) == (value && flag != 0))
        by (bit_vector);
    assert(other & flag == 0 ==> flag_set(assign_flag_spec(status, flag, value), other)
        == flag_set(status, other)) by (bit_vector);
}

} // verus!
