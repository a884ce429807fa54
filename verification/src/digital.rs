//! The digital input and output of a pin (the embedded-hal `digital::v2`
//! operations): which register each reads or writes and what it decides.
use vstd::prelude::*;
use crate::bits::{read_field, read_spec, Field};
use crate::config::{out_clear_register, out_set_register, pin_bit, pin_mask};
use crate::pins::{is_output_capable, PinId};
use crate::registers::{in1_data, in_data, writes, Register, RegisterOp};

verus! {

/// The register read for the input level of pin `n`.
pub open spec fn input_register(n: int) -> Register {
    if n < 32 {
        Register::GpioIn
    } else {
        Register::GpioIn1
    }
}

/// The field of the input register that holds the levels of pin `n`'s bank.
pub open spec fn input_field(n: int) -> Field {
    if n < 32 {
        in_data()
    } else {
        in1_data()
    }
}

/// Pin `n` is set high in the word `status` read from its output status register.
pub open spec fn output_bit_set(n: int, status: u32) -> bool {
    status & pin_mask(n) != 0
}

/// Pin `n` reads high in the word `levels` read from its input register.
pub open spec fn input_bit_set(n: int, levels: u32) -> bool {
    read_spec(levels, input_field(n)) & pin_mask(n) != 0
}

/// Drives the pin high.
pub fn set_high(pin: PinId) -> (op: RegisterOp)
    requires
        is_output_capable(pin@),
    ensures
        writes(op, out_set_register(pin@), pin_mask(pin@)),
{
    let n = pin.number();
    let register = if n < 32 {
        Register::GpioOutSet
    } else {
        Register::GpioOut1Set
    };
    RegisterOp::Write { register, value: pin_bit(pin) }
}

/// Drives the pin low.
pub fn set_low(pin: PinId) -> (op: RegisterOp)
    requires
        is_output_capable(pin@),
    ensures
        writes(op, out_clear_register(pin@), pin_mask(pin@)),
{
    let n = pin.number();
    let register = if n < 32 {
        Register::GpioOutClear
    } else {
        Register::GpioOut1Clear
    };
    RegisterOp::Write { register, value: pin_bit(pin) }
}

/// The register read to tell whether the pin is set high: GPIO_OUT_W1TS
/// (pins 0 to 31) or GPIO_OUT1_W1TS (pins 32 and 33), the register that sets
/// the outputs of the pin's bank. The output level register GPIO_OUT itself
/// is not the one read.
pub fn output_status_register(pin: PinId) -> (r: Register)
    requires
        is_output_capable(pin@),
    ensures
        r == out_set_register(pin@),
{
    let n = pin.number();
    if n < 32 {
        Register::GpioOutSet
    } else {
        Register::GpioOut1Set
    }
}

/// Whether the pin is set high, given the word read from its output status register.
pub fn is_set_high(pin: PinId, status: u32) -> (b: bool)
    requires
        is_output_capable(pin@),
    ensures
        b == output_bit_set(pin@, status),
{
    status & pin_bit(pin) != 0
}

/// Whether the pin is set low, given the word read from its output status register.
pub fn is_set_low(pin: PinId, status: u32) -> (b: bool)
    requires
        is_output_capable(pin@),
    ensures
        b == !output_bit_set(pin@, status),
{
    !is_set_high(pin, status)
}

/// Toggles the pin: drives it low if the word read from its output status
/// register says it is set high, and high otherwise.
pub fn toggle(pin: PinId, status: u32) -> (op: RegisterOp)
    requires
        is_output_capable(pin@),
    ensures
        output_bit_set(pin@, status) ==> writes(op, out_clear_register(pin@), pin_mask(pin@)),
        !output_bit_set(pin@, status) ==> writes(op, out_set_register(pin@), pin_mask(pin@)),
{
    if is_set_high(pin, status) {
        set_low(pin)
    } else {
        set_high(pin)
    }
}

/// The register to read for the input level of the pin.
pub fn level_register(pin: PinId) -> (r: Register)
    ensures
        r == input_register(pin@),
{
    let n = pin.number();
    if n < 32 {
        Register::GpioIn
    } else {
        Register::GpioIn1
    }
}

/// Whether the pin reads high, given the word read from its input register.
pub fn is_high(pin: PinId, levels: u32) -> (b: bool)
    ensures
        b == input_bit_set(pin@, levels),
{
    let n = pin.number();
    let data = if n < 32 {
        read_field(levels, in_data())
    } else {
        read_field(levels, in1_data())
    };
    data & pin_bit(pin) != 0
}

/// Whether the pin reads low, given the word read from its input register.
pub fn is_low(pin: PinId, levels: u32) -> (b: bool)
    ensures
        b == !input_bit_set(pin@, levels),
{
    !is_high(pin, levels)
}

} // verus!
