//! GPIO and pin configuration: the pin traits, the type states of a pin,
//! drive strengths, alternate functions and the signals of the GPIO matrix.
use vstd::prelude::*;
use core::marker::PhantomData;
use crate::bits::{FieldUpdate, write_spec};
use crate::registers::{
    in_inv_sel, in_matrix_sel, in_sel, modifies, Register, RegisterOp,
};

verus! {

/// Extension trait to split a GPIO peripheral in independent pins and registers
pub trait GpioExt {
    /// The to split the GPIO into
    type Parts;

    /// Splits the GPIO block into independent pins and registers
    fn split(self) -> Self::Parts;
}

/// Functions available on all pins
pub trait Pin {
    fn sleep_mode(&mut self, on: bool) -> &mut Self;
}

/// Functions available on input pins
pub trait InputPin: Pin {
    fn set_to_input(&mut self) -> &mut Self;

    fn enable_input(&mut self, on: bool) -> &mut Self;

    fn connect_input_to_peripheral(&mut self, signal: InputSignal, invert: bool) -> &mut Self;

    fn input_in_sleep_mode(&mut self, on: bool) -> &mut Self;
}

/// Functions available on output pins
pub trait OutputPin: Pin {
    fn set_to_open_drain_output(&mut self) -> &mut Self;

    fn set_to_push_pull_output(&mut self) -> &mut Self;

    fn enable_output(&mut self, on: bool) -> &mut Self;

    fn set_output_high(&mut self, on: bool) -> &mut Self;

    fn set_drive_strength(&mut self, strength: DriveStrength) -> &mut Self;

    fn set_alternate_function(&mut self, alternate: AlternateFunction) -> &mut Self;

    fn enable_open_drain(&mut self, on: bool) -> &mut Self;

    fn internal_pull_up(&mut self, on: bool) -> &mut Self;

    fn internal_pull_down(&mut self, on: bool) -> &mut Self;

    fn set_drive_strength_in_sleep_mode(&mut self, strength: DriveStrength) -> &mut Self;

    fn internal_pull_up_in_sleep_mode(&mut self, on: bool) -> &mut Self;

    fn internal_pull_down_in_sleep_mode(&mut self, on: bool) -> &mut Self;

    fn connect_peripheral_to_output(
        &mut self,
        signal: OutputSignal,
        invert: bool,
        enable_from_gpio: bool,
        invert_enable: bool,
    ) -> &mut Self;

    fn output_in_sleep_mode(&mut self, on: bool) -> &mut Self;
}

/// Input mode (type state)
pub struct Input<MODE> {
    _mode: PhantomData<MODE>,
}

/// Floating input (type state)
pub struct Floating;

/// Pulled down input (type state)
pub struct PullDown;

/// Pulled up input (type state)
pub struct PullUp;

/// Output mode (type state)
pub struct Output<MODE> {
    _mode: PhantomData<MODE>,
}

/// Open drain input or output (type state)
pub struct OpenDrain;

/// Push pull output (type state)
pub struct PushPull;

/// Analog mode (type state)
pub struct Analog;

/// Alternate function (type state)
pub struct Alternate<MODE> {
    _mode: PhantomData<MODE>,
}

/// Alternate Function 1
pub struct AF1;

/// Alternate Function 2
pub struct AF2;

/// Alternate Function 4
pub struct AF4;

/// Alternate Function 5
pub struct AF5;

/// Alternate Function 6
pub struct AF6;

/// Drive strength (values are approximates)
#[derive(Clone, Copy, PartialEq, Eq, Structural, Debug)]
pub enum DriveStrength {
    I5mA,
    I10mA,
    I20mA,
    I40mA,
}

impl DriveStrength {
    /// The value of the drive strength fields: 0 for 5 mA up to 3 for 40 mA.
    pub open spec fn value_spec(self) -> u32 {
        match self {
            DriveStrength::I5mA => 0,
            DriveStrength::I10mA => 1,
            DriveStrength::I20mA => 2,
            DriveStrength::I40mA => 3,
        }
    }

    /// The value of the drive strength fields.
    pub fn value(&self) -> (v: u32)
        ensures
            v == self.value_spec(),
            v < 4,
    {
        match self {
            DriveStrength::I5mA => 0,
            DriveStrength::I10mA => 1,
            DriveStrength::I20mA => 2,
            DriveStrength::I40mA => 3,
        }
    }
}

/// Alternative pin functions
#[derive(Clone, Copy, PartialEq, Eq, Structural, Debug)]
pub enum AlternateFunction {
    Function1,
    Function2,
    Function3,
    Function4,
    Function5,
    Function6,
}

impl AlternateFunction {
    /// The value of the MCU_SEL field: 0 for function 1 up to 5 for function 6.
    pub open spec fn value_spec(self) -> u32 {
        match self {
            AlternateFunction::Function1 => 0,
            AlternateFunction::Function2 => 1,
            AlternateFunction::Function3 => 2,
            AlternateFunction::Function4 => 3,
            AlternateFunction::Function5 => 4,
            AlternateFunction::Function6 => 5,
        }
    }

    /// The value of the MCU_SEL field.
    pub fn value(&self) -> (v: u32)
        ensures
            v == self.value_spec(),
            v < 6,
    {
        match self {
            AlternateFunction::Function1 => 0,
            AlternateFunction::Function2 => 1,
            AlternateFunction::Function3 => 2,
            AlternateFunction::Function4 => 3,
            AlternateFunction::Function5 => 4,
            AlternateFunction::Function6 => 5,
        }
    }
}

/// A peripheral input signal of the GPIO matrix, by its index.
#[derive(Clone, Copy, PartialEq, Eq, Structural, Debug)]
pub struct InputSignal {
    pub index: u8,
}

/// A peripheral output signal of the GPIO matrix, by its index.
#[derive(Clone, Copy, Debug)]
pub struct OutputSignal {
    index: u16,
}

/// The highest output signal index: the one that hands the pad to the GPIO
/// output registers.
pub open spec fn gpio_output_signal() -> int {
    256
}

impl View for OutputSignal {
    type V = int;

    closed spec fn view(&self) -> int {
        self.index as int
    }
}

impl OutputSignal {
    #[verifier::type_invariant]
    spec fn inv(self) -> bool {
        self.index <= 256
    }

    /// The output signal with the given index, if there is one.
    pub fn new(index: u16) -> (r: Option<OutputSignal>)
        ensures
            r is Some <==> index <= 256,
            r matches Some(s) ==> s@ == index as int,
    {
        if index <= 256 {
            Some(OutputSignal { index })
        } else {
            None
        }
    }

    /// The signal that hands the pad to the GPIO output registers.
    #[allow(non_snake_case)]
    pub fn GPIO() -> (s: OutputSignal)
        ensures
            s@ == gpio_output_signal(),
    {
        OutputSignal { index: 256 }
    }

    /// The index of the signal.
    pub fn index(&self) -> (i: u16)
        ensures
            i as int == self@,
            i <= 256,
    {
        proof {
            use_type_invariant(self);
        }
        self.index
    }
}

/// The IN_SEL value that feeds an input signal a constant low level.
pub open spec fn constant_low_input() -> u32 {
    0x30
}

/// The IN_SEL value that feeds an input signal a constant high level.
pub open spec fn constant_high_input() -> u32 {
    0x38
}

/// The bits of an input routing register that routing an input signal sets.
pub open spec fn in_routing_mask() -> u32 {
    in_matrix_sel().mask_spec() | in_inv_sel().mask_spec() | in_sel().mask_spec()
}

/// Routes input signal `signal` through the matrix from `source`, not inverted.
fn route_constant(signal: InputSignal, source: u32) -> (op: RegisterOp)
    requires
        source == constant_low_input() || source == constant_high_input(),
    ensures
        modifies(
            op,
            Register::GpioFuncInSel(signal.index),
            in_routing_mask(),
            |w: u32|
                write_spec(
                    write_spec(write_spec(w, in_matrix_sel(), 1), in_inv_sel(), 0),
                    in_sel(),
                    source,
                ),
        ),
{
    assert(0x38u32 <= !(0xffff_ffffu32 << 6u32)) by (bit_vector);
    let u = FieldUpdate::of_flag(in_matrix_sel(), true).with_flag(in_inv_sel(), false).with(
        in_sel(),
        source,
    );
    RegisterOp::Modify { register: Register::GpioFuncInSel(signal.index), update: u }
}

/// Connect fixed low to peripheral
pub fn connect_low_to_peripheral(signal: InputSignal) -> (op: RegisterOp)
    ensures
        modifies(
            op,
            Register::GpioFuncInSel(signal.index),
            in_routing_mask(),
            |w: u32|
                write_spec(
                    write_spec(write_spec(w, in_matrix_sel(), 1), in_inv_sel(), 0),
                    in_sel(),
                    constant_low_input(),
                ),
        ),
{
    route_constant(signal, 0x30)
}

/// Connect fixed high to peripheral
pub fn connect_high_to_peripheral(signal: InputSignal) -> (op: RegisterOp)
    ensures
        modifies(
            op,
            Register::GpioFuncInSel(signal.index),
            in_routing_mask(),
            |w: u32|
                write_spec(
                    write_spec(write_spec(w, in_matrix_sel(), 1), in_inv_sel(), 0),
                    in_sel(),
                    constant_high_input(),
                ),
        ),
{
    route_constant(signal, 0x38)
}

} // verus!
