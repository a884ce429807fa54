//! The registers that pin configuration touches, the layout of their
//! fields, and the operations that a configuration step performs on them.
use vstd::prelude::*;
use crate::bits::{Field, FieldUpdate, write_spec};

verus! {

/// A register of the GPIO, IO_MUX or RTCIO blocks.
///
/// The `Set`/`Clear` registers act on the bits written as ones (a zero bit
/// written there has no effect); the others hold what was last written.
#[derive(Clone, Copy, PartialEq, Eq, Structural, Debug)]
pub enum Register {
    /// GPIO_OUT_W1TS: sets output bits of pins 0 to 31.
    GpioOutSet,
    /// GPIO_OUT_W1TC: clears output bits of pins 0 to 31.
    GpioOutClear,
    /// GPIO_OUT1_W1TS: sets output bits of pins 32 to 39.
    GpioOut1Set,
    /// GPIO_OUT1_W1TC: clears output bits of pins 32 to 39.
    GpioOut1Clear,
    /// GPIO_ENABLE_W1TS: enables the output of pins 0 to 31.
    GpioEnableSet,
    /// GPIO_ENABLE_W1TC: disables the output of pins 0 to 31.
    GpioEnableClear,
    /// GPIO_ENABLE1_W1TS: enables the output of pins 32 to 39.
    GpioEnable1Set,
    /// GPIO_ENABLE1_W1TC: disables the output of pins 32 to 39.
    GpioEnable1Clear,
    /// GPIO_IN: input levels of pins 0 to 31.
    GpioIn,
    /// GPIO_IN1: input levels of pins 32 to 39.
    GpioIn1,
    /// GPIO_PINn of pin n.
    GpioPin(u8),
    /// GPIO_FUNCn_OUT_SEL_CFG of pin n.
    GpioFuncOutSel(u8),
    /// GPIO_FUNCy_IN_SEL_CFG of input signal y.
    GpioFuncInSel(u8),
    /// The IO_MUX pad register of GPIO n.
    IoMux(u8),
    /// RTCIO_SENSOR_PADS (GPIO 36 to 39).
    RtcSensorPads,
    /// RTCIO_ADC_PAD (GPIO 34 and 35).
    RtcAdcPad,
    /// RTCIO_PAD_DAC1 (GPIO 25).
    RtcPadDac1,
    /// RTCIO_PAD_DAC2 (GPIO 26).
    RtcPadDac2,
    /// RTCIO_XTAL_32K_PAD (GPIO 32 and 33).
    RtcXtal32kPad,
    /// RTCIO_TOUCH_PADn.
    RtcTouchPad(u8),
    /// RTCIO_RTC_GPIO_PINn of RTC GPIO n.
    RtcPin(u8),
    /// RTCIO_RTC_GPIO_ENABLE_W1TC: disables the output of RTC GPIOs.
    RtcEnableClear,
}

/// What one configuration step does to one register.
#[derive(Clone, Copy, PartialEq, Eq, Structural, Debug)]
pub enum RegisterOp {
    /// Writes the whole word.
    Write { register: Register, value: u32 },
    /// Reads the word, applies the update, writes the result back.
    Modify { register: Register, update: FieldUpdate },
}

impl RegisterOp {
    /// The register the operation acts on.
    pub open spec fn register_spec(self) -> Register {
        match self {
            RegisterOp::Write { register, .. } => register,
            RegisterOp::Modify { register, .. } => register,
        }
    }

    /// The word the operation writes to the register, given the word read
    /// from it (on the set and clear registers this is not a word the
    /// register holds afterwards: only its ones act).
    pub open spec fn result_spec(self, old: u32) -> u32 {
        match self {
            RegisterOp::Write { value, .. } => value,
            RegisterOp::Modify { update, .. } => update.apply_spec(old),
        }
    }

    /// The word to write to the register, given the word read from it.
    pub fn result(&self, old: u32) -> (r: u32)
        ensures
            r == self.result_spec(old),
    {
        match self {
            RegisterOp::Write { value, .. } => *value,
            RegisterOp::Modify { update, .. } => update.apply(old),
        }
    }
}

/// `op` writes `value` to `reg`.
pub open spec fn writes(op: RegisterOp, reg: Register, value: u32) -> bool {
    op == RegisterOp::Write { register: reg, value }
}

/// `op` is a read-modify-write of `reg` that replaces the bits of `mask` and
/// turns a word `w` into `g(w)`.
pub open spec fn modifies(op: RegisterOp, reg: Register, mask: u32, g: spec_fn(u32) -> u32) -> bool {
    &&& op is Modify
    &&& op->Modify_register == reg
    &&& op->Modify_update.wf()
    &&& op->Modify_update.mask == mask
    &&& forall|w: u32| #[trigger] op->Modify_update.apply_spec(w) == g(w)
}

/// The field value that stands for a flag.
pub open spec fn flag(on: bool) -> u32 {
    if on {
        1u32
    } else {
        0u32
    }
}

/// `op` is a read-modify-write of `reg` that sets the one-bit field `f` to `on`.
pub open spec fn sets_flag(op: RegisterOp, reg: Register, f: Field, on: bool) -> bool {
    modifies(op, reg, f.mask_spec(), |w: u32| write_spec(w, f, flag(on)))
}

/// `op` is a read-modify-write of `reg` that sets field `f` to `value`.
pub open spec fn sets_field(op: RegisterOp, reg: Register, f: Field, value: u32) -> bool {
    modifies(op, reg, f.mask_spec(), |w: u32| write_spec(w, f, value))
}

// IO_MUX pad register fields.
/// MCU_OE: output enable while the chip sleeps.
#[verifier::allow_in_spec]
pub fn mcu_oe() -> Field
    returns
        (Field { offset: 0, width: 1 }),
{
    Field { offset: 0, width: 1 }
}

/// SLP_SEL: the pad takes its sleep configuration while the chip sleeps.
#[verifier::allow_in_spec]
pub fn slp_sel() -> Field
    returns
        (Field { offset: 1, width: 1 }),
{
    Field { offset: 1, width: 1 }
}

/// MCU_WPD: pull-down while the chip sleeps.
#[verifier::allow_in_spec]
pub fn mcu_wpd() -> Field
    returns
        (Field { offset: 2, width: 1 }),
{
    Field { offset: 2, width: 1 }
}

/// MCU_WPU: pull-up while the chip sleeps.
#[verifier::allow_in_spec]
pub fn mcu_wpu() -> Field
    returns
        (Field { offset: 3, width: 1 }),
{
    Field { offset: 3, width: 1 }
}

/// MCU_IE: input enable while the chip sleeps.
#[verifier::allow_in_spec]
pub fn mcu_ie() -> Field
    returns
        (Field { offset: 4, width: 1 }),
{
    Field { offset: 4, width: 1 }
}

/// MCU_DRV: drive strength while the chip sleeps.
#[verifier::allow_in_spec]
pub fn mcu_drv() -> Field
    returns
        (Field { offset: 5, width: 2 }),
{
    Field { offset: 5, width: 2 }
}

/// FUN_WPD: pull-down.
#[verifier::allow_in_spec]
pub fn fun_wpd() -> Field
    returns
        (Field { offset: 7, width: 1 }),
{
    Field { offset: 7, width: 1 }
}

/// FUN_WPU: pull-up.
#[verifier::allow_in_spec]
pub fn fun_wpu() -> Field
    returns
        (Field { offset: 8, width: 1 }),
{
    Field { offset: 8, width: 1 }
}

/// FUN_IE: input enable.
#[verifier::allow_in_spec]
pub fn fun_ie() -> Field
    returns
        (Field { offset: 9, width: 1 }),
{
    Field { offset: 9, width: 1 }
}

/// FUN_DRV: drive strength.
#[verifier::allow_in_spec]
pub fn fun_drv() -> Field
    returns
        (Field { offset: 10, width: 2 }),
{
    Field { offset: 10, width: 2 }
}

/// MCU_SEL: which function drives the pad.
#[verifier::allow_in_spec]
pub fn mcu_sel() -> Field
    returns
        (Field { offset: 12, width: 3 }),
{
    Field { offset: 12, width: 3 }
}

// GPIO_PINn and RTCIO_RTC_GPIO_PINn.
/// PAD_DRIVER: open-drain output.
#[verifier::allow_in_spec]
pub fn pad_driver() -> Field
    returns
        (Field { offset: 2, width: 1 }),
{
    Field { offset: 2, width: 1 }
}

// GPIO_FUNCn_OUT_SEL_CFG.
/// OUT_SEL: the output signal routed to the pad.
#[verifier::allow_in_spec]
pub fn out_sel() -> Field
    returns
        (Field { offset: 0, width: 9 }),
{
    Field { offset: 0, width: 9 }
}

/// INV_SEL: invert the output signal.
#[verifier::allow_in_spec]
pub fn out_inv_sel() -> Field
    returns
        (Field { offset: 9, width: 1 }),
{
    Field { offset: 9, width: 1 }
}

/// OEN_SEL: take the output enable from the GPIO enable register.
#[verifier::allow_in_spec]
pub fn oen_sel() -> Field
    returns
        (Field { offset: 10, width: 1 }),
{
    Field { offset: 10, width: 1 }
}

/// OEN_INV_SEL: invert the output enable.
#[verifier::allow_in_spec]
pub fn oen_inv_sel() -> Field
    returns
        (Field { offset: 11, width: 1 }),
{
    Field { offset: 11, width: 1 }
}

// GPIO_FUNCy_IN_SEL_CFG.
/// IN_SEL: the pad (or constant level) routed to the input signal.
#[verifier::allow_in_spec]
pub fn in_sel() -> Field
    returns
        (Field { offset: 0, width: 6 }),
{
    Field { offset: 0, width: 6 }
}

/// IN_INV_SEL: invert the input.
#[verifier::allow_in_spec]
pub fn in_inv_sel() -> Field
    returns
        (Field { offset: 6, width: 1 }),
{
    Field { offset: 6, width: 1 }
}

/// SEL: route the input signal through the GPIO matrix.
#[verifier::allow_in_spec]
pub fn in_matrix_sel() -> Field
    returns
        (Field { offset: 7, width: 1 }),
{
    Field { offset: 7, width: 1 }
}

// Input level registers.
/// IN_DATA of GPIO_IN: the levels of pins 0 to 31.
#[verifier::allow_in_spec]
pub fn in_data() -> Field
    returns
        (Field { offset: 0, width: 32 }),
{
    Field { offset: 0, width: 32 }
}

/// IN1_DATA of GPIO_IN1: the levels of pins 32 to 39.
#[verifier::allow_in_spec]
pub fn in1_data() -> Field
    returns
        (Field { offset: 0, width: 8 }),
{
    Field { offset: 0, width: 8 }
}

/// The field of RTCIO_RTC_GPIO_ENABLE_W1TC, one bit per RTC GPIO.
#[verifier::allow_in_spec]
pub fn rtc_enable_clear_bits() -> Field
    returns
        (Field { offset: 14, width: 18 }),
{
    Field { offset: 14, width: 18 }
}

} // verus!
