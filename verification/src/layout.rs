//! The chip's register map and pad tables stated as facts of their own, and
//! the proofs that the tables the configuration steps use agree with them.
use vstd::prelude::*;
use vstd::arithmetic::power2::{lemma2_to64, pow2};
use crate::bits::{bit_of, Field};
use crate::config::{
    enable_clear_register, enable_set_register, iomux_register, out_clear_register,
    out_set_register, output_enable_register, output_level_register, pin_mask,
};
use crate::digital::{input_bit_set, input_field, input_register, output_bit_set};
use crate::gpio::{
    constant_high_input, constant_low_input, gpio_output_signal, AlternateFunction, DriveStrength,
};
use crate::registers::{flag, RegisterOp};
use crate::bits::{lemma_low_masks, lemma_read_after_write, read_spec};
use crate::config::{analog_ops_len, analog_setup, input_setup, output_setup};
use crate::pins::{bank, bank_bit, is_gpio, is_output_capable, rtc_pad_spec, PullFields};
use crate::registers::{
    fun_drv, fun_ie, fun_wpd, fun_wpu, in1_data, in_data, in_inv_sel, in_matrix_sel, in_sel,
    mcu_drv, mcu_ie, mcu_oe, mcu_sel, mcu_wpd, mcu_wpu, oen_inv_sel, oen_sel, out_inv_sel,
    out_sel, pad_driver, rtc_enable_clear_bits, slp_sel, Register,
};

verus! {

// What each GPIO bank register does, by its name in the register map.
/// `r` drives high, for each bit written as one, the pin of bank `b` at that bit.
pub open spec fn drives_high(r: Register, b: int) -> bool {
    ||| (r == Register::GpioOutSet && b == 0)
    ||| (r == Register::GpioOut1Set && b == 1)
}

/// `r` drives low, for each bit written as one, the pin of bank `b` at that bit.
pub open spec fn drives_low(r: Register, b: int) -> bool {
    ||| (r == Register::GpioOutClear && b == 0)
    ||| (r == Register::GpioOut1Clear && b == 1)
}

/// `r` enables, for each bit written as one, the output of the pin of bank `b` at that bit.
pub open spec fn enables_outputs(r: Register, b: int) -> bool {
    ||| (r == Register::GpioEnableSet && b == 0)
    ||| (r == Register::GpioEnable1Set && b == 1)
}

/// `r` disables, for each bit written as one, the output of the pin of bank `b` at that bit.
pub open spec fn disables_outputs(r: Register, b: int) -> bool {
    ||| (r == Register::GpioEnableClear && b == 0)
    ||| (r == Register::GpioEnable1Clear && b == 1)
}

/// `r` holds the input levels of bank `b`, one bit per pin.
pub open spec fn holds_levels(r: Register, b: int) -> bool {
    ||| (r == Register::GpioIn && b == 0)
    ||| (r == Register::GpioIn1 && b == 1)
}

/// Every step on a pin names the registers of the pin's own bank for what it
/// does: driving high or low, enabling or disabling the output, reading the
/// level; the bank mask has the pin's bit alone, the level field holds that
/// bit, and the IO_MUX register is the pin's own.
pub proof fn lemma_bank_registers(n: int)
    requires
        is_gpio(n),
    ensures
        drives_high(out_set_register(n), bank(n)),
        drives_low(out_clear_register(n), bank(n)),
        enables_outputs(enable_set_register(n), bank(n)),
        disables_outputs(enable_clear_register(n), bank(n)),
        holds_levels(input_register(n), bank(n)),
        input_field(n).offset == 0,
        input_field(n).wf(),
        input_field(n).covers(bank_bit(n) as u32),
        drives_high(output_level_register(n, true), bank(n)),
        drives_low(output_level_register(n, false), bank(n)),
        enables_outputs(output_enable_register(n, true), bank(n)),
        disables_outputs(output_enable_register(n, false), bank(n)),
        input_field(n).width == (if bank(n) == 0 { 32u32 } else { 8u32 }),
        out_set_register(n) != out_clear_register(n),
        enable_set_register(n) != enable_clear_register(n),
        iomux_register(n) == Register::IoMux(n as u8),
        forall|i: u32| i < 32 ==> (#[trigger] bit_of(pin_mask(n), i) <==> 32 * bank(n) + i == n),
{
    let s = (n % 32) as u32;
    assert(forall|i: u32| i < 32 ==> (#[trigger] bit_of(1u32 << s, i) <==> i == s)) by (bit_vector)
        requires
            s < 32,
    ;
}

/// A pin is set high, or reads high, when its own bit is one in the word of
/// its bank's register; a flag field holds one exactly when the flag is on.
pub proof fn lemma_level_bits(n: int, word: u32, on: bool)
    requires
        is_gpio(n),
    ensures
        output_bit_set(n, word) <==> bit_of(word, bank_bit(n) as u32),
        input_bit_set(n, word) <==> bit_of(word, bank_bit(n) as u32),
        (flag(on) == 1u32) == on,
        flag(on) <= 1,
{
    let s = bank_bit(n) as u32;
    assert((word & (1u32 << s) != 0) == (((word >> s) & 1u32) == 1u32)) by (bit_vector)
        requires
            s < 32,
    ;
    if n < 32 {
        assert((((word >> 0u32) & 0xffff_ffffu32) & (1u32 << s) != 0) == (((word >> s) & 1u32)
            == 1u32)) by (bit_vector)
            requires
                s < 32,
        ;
    } else {
        assert((((word >> 0u32) & !(0xffff_ffffu32 << 8u32)) & (1u32 << s) != 0) == (((word >> s)
            & 1u32) == 1u32)) by (bit_vector)
            requires
                s < 8,
        ;
    }
}

/// The pads of the chip: GPIO 0 to 39 but 24 and 28 to 31; all drive
/// outputs but the six from 34 up, which are input only.
pub proof fn lemma_gpio_numbers(n: int)
    ensures
        is_gpio(n) <==> (0 <= n <= 39 && n != 24 && !(28 <= n <= 31)),
        is_output_capable(n) <==> (is_gpio(n) && n < 34),
        is_gpio(n) ==> bank(n) == (if n < 32 { 0int } else { 1int }),
        is_gpio(n) ==> 32 * bank(n) + bank_bit(n) == n,
{
}

/// The current, in mA, that a drive strength is named after.
pub open spec fn milliamps(s: DriveStrength) -> nat {
    match s {
        DriveStrength::I5mA => 5,
        DriveStrength::I10mA => 10,
        DriveStrength::I20mA => 20,
        DriveStrength::I40mA => 40,
    }
}

/// Each step of the drive strength field doubles the current: the field of a
/// strength of 5 * 2^k mA holds k.
pub proof fn lemma_drive_strength_values(s: DriveStrength)
    ensures
        milliamps(s) == 5 * pow2(s.value_spec() as nat),
        s.value_spec() < 4,
{
    lemma2_to64();
}

/// The number an alternate function is named after.
pub open spec fn function_number(a: AlternateFunction) -> int {
    match a {
        AlternateFunction::Function1 => 1,
        AlternateFunction::Function2 => 2,
        AlternateFunction::Function3 => 3,
        AlternateFunction::Function4 => 4,
        AlternateFunction::Function5 => 5,
        AlternateFunction::Function6 => 6,
    }
}

/// MCU_SEL holds one less than the number of the function it selects.
pub proof fn lemma_alternate_function_values(a: AlternateFunction)
    ensures
        a.value_spec() == function_number(a) - 1,
{
}

/// The constant sources of the input matrix: 0x30 feeds a constant low,
/// 0x38 a constant high. Output signal 256 hands a pad to the GPIO output
/// registers.
pub proof fn lemma_constant_inputs()
    ensures
        constant_low_input() == 0x30,
        constant_high_input() == 0x38,
        gpio_output_signal() == 256,
{
}

/// The layout of the IO_MUX pad register: from bit 0 up MCU_OE, SLP_SEL,
/// MCU_WPD, MCU_WPU, MCU_IE, MCU_DRV (2 bits), FUN_WPD, FUN_WPU, FUN_IE,
/// FUN_DRV (2 bits), MCU_SEL (3 bits), each starting where the one before
/// ends; each sleep-mode field lies five bits below its awake counterpart.
pub proof fn lemma_iomux_layout()
    ensures
        mcu_oe() == (Field { offset: 0, width: 1 }),
        slp_sel().offset == mcu_oe().offset + mcu_oe().width,
        slp_sel().width == 1,
        mcu_wpd().offset == slp_sel().offset + slp_sel().width,
        mcu_wpd().width == 1,
        mcu_wpu().offset == mcu_wpd().offset + mcu_wpd().width,
        mcu_wpu().width == 1,
        mcu_ie().offset == mcu_wpu().offset + mcu_wpu().width,
        mcu_ie().width == 1,
        mcu_drv().offset == mcu_ie().offset + mcu_ie().width,
        mcu_drv().width == 2,
        fun_wpd().offset == mcu_drv().offset + mcu_drv().width,
        fun_wpu().offset == fun_wpd().offset + fun_wpd().width,
        fun_ie().offset == fun_wpu().offset + fun_wpu().width,
        fun_drv().offset == fun_ie().offset + fun_ie().width,
        mcu_sel().offset == fun_drv().offset + fun_drv().width,
        mcu_sel().width == 3,
        fun_wpd().offset == mcu_wpd().offset + 5,
        fun_wpd().width == mcu_wpd().width,
        fun_wpu().offset == mcu_wpu().offset + 5,
        fun_wpu().width == mcu_wpu().width,
        fun_ie().offset == mcu_ie().offset + 5,
        fun_ie().width == mcu_ie().width,
        fun_drv().offset == mcu_drv().offset + 5,
        fun_drv().width == mcu_drv().width,
{
}

/// The layout of the matrix routing registers and of the other register
/// fields the configuration writes.
pub proof fn lemma_routing_layout()
    ensures
        out_sel() == (Field { offset: 0, width: 9 }),
        out_inv_sel() == (Field { offset: 9, width: 1 }),
        oen_sel() == (Field { offset: 10, width: 1 }),
        oen_inv_sel() == (Field { offset: 11, width: 1 }),
        in_sel() == (Field { offset: 0, width: 6 }),
        in_inv_sel() == (Field { offset: 6, width: 1 }),
        in_matrix_sel() == (Field { offset: 7, width: 1 }),
        pad_driver() == (Field { offset: 2, width: 1 }),
        in_data() == (Field { offset: 0, width: 32 }),
        in1_data() == (Field { offset: 0, width: 8 }),
        rtc_enable_clear_bits() == (Field { offset: 14, width: 18 }),
{
}

/// The GPIO number of RTC GPIO `i`.
pub open spec fn rtc_gpio_number(i: int) -> int {
    if i == 0 {
        36
    } else if i == 1 {
        37
    } else if i == 2 {
        38
    } else if i == 3 {
        39
    } else if i == 4 {
        34
    } else if i == 5 {
        35
    } else if i == 6 {
        25
    } else if i == 7 {
        26
    } else if i == 8 {
        33
    } else if i == 9 {
        32
    } else if i == 10 {
        4
    } else if i == 11 {
        0
    } else if i == 12 {
        2
    } else if i == 13 {
        15
    } else if i == 14 {
        13
    } else if i == 15 {
        12
    } else if i == 16 {
        14
    } else if i == 17 {
        27
    } else {
        -1
    }
}

/// The pads with an RTC side are exactly the eighteen RTC GPIOs: RTC GPIO
/// `i` is the pad of GPIO `rtc_gpio_number(i)`, and the pad of a GPIO names
/// the RTC GPIO whose number is that GPIO's.
pub proof fn lemma_rtc_gpio_numbers(i: int, n: int)
    ensures
        0 <= i < 18 ==> (rtc_pad_spec(rtc_gpio_number(i)) matches Some(p) && p.rtc_index == i),
        rtc_pad_spec(n) matches Some(p) ==> p.rtc_index < 18 && rtc_gpio_number(
            p.rtc_index as int,
        ) == n && is_gpio(n),
{
}

/// Where the fields of each RTC pad lie, by the register that holds it:
/// - the sensor pads (RTC GPIO 0 to 3) share RTCIO_SENSOR_PADS, pad `i`
///   with its mux at bit 27 - i, its function at 22 - 5i and its input
///   enable at 19 - 5i, without pulls;
/// - the ADC pads (RTC GPIO 4 and 5) share RTCIO_ADC_PAD, pad `i` with its
///   mux at bit 33 - i and its function at 46 - 5i; the input enable cleared
///   is that of ADC1 (bit 23) for both;
/// - the DAC pads (RTC GPIO 6 and 7) each have a register of their own;
/// - the 32 kHz crystal pads (RTC GPIO 8 and 9) share RTCIO_XTAL_32K_PAD,
///   pad `i` with its mux at bit 26 - i, its function at 15 - 6(i - 8), its
///   input enable at 11 - 6(i - 8) and its pulls at 27 - 5(i - 8) and one up;
/// - touch pad `k` is RTC GPIO 10 + k, in RTCIO_TOUCH_PADk;
/// - the DAC and touch pads have their mux at bit 19 or 17 as below, their
///   function at 17 or 15, their input enable at 13 or 11, and their pulls
///   at 27 and 28.
pub proof fn lemma_rtc_pad_layout(n: int)
    ensures
        rtc_pad_spec(n) matches Some(p) ==> {
            let i = p.rtc_index as int;
            &&& p.fun_sel.width == 2
            &&& p.mux_sel.width == 1
            &&& p.fun_ie.width == 1
            &&& (i < 4 ==> {
                &&& p.register == Register::RtcSensorPads
                &&& p.mux_sel.offset == 27 - i
                &&& p.fun_sel.offset == 22 - 5 * i
                &&& p.fun_ie.offset == 19 - 5 * i
                &&& p.pulls is None
            })
            &&& (4 <= i < 6 ==> {
                &&& p.register == Register::RtcAdcPad
                &&& p.mux_sel.offset == 33 - i
                &&& p.fun_sel.offset == 46 - 5 * i
                &&& p.fun_ie.offset == 23
                &&& p.pulls is None
            })
            &&& (i == 6 ==> p.register == Register::RtcPadDac1)
            &&& (i == 7 ==> p.register == Register::RtcPadDac2)
            &&& (6 <= i < 8 ==> {
                &&& p.mux_sel.offset == 17
                &&& p.fun_sel.offset == 15
                &&& p.fun_ie.offset == 11
            })
            &&& (8 <= i < 10 ==> {
                &&& p.register == Register::RtcXtal32kPad
                &&& p.mux_sel.offset == 26 - i
                &&& p.fun_sel.offset == 15 - 6 * (i - 8)
                &&& p.fun_ie.offset == 11 - 6 * (i - 8)
                &&& p.pulls == Some(
                    PullFields {
                        up: Field { offset: (27 - 5 * (i - 8)) as u32, width: 1 },
                        down: Field { offset: (28 - 5 * (i - 8)) as u32, width: 1 },
                    },
                )
            })
            &&& (10 <= i ==> {
                &&& p.register == Register::RtcTouchPad((i - 10) as u8)
                &&& p.mux_sel.offset == 19
                &&& p.fun_sel.offset == 17
                &&& p.fun_ie.offset == 13
            })
            &&& ((6 <= i < 8 || 10 <= i) ==> p.pulls == Some(
                PullFields {
                    up: Field { offset: 27, width: 1 },
                    down: Field { offset: 28, width: 1 },
                },
            ))
        },
{
}

/// What setting a pin up as an output does, field by field, whatever the
/// registers held before: the pad leaves its RTC function, its output is
/// enabled in its bank, it is open drain exactly when asked, the GPIO output
/// signal (256) drives it, and its IO_MUX register selects the function
/// asked for with input, pulls and sleep mode off and a 20 mA drive.
pub proof fn lemma_output_setup_fields(
    n: int,
    alternate: AlternateFunction,
    open_drain: bool,
    s: Seq<RegisterOp>,
    w: u32,
)
    requires
        is_output_capable(n),
        output_setup(n, alternate, open_drain, s),
    ensures
        ({
            let k = analog_ops_len(n);
            &&& (rtc_pad_spec(n) matches Some(p) ==> s[0].register_spec() == p.register
                && read_spec(s[0].result_spec(w), p.mux_sel) == 0)
            &&& enables_outputs(s[k].register_spec(), bank(n))
            &&& s[k] == (RegisterOp::Write { register: s[k].register_spec(), value: pin_mask(n) })
            &&& s[k + 1].register_spec() == Register::GpioPin(n as u8)
            &&& (read_spec(s[k + 1].result_spec(w), pad_driver()) == 1) == open_drain
            &&& s[k + 2].register_spec() == Register::GpioFuncOutSel(n as u8)
            &&& read_spec(s[k + 2].result_spec(w), out_sel()) == 256
            &&& s[k + 3].register_spec() == Register::IoMux(n as u8)
            &&& read_spec(s[k + 3].result_spec(w), mcu_sel()) == function_number(alternate) - 1
            &&& read_spec(s[k + 3].result_spec(w), fun_ie()) == 0
            &&& read_spec(s[k + 3].result_spec(w), fun_wpu()) == 0
            &&& read_spec(s[k + 3].result_spec(w), fun_wpd()) == 0
            &&& read_spec(s[k + 3].result_spec(w), slp_sel()) == 0
            &&& milliamps(DriveStrength::I20mA) == 5 * pow2(
                read_spec(s[k + 3].result_spec(w), fun_drv()) as nat,
            )
        }),
{
    broadcast use lemma_read_after_write;

    lemma_low_masks();
    lemma2_to64();
    crate::config::lemma_output_iomux_fields(w, alternate);
    lemma_rtc_pad_layout(n);
    lemma_bank_registers(n);
}

/// What setting a pin up as an input does, field by field, whatever the
/// registers held before: the pad leaves its RTC function, its output is
/// disabled in its bank, the GPIO output signal (256) is routed to it, and
/// its IO_MUX register selects function 3 (GPIO) with input on, the pulls
/// as asked and sleep mode off.
pub proof fn lemma_input_setup_fields(
    n: int,
    pull_down: bool,
    pull_up: bool,
    s: Seq<RegisterOp>,
    w: u32,
)
    requires
        is_gpio(n),
        input_setup(n, pull_down, pull_up, s),
    ensures
        ({
            let k = analog_ops_len(n);
            &&& (rtc_pad_spec(n) matches Some(p) ==> s[0].register_spec() == p.register
                && read_spec(s[0].result_spec(w), p.mux_sel) == 0)
            &&& disables_outputs(s[k].register_spec(), bank(n))
            &&& s[k] == (RegisterOp::Write { register: s[k].register_spec(), value: pin_mask(n) })
            &&& s[k + 1].register_spec() == Register::GpioFuncOutSel(n as u8)
            &&& read_spec(s[k + 1].result_spec(w), out_sel()) == 256
            &&& s[k + 2].register_spec() == Register::IoMux(n as u8)
            &&& read_spec(s[k + 2].result_spec(w), mcu_sel()) == 2
            &&& read_spec(s[k + 2].result_spec(w), fun_ie()) == 1
            &&& (read_spec(s[k + 2].result_spec(w), fun_wpu()) == 1) == pull_up
            &&& (read_spec(s[k + 2].result_spec(w), fun_wpd()) == 1) == pull_down
            &&& read_spec(s[k + 2].result_spec(w), slp_sel()) == 0
        }),
{
    broadcast use lemma_read_after_write;

    lemma_low_masks();
    crate::config::lemma_input_iomux_fields(w, pull_down, pull_up);
    lemma_rtc_pad_layout(n);
    lemma_bank_registers(n);
}

/// What routing a pin to its analog function does, field by field, whatever
/// the registers held before: the pad's RTC multiplexer is on with RTC
/// function 1 (field value 0), its RTC output is a normal one and is disabled
/// (the pin's own bit of the disable register, alone), its input is off, and
/// its pulls are off where it has them.
pub proof fn lemma_analog_setup_fields(n: int, s: Seq<RegisterOp>, w: u32)
    requires
        is_gpio(n),
        analog_setup(n, s),
    ensures
        rtc_pad_spec(n) matches Some(p) && {
            &&& s[0].register_spec() == p.register
            &&& read_spec(s[0].result_spec(w), p.mux_sel) == 1
            &&& read_spec(s[0].result_spec(w), p.fun_sel) == 0
            &&& s[1].register_spec() == Register::RtcPin(p.rtc_index)
            &&& read_spec(s[1].result_spec(w), pad_driver()) == 0
            &&& s[2].register_spec() == Register::RtcEnableClear
            &&& forall|i: u32|
                i < 32 ==> (#[trigger] bit_of(s[2]->Modify_update.bits, i) <==> i == 14
                    + p.rtc_index)
            &&& s[3].register_spec() == p.register
            &&& read_spec(s[3].result_spec(w), p.fun_ie) == 0
            &&& (p.pulls matches Some(q) ==> s[4].register_spec() == p.register && read_spec(
                s[4].result_spec(w),
                q.up,
            ) == 0 && read_spec(s[4].result_spec(w), q.down) == 0)
        },
{
    broadcast use lemma_read_after_write;

    lemma_low_masks();
    lemma_rtc_pad_layout(n);
    let p = rtc_pad_spec(n)->Some_0;
    let idx = p.rtc_index as u32;
    assert(forall|i: u32| i < 32 ==> (#[trigger] bit_of((1u32 << idx) << 14u32, i) <==> i == idx + 14))
        by (bit_vector)
        requires
            idx < 18,
    ;
}

} // verus!
