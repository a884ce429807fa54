//! Pin configuration steps as register programs: each function returns the
//! register operations that carry out one method of a pin, in order.
use vstd::prelude::*;
use crate::bits::{lemma_low_masks, lemma_read_after_write, read_spec, single_bit, write_spec, FieldUpdate};
use crate::gpio::{gpio_output_signal, in_routing_mask, AlternateFunction, DriveStrength, InputSignal, OutputSignal};
use crate::pins::{is_output_capable, rtc_pad, rtc_pad_spec, PinId};
use crate::registers::{
    fun_drv, fun_ie, fun_wpd, fun_wpu, in_inv_sel, in_matrix_sel, in_sel, mcu_drv, mcu_ie, mcu_oe,
    mcu_sel, mcu_wpd, mcu_wpu, modifies, oen_inv_sel, oen_sel, out_inv_sel, out_sel, pad_driver,
    rtc_enable_clear_bits, sets_field, sets_flag, slp_sel, flag, writes, Register, RegisterOp,
};

verus! {

/// The word with only the bit of pin `n` in its bank set.
pub open spec fn pin_mask(n: int) -> u32 {
    1u32 << ((n % 32) as u32)
}

/// The register that enables the output of pin `n`.
pub open spec fn enable_set_register(n: int) -> Register {
    if n < 32 {
        Register::GpioEnableSet
    } else {
        Register::GpioEnable1Set
    }
}

/// The register that disables the output of pin `n`.
pub open spec fn enable_clear_register(n: int) -> Register {
    if n < 32 {
        Register::GpioEnableClear
    } else {
        Register::GpioEnable1Clear
    }
}

/// The register that drives pin `n` high.
pub open spec fn out_set_register(n: int) -> Register {
    if n < 32 {
        Register::GpioOutSet
    } else {
        Register::GpioOut1Set
    }
}

/// The register that drives pin `n` low.
pub open spec fn out_clear_register(n: int) -> Register {
    if n < 32 {
        Register::GpioOutClear
    } else {
        Register::GpioOut1Clear
    }
}

/// The register that enables (`on`) or disables the output of pin `n`.
pub open spec fn output_enable_register(n: int, on: bool) -> Register {
    if on {
        enable_set_register(n)
    } else {
        enable_clear_register(n)
    }
}

/// The register that drives pin `n` high (`high`) or low.
pub open spec fn output_level_register(n: int, high: bool) -> Register {
    if high {
        out_set_register(n)
    } else {
        out_clear_register(n)
    }
}

/// The IO_MUX register of pin `n`.
pub open spec fn iomux_register(n: int) -> Register {
    Register::IoMux(n as u8)
}

/// The IO_MUX word of a pad set up as an output driven by function `alternate`:
/// input, pulls and sleep mode off, drive strength 20 mA.
pub open spec fn output_iomux(w: u32, alternate: u32) -> u32 {
    write_spec(
        write_spec(
            write_spec(
                write_spec(write_spec(write_spec(w, mcu_sel(), alternate), fun_ie(), 0), fun_wpd(), 0),
                fun_wpu(),
                0,
            ),
            fun_drv(),
            DriveStrength::I20mA.value_spec(),
        ),
        slp_sel(),
        0,
    )
}

/// The IO_MUX word of a pad set up as a GPIO input with the given pulls:
/// function 3 (GPIO), input on, sleep mode off.
pub open spec fn input_iomux(w: u32, pull_down: bool, pull_up: bool) -> u32 {
    write_spec(
        write_spec(
            write_spec(write_spec(write_spec(w, mcu_sel(), 2), fun_ie(), 1), fun_wpd(), flag(pull_down)),
            fun_wpu(),
            flag(pull_up),
        ),
        slp_sel(),
        0,
    )
}

/// The bits of the IO_MUX register that setting a pad up as an output sets.
pub open spec fn output_iomux_mask() -> u32 {
    mcu_sel().mask_spec() | fun_ie().mask_spec() | fun_wpd().mask_spec() | fun_wpu().mask_spec()
        | fun_drv().mask_spec() | slp_sel().mask_spec()
}

/// The bits of the IO_MUX register that setting a pad up as an input sets.
pub open spec fn input_iomux_mask() -> u32 {
    mcu_sel().mask_spec() | fun_ie().mask_spec() | fun_wpd().mask_spec() | fun_wpu().mask_spec()
        | slp_sel().mask_spec()
}

/// The bits of an output routing register that routing an output signal sets.
pub open spec fn out_routing_mask() -> u32 {
    out_sel().mask_spec() | out_inv_sel().mask_spec() | oen_sel().mask_spec() | oen_inv_sel().mask_spec()
}

/// How many operations it takes to hand pin `n` back to the digital GPIO.
pub open spec fn analog_ops_len(n: int) -> int {
    if rtc_pad_spec(n) is Some {
        1
    } else {
        0
    }
}

/// `s` hands pin `n` back from its RTC function to the digital GPIO: it
/// clears the pad's RTC multiplexer bit, or does nothing on a pad without one.
pub open spec fn disables_analog(n: int, s: Seq<RegisterOp>) -> bool {
    match rtc_pad_spec(n) {
        Some(p) => s.len() == 1 && sets_flag(s[0], p.register, p.mux_sel, false),
        None => s.len() == 0,
    }
}

/// `s` sets pin `n` up as an output driven by function `alternate`, open
/// drain or push-pull.
pub open spec fn output_setup(n: int, alternate: AlternateFunction, open_drain: bool, s: Seq<
    RegisterOp,
>) -> bool {
    let k = analog_ops_len(n);
    &&& s.len() == k + 4
    &&& disables_analog(n, s.take(k))
    &&& writes(s[k], enable_set_register(n), pin_mask(n))
    &&& sets_flag(s[k + 1], Register::GpioPin(n as u8), pad_driver(), open_drain)
    &&& sets_field(s[k + 2], Register::GpioFuncOutSel(n as u8), out_sel(), gpio_output_signal() as u32)
    &&& modifies(s[k + 3], iomux_register(n), output_iomux_mask(), |w: u32| output_iomux(w, alternate.value_spec()))
}

/// `s` sets pin `n` up as a GPIO input with the given pulls.
pub open spec fn input_setup(n: int, pull_down: bool, pull_up: bool, s: Seq<RegisterOp>) -> bool {
    let k = analog_ops_len(n);
    &&& s.len() == k + 3
    &&& disables_analog(n, s.take(k))
    &&& writes(s[k], enable_clear_register(n), pin_mask(n))
    &&& sets_field(s[k + 1], Register::GpioFuncOutSel(n as u8), out_sel(), gpio_output_signal() as u32)
    &&& modifies(s[k + 2], iomux_register(n), input_iomux_mask(), |w: u32| input_iomux(w, pull_down, pull_up))
}

/// `s` routes pin `n` to its RTC function for analog use.
pub open spec fn analog_setup(n: int, s: Seq<RegisterOp>) -> bool {
    match rtc_pad_spec(n) {
        Some(p) => {
            &&& s.len() == if p.pulls is Some {
                5int
            } else {
                4int
            }
            &&& modifies(
                s[0],
                p.register,
                p.mux_sel.mask_spec() | p.fun_sel.mask_spec(),
                |w: u32| write_spec(write_spec(w, p.mux_sel, 1), p.fun_sel, 0),
            )
            &&& sets_flag(s[1], Register::RtcPin(p.rtc_index), pad_driver(), false)
            &&& sets_field(
                s[2],
                Register::RtcEnableClear,
                rtc_enable_clear_bits(),
                1u32 << (p.rtc_index as u32),
            )
            &&& s[2]->Modify_update.bits == (1u32 << (p.rtc_index as u32)) << 14u32
            &&& sets_flag(s[3], p.register, p.fun_ie, false)
            &&& (p.pulls matches Some(q) ==> modifies(
                s[4],
                p.register,
                q.up.mask_spec() | q.down.mask_spec(),
                |w: u32| write_spec(write_spec(w, q.up, 0), q.down, 0),
            ))
        },
        None => false,
    }
}

/// The bit of the pin in the registers of its bank.
pub fn pin_bit(pin: PinId) -> (m: u32)
    ensures
        m == pin_mask(pin@),
{
    let n = pin.number();
    let b = (n % 32) as u32;
    single_bit(b)
}

/// Sets one flag of a register, keeping every other bit.
fn flag_op(register: Register, f: crate::bits::Field, on: bool) -> (op: RegisterOp)
    requires
        f.wf(),
        f.width == 1,
    ensures
        sets_flag(op, register, f, on),
{
    RegisterOp::Modify { register, update: FieldUpdate::of_flag(f, on) }
}

/// Writes one field of a register, keeping every other bit.
fn field_op(register: Register, f: crate::bits::Field, value: u32) -> (op: RegisterOp)
    requires
        f.wf(),
        f.fits(value),
    ensures
        sets_field(op, register, f, value),
        op->Modify_update.bits == value << f.offset,
{
    RegisterOp::Modify { register, update: FieldUpdate::of(f, value) }
}

/// Hands the pad back from its RTC function to the digital GPIO (nothing to
/// do on a pad without an analog function).
pub fn disable_analog(pin: PinId) -> (ops: Vec<RegisterOp>)
    ensures
        disables_analog(pin@, ops@),
        ops@.len() == analog_ops_len(pin@),
{
    let mut ops: Vec<RegisterOp> = Vec::new();
    match rtc_pad(pin) {
        Some(p) => {
            ops.push(flag_op(p.register, p.mux_sel, false));
        },
        None => {},
    }
    ops
}

/// Sets the pad up as an output driven by function `alternate`: hands it
/// back from any RTC function, enables its output, sets open drain or
/// push-pull, routes the GPIO output signal to it, and in its IO_MUX
/// register selects `alternate`, turns input, pulls and sleep mode off and
/// sets the drive strength to 20 mA.
pub fn init_output(pin: PinId, alternate: AlternateFunction, open_drain: bool) -> (ops: Vec<
    RegisterOp,
>)
    requires
        is_output_capable(pin@),
    ensures
        output_setup(pin@, alternate, open_drain, ops@),
{
    proof {
        lemma_low_masks();
    }
    let n = pin.number();
    let mut ops = disable_analog(pin);
    let ghost analog = ops@;
    ops.push(RegisterOp::Write { register: enable_set(n), value: pin_bit(pin) });
    ops.push(flag_op(Register::GpioPin(n), pad_driver(), open_drain));
    ops.push(field_op(Register::GpioFuncOutSel(n), out_sel(), 256));
    let u = FieldUpdate::of(mcu_sel(), alternate.value()).with_flag(fun_ie(), false).with_flag(
        fun_wpd(),
        false,
    ).with_flag(fun_wpu(), false).with(fun_drv(), DriveStrength::I20mA.value()).with_flag(
        slp_sel(),
        false,
    );
    ops.push(RegisterOp::Modify { register: Register::IoMux(n), update: u });
    assert(ops@.take(analog_ops_len(pin@)) == analog);
    ops
}

/// Sets the pad up as a GPIO input: hands it back from any RTC function,
/// disables its output, routes the GPIO output signal to it, and in its
/// IO_MUX register selects function 3 (GPIO), turns input on, sets the
/// pulls as given and turns sleep mode off.
pub fn init_input(pin: PinId, pull_down: bool, pull_up: bool) -> (ops: Vec<RegisterOp>)
    ensures
        input_setup(pin@, pull_down, pull_up, ops@),
{
    proof {
        lemma_low_masks();
    }
    let n = pin.number();
    let mut ops = disable_analog(pin);
    let ghost analog = ops@;
    ops.push(RegisterOp::Write { register: enable_clear(n), value: pin_bit(pin) });
    ops.push(field_op(Register::GpioFuncOutSel(n), out_sel(), 256));
    let u = FieldUpdate::of(mcu_sel(), 2).with_flag(fun_ie(), true).with_flag(
        fun_wpd(),
        pull_down,
    ).with_flag(fun_wpu(), pull_up).with_flag(slp_sel(), false);
    ops.push(RegisterOp::Modify { register: Register::IoMux(n), update: u });
    assert(ops@.take(analog_ops_len(pin@)) == analog);
    ops
}

fn enable_set(n: u8) -> (r: Register)
    ensures
        r == enable_set_register(n as int),
{
    if n < 32 {
        Register::GpioEnableSet
    } else {
        Register::GpioEnable1Set
    }
}

fn enable_clear(n: u8) -> (r: Register)
    ensures
        r == enable_clear_register(n as int),
{
    if n < 32 {
        Register::GpioEnableClear
    } else {
        Register::GpioEnable1Clear
    }
}

fn out_set(n: u8) -> (r: Register)
    ensures
        r == out_set_register(n as int),
{
    if n < 32 {
        Register::GpioOutSet
    } else {
        Register::GpioOut1Set
    }
}

fn out_clear(n: u8) -> (r: Register)
    ensures
        r == out_clear_register(n as int),
{
    if n < 32 {
        Register::GpioOutClear
    } else {
        Register::GpioOut1Clear
    }
}

/// Enable/Disable the sleep mode of the pad
pub fn sleep_mode(pin: PinId, on: bool) -> (op: RegisterOp)
    ensures
        sets_flag(op, iomux_register(pin@), slp_sel(), on),
{
    flag_op(Register::IoMux(pin.number()), slp_sel(), on)
}

/// Set pad as input
///
/// Disables output, pull up/down resistors and sleep mode.
/// Sets function to GPIO. Does not change sleep mode settings
pub fn set_to_input(pin: PinId) -> (ops: Vec<RegisterOp>)
    ensures
        input_setup(pin@, false, false, ops@),
{
    init_input(pin, false, false)
}

/// Enable/Disable input circuitry
pub fn enable_input(pin: PinId, on: bool) -> (op: RegisterOp)
    ensures
        sets_flag(op, iomux_register(pin@), fun_ie(), on),
{
    flag_op(Register::IoMux(pin.number()), fun_ie(), on)
}

/// Enable/Disable input circuitry while in sleep mode
pub fn input_in_sleep_mode(pin: PinId, on: bool) -> (op: RegisterOp)
    ensures
        sets_flag(op, iomux_register(pin@), mcu_ie(), on),
{
    flag_op(Register::IoMux(pin.number()), mcu_ie(), on)
}

/// Connect input to peripheral: the GPIO matrix feeds input signal
/// `signal` from this pad, inverted if `invert`.
pub fn connect_input_to_peripheral(pin: PinId, signal: InputSignal, invert: bool) -> (op:
    RegisterOp)
    ensures
        modifies(
            op,
            Register::GpioFuncInSel(signal.index),
            in_routing_mask(),
            |w: u32|
                write_spec(
                    write_spec(write_spec(w, in_matrix_sel(), 1), in_inv_sel(), flag(invert)),
                    in_sel(),
                    pin@ as u32,
                ),
        ),
{
    proof {
        lemma_low_masks();
    }
    let n = pin.number();
    let u = FieldUpdate::of_flag(in_matrix_sel(), true).with_flag(in_inv_sel(), invert).with(
        in_sel(),
        n as u32,
    );
    RegisterOp::Modify { register: Register::GpioFuncInSel(signal.index), update: u }
}

/// Set pad to open drain output
///
/// Disables input, pull up/down resistors and sleep mode.
/// Sets function to GPIO and drive strength to default (20mA).
///  Does not change sleep mode settings.
pub fn set_to_open_drain_output(pin: PinId) -> (ops: Vec<RegisterOp>)
    requires
        is_output_capable(pin@),
    ensures
        output_setup(pin@, AlternateFunction::Function3, true, ops@),
{
    init_output(pin, AlternateFunction::Function3, true)
}

/// Set pad to push/pull output
///
/// Disables input, pull up/down resistors and sleep mode.
/// Sets function to GPIO and drive strength to default (20mA).
///  Does not change sleep mode settings.
pub fn set_to_push_pull_output(pin: PinId) -> (ops: Vec<RegisterOp>)
    requires
        is_output_capable(pin@),
    ensures
        output_setup(pin@, AlternateFunction::Function3, false, ops@),
{
    init_output(pin, AlternateFunction::Function3, false)
}

/// Enable the output
pub fn enable_output(pin: PinId, on: bool) -> (op: RegisterOp)
    requires
        is_output_capable(pin@),
    ensures
        writes(op, output_enable_register(pin@, on), pin_mask(pin@)),
{
    let n = pin.number();
    let register = if on {
        enable_set(n)
    } else {
        enable_clear(n)
    };
    RegisterOp::Write { register, value: pin_bit(pin) }
}

/// Drives the output high or low
pub fn set_output_high(pin: PinId, high: bool) -> (op: RegisterOp)
    requires
        is_output_capable(pin@),
    ensures
        writes(op, output_level_register(pin@, high), pin_mask(pin@)),
{
    let n = pin.number();
    let register = if high {
        out_set(n)
    } else {
        out_clear(n)
    };
    RegisterOp::Write { register, value: pin_bit(pin) }
}

/// Set drive strength
pub fn set_drive_strength(pin: PinId, strength: DriveStrength) -> (op: RegisterOp)
    requires
        is_output_capable(pin@),
    ensures
        sets_field(op, iomux_register(pin@), fun_drv(), strength.value_spec()),
{
    proof {
        lemma_low_masks();
    }
    field_op(Register::IoMux(pin.number()), fun_drv(), strength.value())
}

/// Set the alternate function
pub fn set_alternate_function(pin: PinId, alternate: AlternateFunction) -> (op: RegisterOp)
    requires
        is_output_capable(pin@),
    ensures
        sets_field(op, iomux_register(pin@), mcu_sel(), alternate.value_spec()),
{
    proof {
        lemma_low_masks();
    }
    field_op(Register::IoMux(pin.number()), mcu_sel(), alternate.value())
}

/// Enable/Disable open drain
pub fn enable_open_drain(pin: PinId, on: bool) -> (op: RegisterOp)
    requires
        is_output_capable(pin@),
    ensures
        sets_flag(op, Register::GpioPin(pin@ as u8), pad_driver(), on),
{
    flag_op(Register::GpioPin(pin.number()), pad_driver(), on)
}

/// Enable/Disable internal pull up resistor
pub fn internal_pull_up(pin: PinId, on: bool) -> (op: RegisterOp)
    requires
        is_output_capable(pin@),
    ensures
        sets_flag(op, iomux_register(pin@), fun_wpu(), on),
{
    flag_op(Register::IoMux(pin.number()), fun_wpu(), on)
}

/// Enable/Disable internal pull down resistor
pub fn internal_pull_down(pin: PinId, on: bool) -> (op: RegisterOp)
    requires
        is_output_capable(pin@),
    ensures
        sets_flag(op, iomux_register(pin@), fun_wpd(), on),
{
    flag_op(Register::IoMux(pin.number()), fun_wpd(), on)
}

/// Set drive strength while in sleep mode
pub fn set_drive_strength_in_sleep_mode(pin: PinId, strength: DriveStrength) -> (op: RegisterOp)
    requires
        is_output_capable(pin@),
    ensures
        sets_field(op, iomux_register(pin@), mcu_drv(), strength.value_spec()),
{
    proof {
        lemma_low_masks();
    }
    field_op(Register::IoMux(pin.number()), mcu_drv(), strength.value())
}

/// Enable/Disable internal pull up resistor while in sleep mode
pub fn internal_pull_up_in_sleep_mode(pin: PinId, on: bool) -> (op: RegisterOp)
    requires
        is_output_capable(pin@),
    ensures
        sets_flag(op, iomux_register(pin@), mcu_wpu(), on),
{
    flag_op(Register::IoMux(pin.number()), mcu_wpu(), on)
}

/// Enable/Disable internal pull down resistor while in sleep mode
pub fn internal_pull_down_in_sleep_mode(pin: PinId, on: bool) -> (op: RegisterOp)
    requires
        is_output_capable(pin@),
    ensures
        sets_flag(op, iomux_register(pin@), mcu_wpd(), on),
{
    flag_op(Register::IoMux(pin.number()), mcu_wpd(), on)
}

/// Enable/Disable the output while in sleep mode
pub fn output_in_sleep_mode(pin: PinId, on: bool) -> (op: RegisterOp)
    requires
        is_output_capable(pin@),
    ensures
        sets_flag(op, iomux_register(pin@), mcu_oe(), on),
{
    flag_op(Register::IoMux(pin.number()), mcu_oe(), on)
}

/// Connect peripheral to output: the GPIO matrix drives this pad from
/// output signal `signal`.
pub fn connect_peripheral_to_output(
    pin: PinId,
    signal: OutputSignal,
    invert: bool,
    enable_from_gpio: bool,
    invert_enable: bool,
) -> (op: RegisterOp)
    requires
        is_output_capable(pin@),
    ensures
        modifies(
            op,
            Register::GpioFuncOutSel(pin@ as u8),
            out_routing_mask(),
            |w: u32|
                write_spec(
                    write_spec(
                        write_spec(write_spec(w, out_sel(), signal@ as u32), out_inv_sel(), flag(invert)),
                        oen_sel(),
                        flag(enable_from_gpio),
                    ),
                    oen_inv_sel(),
                    flag(invert_enable),
                ),
        ),
{
    proof {
        lemma_low_masks();
    }
    let u = FieldUpdate::of(out_sel(), signal.index() as u32).with_flag(out_inv_sel(), invert).with_flag(
        oen_sel(),
        enable_from_gpio,
    ).with_flag(oen_inv_sel(), invert_enable);
    RegisterOp::Modify { register: Register::GpioFuncOutSel(pin.number()), update: u }
}

/// Configures the pad as an input with its pull-up on.
pub fn into_pull_up_input(pin: PinId) -> (ops: Vec<RegisterOp>)
    requires
        is_output_capable(pin@),
    ensures
        input_setup(pin@, false, true, ops@),
{
    init_input(pin, false, true)
}

/// Configures the pad as an input with its pull-down on.
pub fn into_pull_down_input(pin: PinId) -> (ops: Vec<RegisterOp>)
    requires
        is_output_capable(pin@),
    ensures
        input_setup(pin@, true, false, ops@),
{
    init_input(pin, true, false)
}

/// Configures the pad as an input without pulls.
pub fn into_floating_input(pin: PinId) -> (ops: Vec<RegisterOp>)
    ensures
        input_setup(pin@, false, false, ops@),
{
    init_input(pin, false, false)
}

/// Configures the pad as a push-pull GPIO output.
pub fn into_push_pull_output(pin: PinId) -> (ops: Vec<RegisterOp>)
    requires
        is_output_capable(pin@),
    ensures
        output_setup(pin@, AlternateFunction::Function3, false, ops@),
{
    init_output(pin, AlternateFunction::Function3, false)
}

/// Configures the pad as an open-drain GPIO output.
pub fn into_open_drain_output(pin: PinId) -> (ops: Vec<RegisterOp>)
    requires
        is_output_capable(pin@),
    ensures
        output_setup(pin@, AlternateFunction::Function3, true, ops@),
{
    init_output(pin, AlternateFunction::Function3, true)
}

/// Configures the pad as a push-pull output driven by alternate function 1.
pub fn into_alternate_1(pin: PinId) -> (ops: Vec<RegisterOp>)
    requires
        is_output_capable(pin@),
    ensures
        output_setup(pin@, AlternateFunction::Function1, false, ops@),
{
    init_output(pin, AlternateFunction::Function1, false)
}

/// Configures the pad as a push-pull output driven by alternate function 2.
pub fn into_alternate_2(pin: PinId) -> (ops: Vec<RegisterOp>)
    requires
        is_output_capable(pin@),
    ensures
        output_setup(pin@, AlternateFunction::Function2, false, ops@),
{
    init_output(pin, AlternateFunction::Function2, false)
}

/// Configures the pad as a push-pull output driven by alternate function 4.
pub fn into_alternate_4(pin: PinId) -> (ops: Vec<RegisterOp>)
    requires
        is_output_capable(pin@),
    ensures
        output_setup(pin@, AlternateFunction::Function4, false, ops@),
{
    init_output(pin, AlternateFunction::Function4, false)
}

/// Configures the pad as a push-pull output driven by alternate function 5.
pub fn into_alternate_5(pin: PinId) -> (ops: Vec<RegisterOp>)
    requires
        is_output_capable(pin@),
    ensures
        output_setup(pin@, AlternateFunction::Function5, false, ops@),
{
    init_output(pin, AlternateFunction::Function5, false)
}

/// Configures the pad as a push-pull output driven by alternate function 6.
pub fn into_alternate_6(pin: PinId) -> (ops: Vec<RegisterOp>)
    requires
        is_output_capable(pin@),
    ensures
        output_setup(pin@, AlternateFunction::Function6, false, ops@),
{
    init_output(pin, AlternateFunction::Function6, false)
}

/// Routes the pad to its RTC function for analog use: connects it to the
/// RTC block with RTC function 1 (GPIO), makes its RTC output a normal
/// (not open-drain) one and disables it, disables its input, and turns its
/// pulls off where it has them.
pub fn into_analog(pin: PinId) -> (ops: Vec<RegisterOp>)
    requires
        rtc_pad_spec(pin@) is Some,
    ensures
        analog_setup(pin@, ops@),
{
    proof {
        lemma_low_masks();
    }
    let p = match rtc_pad(pin) {
        Some(p) => p,
        None => {
            return Vec::new();
        },
    };
    let mut ops: Vec<RegisterOp> = Vec::new();
    let mux = FieldUpdate::of_flag(p.mux_sel, true).with(p.fun_sel, 0);
    ops.push(RegisterOp::Modify { register: p.register, update: mux });
    ops.push(flag_op(Register::RtcPin(p.rtc_index), pad_driver(), false));
    let index = p.rtc_index as u32;
    let bit = single_bit(index);
    assert(bit <= 0x3ffffu32) by (bit_vector)
        requires
            bit == 1u32 << index,
            index < 18,
    ;
    ops.push(field_op(Register::RtcEnableClear, rtc_enable_clear_bits(), bit));
    ops.push(flag_op(p.register, p.fun_ie, false));
    match p.pulls {
        Some(q) => {
            let pulls = FieldUpdate::of_flag(q.up, false).with_flag(q.down, false);
            ops.push(RegisterOp::Modify { register: p.register, update: pulls });
        },
        None => {},
    }
    ops
}

/// Setting a pad up as an output selects the given function, turns input,
/// pull-up, pull-down and sleep mode off and sets the drive strength to
/// 20 mA, and does not change the sleep mode settings (the MCU_* fields).
pub proof fn lemma_output_iomux_fields(w: u32, alternate: AlternateFunction)
    ensures
        read_spec(output_iomux(w, alternate.value_spec()), mcu_sel()) == alternate.value_spec(),
        read_spec(output_iomux(w, alternate.value_spec()), fun_ie()) == 0,
        read_spec(output_iomux(w, alternate.value_spec()), fun_wpu()) == 0,
        read_spec(output_iomux(w, alternate.value_spec()), fun_wpd()) == 0,
        read_spec(output_iomux(w, alternate.value_spec()), slp_sel()) == 0,
        read_spec(output_iomux(w, alternate.value_spec()), fun_drv())
            == DriveStrength::I20mA.value_spec(),
        read_spec(output_iomux(w, alternate.value_spec()), mcu_oe()) == read_spec(w, mcu_oe()),
        read_spec(output_iomux(w, alternate.value_spec()), mcu_ie()) == read_spec(w, mcu_ie()),
        read_spec(output_iomux(w, alternate.value_spec()), mcu_wpu()) == read_spec(w, mcu_wpu()),
        read_spec(output_iomux(w, alternate.value_spec()), mcu_wpd()) == read_spec(w, mcu_wpd()),
        read_spec(output_iomux(w, alternate.value_spec()), mcu_drv()) == read_spec(w, mcu_drv()),
{
    broadcast use lemma_read_after_write;

    lemma_low_masks();
}

/// Setting a pad up as an input selects function 3 (GPIO), turns input on,
/// sets the pulls as given and turns sleep mode off, and changes neither
/// the drive strength nor the sleep mode settings (the MCU_* fields).
pub proof fn lemma_input_iomux_fields(w: u32, pull_down: bool, pull_up: bool)
    ensures
        read_spec(input_iomux(w, pull_down, pull_up), mcu_sel())
            == AlternateFunction::Function3.value_spec(),
        read_spec(input_iomux(w, pull_down, pull_up), fun_ie()) == 1,
        read_spec(input_iomux(w, pull_down, pull_up), fun_wpd()) == flag(pull_down),
        read_spec(input_iomux(w, pull_down, pull_up), fun_wpu()) == flag(pull_up),
        read_spec(input_iomux(w, pull_down, pull_up), slp_sel()) == 0,
        read_spec(input_iomux(w, pull_down, pull_up), fun_drv()) == read_spec(w, fun_drv()),
        read_spec(input_iomux(w, pull_down, pull_up), mcu_oe()) == read_spec(w, mcu_oe()),
        read_spec(input_iomux(w, pull_down, pull_up), mcu_ie()) == read_spec(w, mcu_ie()),
        read_spec(input_iomux(w, pull_down, pull_up), mcu_wpu()) == read_spec(w, mcu_wpu()),
        read_spec(input_iomux(w, pull_down, pull_up), mcu_wpd()) == read_spec(w, mcu_wpd()),
        read_spec(input_iomux(w, pull_down, pull_up), mcu_drv()) == read_spec(w, mcu_drv()),
{
    broadcast use lemma_read_after_write;

    lemma_low_masks();
}

/// Connecting a pad to an input signal makes the signal's routing register
/// take its input through the matrix from the pad, inverted as asked.
pub proof fn lemma_input_routing_fields(w: u32, n: u32, invert: bool)
    requires
        n <= 39,
    ensures
        ({
            let r = write_spec(
                write_spec(write_spec(w, in_matrix_sel(), 1), in_inv_sel(), flag(invert)),
                in_sel(),
                n,
            );
            &&& read_spec(r, in_matrix_sel()) == 1
            &&& read_spec(r, in_inv_sel()) == flag(invert)
            &&& read_spec(r, in_sel()) == n
        }),
{
    broadcast use lemma_read_after_write;

    lemma_low_masks();
}

/// Connecting an output signal to a pad makes the pad's routing register
/// select the signal, with the inversions and enable source asked for.
pub proof fn lemma_output_routing_fields(
    w: u32,
    signal: u32,
    invert: bool,
    enable_from_gpio: bool,
    invert_enable: bool,
)
    requires
        signal <= 256,
    ensures
        ({
            let r = write_spec(
                write_spec(
                    write_spec(write_spec(w, out_sel(), signal), out_inv_sel(), flag(invert)),
                    oen_sel(),
                    flag(enable_from_gpio),
                ),
                oen_inv_sel(),
                flag(invert_enable),
            );
            &&& read_spec(r, out_sel()) == signal
            &&& read_spec(r, out_inv_sel()) == flag(invert)
            &&& read_spec(r, oen_sel()) == flag(enable_from_gpio)
            &&& read_spec(r, oen_inv_sel()) == flag(invert_enable)
        }),
{
    broadcast use lemma_read_after_write;

    lemma_low_masks();
}

} // verus!
