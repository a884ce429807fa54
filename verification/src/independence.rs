//! Independent pins: the register bits that each pin owns, and the proof
//! that no two pins own the same bit and that a pin's configuration steps
//! act only on bits that the pin owns.
use vstd::prelude::*;
use crate::bits::{bit_of, Field};
use crate::config::{
    analog_ops_len, analog_setup, disables_analog, enable_clear_register, enable_set_register,
    input_setup, out_clear_register, out_set_register, output_setup, pin_mask,
};
use crate::gpio::AlternateFunction;
use crate::pins::{is_gpio, is_output_capable, rtc_pad_spec, rtc_pad_wf, sense_pad, RtcPad};
use crate::registers::{Register, RegisterOp};

verus! {

/// Registers on which only the bits written as ones have an effect.
pub open spec fn acts_on_ones(r: Register) -> bool {
    match r {
        Register::GpioOutSet | Register::GpioOutClear | Register::GpioOut1Set
        | Register::GpioOut1Clear | Register::GpioEnableSet | Register::GpioEnableClear
        | Register::GpioEnable1Set | Register::GpioEnable1Clear | Register::RtcEnableClear => true,
        _ => false,
    }
}

/// Whether `op` acts on bit `i` of its register: on a register where only
/// ones act, the bits it writes as ones (the bits below the field of
/// RTCIO_RTC_GPIO_ENABLE_W1TC are reserved); elsewhere, the bits a
/// read-modify-write replaces, or every bit of a plain write.
pub open spec fn acts_on(op: RegisterOp, i: u32) -> bool {
    match op {
        RegisterOp::Write { register, value } => !acts_on_ones(register) || bit_of(value, i),
        RegisterOp::Modify { register, update } => if acts_on_ones(register) {
            bit_of(update.bits, i)
        } else {
            bit_of(update.mask, i)
        },
    }
}

/// The RTC fields that belong to pad `n`: those the configuration programs,
/// except that GPIO 35 owns the input enable of ADC2 (bit 18 of RTCIO_ADC_PAD).
pub open spec fn owned_rtc_pad(n: int) -> Option<RtcPad> {
    if n == 35 {
        Some(sense_pad(5, Register::RtcAdcPad, 28, 21, 18))
    } else {
        rtc_pad_spec(n)
    }
}

/// Bit `i` belongs to one of the fields of RTC pad `p`.
pub open spec fn in_pad_fields(p: RtcPad, i: u32) -> bool {
    ||| p.mux_sel.covers(i)
    ||| p.fun_sel.covers(i)
    ||| p.fun_ie.covers(i)
    ||| (p.pulls matches Some(q) && (q.up.covers(i) || q.down.covers(i)))
}

/// Pin `n` owns bit `i` of register `r`.
///
/// The input routing registers (GPIO_FUNCy_IN_SEL_CFG) belong to input
/// signals, not to pins: no pin owns them, and two pins connected to the same
/// input signal write the same routing register.
pub open spec fn owns(n: int, r: Register, i: u32) -> bool {
    match r {
        Register::GpioOutSet | Register::GpioOutClear | Register::GpioEnableSet
        | Register::GpioEnableClear => n < 32 && i as int == n,
        Register::GpioOut1Set | Register::GpioOut1Clear | Register::GpioEnable1Set
        | Register::GpioEnable1Clear => 32 <= n && i as int == n - 32,
        Register::GpioPin(m) => m as int == n,
        Register::GpioFuncOutSel(m) => m as int == n,
        Register::IoMux(m) => m as int == n,
        Register::RtcPin(m) => owned_rtc_pad(n) matches Some(p) && p.rtc_index == m,
        Register::RtcEnableClear => owned_rtc_pad(n) matches Some(p) && i as int == 14
            + p.rtc_index,
        Register::RtcSensorPads | Register::RtcAdcPad | Register::RtcPadDac1
        | Register::RtcPadDac2 | Register::RtcXtal32kPad | Register::RtcTouchPad(_) => owned_rtc_pad(
            n,
        ) matches Some(p) && p.register == r && in_pad_fields(p, i),
        Register::GpioIn | Register::GpioIn1 | Register::GpioFuncInSel(_) => false,
    }
}

/// Every operation of `s` acts only on bits that pin `n` owns.
pub open spec fn stays_within(n: int, s: Seq<RegisterOp>) -> bool {
    forall|k: int, i: u32|
        0 <= k < s.len() && i < 32 && #[trigger] acts_on(s[k], i) ==> owns(
            n,
            s[k].register_spec(),
            i,
        )
}

/// No two pins own the same bit of the same register: splitting the GPIO
/// block gives independent pins.
pub proof fn lemma_pins_own_disjoint_bits(a: int, b: int, r: Register, i: u32)
    requires
        is_gpio(a),
        is_gpio(b),
        a != b,
        i < 32,
    ensures
        !(owns(a, r, i) && owns(b, r, i)),
{
}

/// The only bit of the pin's bank mask is the pin's bit.
pub proof fn lemma_pin_mask_bits(n: int)
    requires
        is_gpio(n),
    ensures
        forall|i: u32| i < 32 ==> (#[trigger] bit_of(pin_mask(n), i) <==> i as int == n % 32),
{
    let s = (n % 32) as u32;
    assert(forall|i: u32| i < 32 ==> (#[trigger] bit_of(1u32 << s, i) <==> i == s)) by (bit_vector)
        requires
            s < 32,
    ;
}

/// The bits of a field's mask are the bits of the field.
pub proof fn lemma_field_mask_bits(f: Field)
    requires
        f.wf(),
    ensures
        forall|i: u32| i < 32 ==> (#[trigger] bit_of(f.mask_spec(), i) <==> f.covers(i)),
{
    let o = f.offset;
    let w = f.width;
    assert(forall|i: u32|
        i < 32 ==> (#[trigger] bit_of(crate::bits::low_mask(w) << o, i) <==> (o <= i && i < o
            + w))) by (bit_vector)
        requires
            1 <= w <= 32,
            o + w <= 32,
    ;
}

/// A bit of a union of masks is a bit of one of them.
pub proof fn lemma_or_bits(a: u32, b: u32)
    ensures
        forall|i: u32| i < 32 ==> (#[trigger] bit_of(a | b, i) <==> (bit_of(a, i) || bit_of(b, i))),
{
    assert(forall|i: u32|
        i < 32 ==> (#[trigger] bit_of(a | b, i) <==> (bit_of(a, i) || bit_of(b, i))))
        by (bit_vector);
}

/// Handing a pad back to the digital GPIO acts only on bits the pin owns.
proof fn lemma_disables_analog_stays_within(n: int, s: Seq<RegisterOp>)
    requires
        is_gpio(n),
        disables_analog(n, s),
    ensures
        stays_within(n, s),
{
    match rtc_pad_spec(n) {
        Some(p) => {
            lemma_field_mask_bits(p.mux_sel);
        },
        None => {},
    }
}

/// Setting a pin up as an output acts only on bits the pin owns.
pub proof fn lemma_output_setup_stays_within(
    n: int,
    alternate: AlternateFunction,
    open_drain: bool,
    s: Seq<RegisterOp>,
)
    requires
        is_output_capable(n),
        output_setup(n, alternate, open_drain, s),
    ensures
        stays_within(n, s),
{
    let k = analog_ops_len(n);
    lemma_disables_analog_stays_within(n, s.take(k));
    lemma_pin_mask_bits(n);
    assert forall|j: int, i: u32| 0 <= j < s.len() && i < 32 && #[trigger] acts_on(s[j], i) implies owns(
        n,
        s[j].register_spec(),
        i,
    ) by {
        if j < k {
            assert(s[j] == s.take(k)[j]);
        }
    }
}

/// Setting a pin up as an input acts only on bits the pin owns.
pub proof fn lemma_input_setup_stays_within(
    n: int,
    pull_down: bool,
    pull_up: bool,
    s: Seq<RegisterOp>,
)
    requires
        is_gpio(n),
        input_setup(n, pull_down, pull_up, s),
    ensures
        stays_within(n, s),
{
    let k = analog_ops_len(n);
    lemma_disables_analog_stays_within(n, s.take(k));
    lemma_pin_mask_bits(n);
    assert forall|j: int, i: u32| 0 <= j < s.len() && i < 32 && #[trigger] acts_on(s[j], i) implies owns(
        n,
        s[j].register_spec(),
        i,
    ) by {
        if j < k {
            assert(s[j] == s.take(k)[j]);
        }
    }
}

/// Routing a pin to its analog function acts only on bits the pin owns,
/// for every pin but GPIO 35, which clears the ADC1 input enable of GPIO 34.
pub proof fn lemma_analog_setup_stays_within(n: int, s: Seq<RegisterOp>)
    requires
        is_gpio(n),
        n != 35,
        analog_setup(n, s),
    ensures
        stays_within(n, s),
{
    let p = rtc_pad_spec(n)->Some_0;
    assert(rtc_pad_wf(p));
    lemma_field_mask_bits(p.mux_sel);
    lemma_field_mask_bits(p.fun_sel);
    lemma_field_mask_bits(p.fun_ie);
    lemma_or_bits(p.mux_sel.mask_spec(), p.fun_sel.mask_spec());
    match p.pulls {
        Some(q) => {
            lemma_field_mask_bits(q.up);
            lemma_field_mask_bits(q.down);
            lemma_or_bits(q.up.mask_spec(), q.down.mask_spec());
        },
        None => {},
    }
    let idx = p.rtc_index as u32;
    assert(forall|i: u32| i < 32 ==> (#[trigger] bit_of((1u32 << idx) << 14u32, i) <==> i == idx + 14))
        by (bit_vector)
        requires
            idx < 18,
    ;
}

/// Any operation on the pin's own IO_MUX, GPIO_PINn or output routing
/// register acts only on bits the pin owns.
pub proof fn lemma_own_register_op_stays_within(n: int, op: RegisterOp)
    requires
        is_gpio(n),
        op.register_spec() == Register::IoMux(n as u8) || op.register_spec() == Register::GpioPin(
            n as u8,
        ) || op.register_spec() == Register::GpioFuncOutSel(n as u8),
    ensures
        stays_within(n, seq![op]),
{
}

/// Writing the pin's bank bit to a set or clear register of its bank acts
/// only on the bit the pin owns.
pub proof fn lemma_bank_write_stays_within(n: int, r: Register, op: RegisterOp)
    requires
        is_gpio(n),
        r == out_set_register(n) || r == out_clear_register(n) || r == enable_set_register(n) || r
            == enable_clear_register(n),
        op == (RegisterOp::Write { register: r, value: pin_mask(n) }),
    ensures
        stays_within(n, seq![op]),
{
    lemma_pin_mask_bits(n);
}

/// Routing GPIO 35 to its analog function clears bit 23 of RTCIO_ADC_PAD,
/// the ADC1 input enable that belongs to GPIO 34.
pub proof fn lemma_gpio35_analog_setup_reaches_gpio34(s: Seq<RegisterOp>)
    requires
        analog_setup(35, s),
    ensures
        s[3].register_spec() == Register::RtcAdcPad,
        acts_on(s[3], 23),
        owns(34, Register::RtcAdcPad, 23),
        !owns(35, Register::RtcAdcPad, 23),
{
    let p = rtc_pad_spec(35)->Some_0;
    lemma_field_mask_bits(p.fun_ie);
}

} // verus!
