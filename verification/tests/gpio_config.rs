use esp32_hal::bits::{read_field, single_bit, test_bit, write_field, Field, FieldUpdate};
use esp32_hal::config::{
    connect_input_to_peripheral, connect_peripheral_to_output, disable_analog, enable_output,
    init_input, init_output, into_alternate_2, into_analog, into_floating_input,
    into_pull_down_input, into_pull_up_input, into_push_pull_output, set_drive_strength,
    set_output_high, set_to_input, set_to_open_drain_output, sleep_mode,
};
use esp32_hal::digital::{
    is_high, is_low, is_set_high, is_set_low, level_register, output_status_register, set_high,
    set_low, toggle,
};
use esp32_hal::gpio::{
    connect_high_to_peripheral, connect_low_to_peripheral, AlternateFunction, DriveStrength,
    InputSignal, OutputSignal,
};
use esp32_hal::pins::{rtc_pad, PinId};
use esp32_hal::registers::{Register, RegisterOp};

fn pin(n: u8) -> PinId {
    PinId::new(n).unwrap()
}

fn modify_of(op: &RegisterOp) -> (Register, FieldUpdate) {
    match op {
        RegisterOp::Modify { register, update } => (*register, *update),
        RegisterOp::Write { .. } => panic!("expected a read-modify-write"),
    }
}

#[test]
fn pins_that_exist() {
    for n in 0u8..=23 {
        assert!(PinId::new(n).is_some());
    }
    assert!(PinId::new(24).is_none());
    for n in 25u8..=27 {
        assert!(PinId::new(n).is_some());
    }
    for n in 28u8..=31 {
        assert!(PinId::new(n).is_none());
    }
    for n in 32u8..=39 {
        assert!(PinId::new(n).is_some());
    }
    assert!(PinId::new(40).is_none());
    assert_eq!(pin(17).number(), 17);
}

#[test]
fn input_only_pins() {
    assert!(pin(33).can_output());
    assert!(pin(0).can_output());
    for n in 34u8..=39 {
        assert!(!pin(n).can_output());
    }
}

#[test]
fn field_write_then_read() {
    let f = Field { offset: 12, width: 3 };
    let w = write_field(0xffff_ffff, f, 5);
    assert_eq!(w, 0xffffdfff);
    assert_eq!(read_field(w, f), 5);
    let g = Field { offset: 0, width: 32 };
    assert_eq!(write_field(0x1234, g, 0xdead_beef), 0xdead_beef);
    assert_eq!(read_field(0xdead_beef, g), 0xdead_beef);
    assert_eq!(f.mask(), 0x7000);
    assert_eq!(single_bit(31), 0x8000_0000);
    assert!(test_bit(0x10, 4));
    assert!(!test_bit(0x10, 3));
}

#[test]
fn field_update_keeps_other_bits() {
    let u = FieldUpdate::of(Field { offset: 4, width: 4 }, 0x9).with_flag(Field { offset: 0, width: 1 }, false);
    assert_eq!(u.mask, 0xf1);
    assert_eq!(u.apply(0xffff_ffff), 0xffff_ff9e);
    assert_eq!(u.apply(0), 0x90);
}

#[test]
fn output_setup_of_a_digital_pin() {
    let ops = init_output(pin(5), AlternateFunction::Function3, true);
    assert_eq!(ops.len(), 4);
    assert_eq!(ops[0], RegisterOp::Write { register: Register::GpioEnableSet, value: 1 << 5 });
    let (r, u) = modify_of(&ops[1]);
    assert_eq!(r, Register::GpioPin(5));
    assert_eq!(u.apply(0), 0x4);
    let (r, u) = modify_of(&ops[2]);
    assert_eq!(r, Register::GpioFuncOutSel(5));
    assert_eq!(u.apply(0xffff_ffff), 0xffff_ff00 | 0x100);
    let (r, u) = modify_of(&ops[3]);
    assert_eq!(r, Register::IoMux(5));
    assert_eq!(u.mask, 0x7f82);
    assert_eq!(u.apply(0xffff_ffff), 0xffff_a87d);
}

#[test]
fn push_pull_output_on_bank_one() {
    let ops = set_to_open_drain_output(pin(32));
    // GPIO 32 is also RTC GPIO 9: its RTC multiplexer bit is cleared first.
    assert_eq!(ops.len(), 5);
    let (r, u) = modify_of(&ops[0]);
    assert_eq!(r, Register::RtcXtal32kPad);
    assert_eq!(u.mask, 1 << 17);
    assert_eq!(u.bits, 0);
    assert_eq!(ops[1], RegisterOp::Write { register: Register::GpioEnable1Set, value: 1 });
    let ops = into_push_pull_output(pin(33));
    let (_, u) = modify_of(&ops[2]);
    assert_eq!(u.apply(0xffff_ffff), 0xffff_fffb);
}

#[test]
fn alternate_function_selects_mcu_sel() {
    let ops = into_alternate_2(pin(18));
    assert_eq!(ops.len(), 4);
    let (_, u) = modify_of(&ops[3]);
    assert_eq!((u.apply(0) >> 12) & 7, 1);
}

#[test]
fn input_setup_and_pulls() {
    let ops = into_pull_down_input(pin(16));
    assert_eq!(ops.len(), 3);
    assert_eq!(ops[0], RegisterOp::Write { register: Register::GpioEnableClear, value: 1 << 16 });
    let (r, u) = modify_of(&ops[1]);
    assert_eq!(r, Register::GpioFuncOutSel(16));
    assert_eq!(u.apply(0), 0x100);
    let (r, u) = modify_of(&ops[2]);
    assert_eq!(r, Register::IoMux(16));
    assert_eq!(u.mask, 0x7382);
    assert_eq!(u.apply(0), 0x2280);
    // A pull-up input turns its pull-up on and its pull-down off.
    let ops = into_pull_up_input(pin(16));
    let (_, u) = modify_of(&ops[2]);
    assert_eq!(u.apply(0xffff_ffff), 0xffff_af7d);
    assert_eq!(u.apply(0), 0x2300);
    let a = into_floating_input(pin(16));
    let b = set_to_input(pin(16));
    let c = init_input(pin(16), false, false);
    assert_eq!(a, b);
    assert_eq!(b, c);
}

#[test]
fn input_only_pin_input_setup() {
    let ops = into_floating_input(pin(39));
    assert_eq!(ops.len(), 4);
    let (r, u) = modify_of(&ops[0]);
    assert_eq!(r, Register::RtcSensorPads);
    assert_eq!(u.mask, 1 << 24);
    assert_eq!(ops[1], RegisterOp::Write { register: Register::GpioEnable1Clear, value: 1 << 7 });
}

#[test]
fn analog_touch_pad() {
    let ops = into_analog(pin(4));
    assert_eq!(ops.len(), 5);
    let (r, u) = modify_of(&ops[0]);
    assert_eq!(r, Register::RtcTouchPad(0));
    assert_eq!(u.apply(0), 1 << 19);
    assert_eq!(u.apply(0xffff_ffff), 0xfff9_ffff);
    let (r, u) = modify_of(&ops[1]);
    assert_eq!(r, Register::RtcPin(10));
    assert_eq!(u.apply(0xffff_ffff), 0xffff_fffb);
    let (r, u) = modify_of(&ops[2]);
    assert_eq!(r, Register::RtcEnableClear);
    assert_eq!(u.bits, 1 << (10 + 14));
    let (r, u) = modify_of(&ops[3]);
    assert_eq!(r, Register::RtcTouchPad(0));
    assert_eq!(u.mask, 1 << 13);
    let (_, u) = modify_of(&ops[4]);
    assert_eq!(u.mask, (1 << 27) | (1 << 28));
    assert_eq!(u.bits, 0);
}

#[test]
fn analog_sense_pads() {
    let ops = into_analog(pin(36));
    assert_eq!(ops.len(), 4);
    let (r, u) = modify_of(&ops[0]);
    assert_eq!(r, Register::RtcSensorPads);
    assert_eq!(u.mask, (1 << 27) | (3 << 22));
    assert_eq!(u.bits, 1 << 27);
    // GPIO 35 clears the same input enable as GPIO 34.
    let a = into_analog(pin(34));
    let b = into_analog(pin(35));
    let (_, ua) = modify_of(&a[3]);
    let (_, ub) = modify_of(&b[3]);
    assert_eq!(ua.mask, 1 << 23);
    assert_eq!(ub.mask, 1 << 23);
    assert!(rtc_pad(pin(5)).is_none());
    assert!(disable_analog(pin(5)).is_empty());
    assert_eq!(disable_analog(pin(27)).len(), 1);
}

#[test]
fn constant_levels_to_peripherals() {
    let (r, u) = modify_of(&connect_low_to_peripheral(InputSignal { index: 14 }));
    assert_eq!(r, Register::GpioFuncInSel(14));
    assert_eq!(u.apply(0), 0xb0);
    let (_, u) = modify_of(&connect_high_to_peripheral(InputSignal { index: 14 }));
    assert_eq!(u.apply(0), 0xb8);
    assert_eq!(u.apply(0xffff_ffff), 0xffff_ffb8);
}

#[test]
fn signal_routing() {
    let (r, u) = modify_of(&connect_input_to_peripheral(pin(13), InputSignal { index: 5 }, true));
    assert_eq!(r, Register::GpioFuncInSel(5));
    assert_eq!(u.apply(0), 0xcd);
    let (r, u) = modify_of(&connect_peripheral_to_output(pin(2), OutputSignal::GPIO(), true, false, true));
    assert_eq!(r, Register::GpioFuncOutSel(2));
    assert_eq!(u.apply(0), 0xb00);
    assert!(OutputSignal::new(256).is_some());
    assert!(OutputSignal::new(257).is_none());
    assert_eq!(OutputSignal::new(71).unwrap().index(), 71);
}

#[test]
fn single_field_steps() {
    let (r, u) = modify_of(&set_drive_strength(pin(5), DriveStrength::I40mA));
    assert_eq!(r, Register::IoMux(5));
    assert_eq!(u.apply(0), 0xc00);
    let (_, u) = modify_of(&sleep_mode(pin(36), true));
    assert_eq!(u.apply(0), 0x2);
    assert_eq!(DriveStrength::I5mA.value(), 0);
    assert_eq!(DriveStrength::I20mA.value(), 2);
    assert_eq!(AlternateFunction::Function1.value(), 0);
    assert_eq!(AlternateFunction::Function6.value(), 5);
}

#[test]
fn output_level_writes() {
    assert_eq!(enable_output(pin(33), false), RegisterOp::Write { register: Register::GpioEnable1Clear, value: 2 });
    assert_eq!(set_output_high(pin(3), true), RegisterOp::Write { register: Register::GpioOutSet, value: 8 });
    assert_eq!(set_high(pin(3)), set_output_high(pin(3), true));
    assert_eq!(set_low(pin(32)), RegisterOp::Write { register: Register::GpioOut1Clear, value: 1 });
}

#[test]
fn toggling_and_reading_output() {
    let p = pin(3);
    assert_eq!(output_status_register(p), Register::GpioOutSet);
    assert!(is_set_high(p, 0b1000));
    assert!(!is_set_low(p, 0b1000));
    assert!(is_set_low(p, 0b0111));
    assert_eq!(toggle(p, 0b1000), set_low(p));
    assert_eq!(toggle(p, 0), set_high(p));
    assert_eq!(output_status_register(pin(33)), Register::GpioOut1Set);
}

#[test]
fn reading_input_levels() {
    assert_eq!(level_register(pin(35)), Register::GpioIn1);
    assert_eq!(level_register(pin(3)), Register::GpioIn);
    assert!(is_high(pin(35), 0b1000));
    assert!(is_low(pin(35), 0xffff_fff7));
    assert!(is_high(pin(31 - 8), 1 << 23));
    assert!(is_low(pin(0), 0xffff_fffe));
}

#[test]
fn field_laws_on_values() {
    let f = Field { offset: 10, width: 2 };
    let g = Field { offset: 12, width: 3 };
    let w = 0x1234_5678u32;
    // The second of two writes to a field wins.
    assert_eq!(write_field(write_field(w, f, 1), f, 3), write_field(w, f, 3));
    // Writing back what a field holds changes nothing.
    assert_eq!(write_field(w, f, read_field(w, f)), w);
    // Writes to disjoint fields commute, and one leaves the other's value.
    assert_eq!(write_field(write_field(w, f, 2), g, 5), write_field(write_field(w, g, 5), f, 2));
    assert_eq!(read_field(write_field(w, f, 2), g), read_field(w, g));
}

#[test]
fn distinct_pins_touch_distinct_bits() {
    let a = enable_output(pin(3), true);
    let b = enable_output(pin(4), true);
    match (a, b) {
        (
            RegisterOp::Write { register: ra, value: va },
            RegisterOp::Write { register: rb, value: vb },
        ) => {
            assert_eq!(ra, rb);
            assert_eq!(va & vb, 0);
        }
        _ => panic!("expected writes"),
    }
    let a = into_analog(pin(36));
    let b = into_analog(pin(37));
    for (x, y) in a.iter().zip(b.iter()) {
        let (rx, ux) = modify_of(x);
        let (ry, uy) = modify_of(y);
        if rx == ry {
            if rx == Register::RtcEnableClear {
                assert_eq!(ux.bits & uy.bits, 0);
            } else {
                assert_eq!(ux.mask & uy.mask, 0);
            }
        }
    }
    let (_, u) = modify_of(&into_analog(pin(36))[2]);
    assert_eq!(u.bits, 1 << 14);
}

#[test]
fn analog_crystal_pads() {
    // GPIO 33 is the X32N side of RTCIO_XTAL_32K_PAD, GPIO 32 the X32P side.
    let a = into_analog(pin(33));
    assert_eq!(a.len(), 5);
    let (r, u) = modify_of(&a[0]);
    assert_eq!(r, Register::RtcXtal32kPad);
    assert_eq!(u.mask, (1 << 18) | (3 << 15));
    assert_eq!(u.bits, 1 << 18);
    let (r, u) = modify_of(&a[1]);
    assert_eq!(r, Register::RtcPin(8));
    assert_eq!(u.mask, 1 << 2);
    let (_, u) = modify_of(&a[3]);
    assert_eq!(u.mask, 1 << 11);
    let (r, u) = modify_of(&a[4]);
    assert_eq!(r, Register::RtcXtal32kPad);
    assert_eq!(u.mask, (1 << 27) | (1 << 28));
    assert_eq!(u.apply(0xffff_ffff), 0xe7ff_ffff);
    let b = into_analog(pin(32));
    let (_, u) = modify_of(&b[4]);
    assert_eq!(u.mask, (1 << 22) | (1 << 23));
    // The two sides of the shared register touch disjoint bits.
    for (x, y) in a.iter().zip(b.iter()) {
        let (rx, ux) = modify_of(x);
        let (ry, uy) = modify_of(y);
        if rx == ry && rx != Register::RtcEnableClear {
            assert_eq!(ux.mask & uy.mask, 0);
        }
    }
}
