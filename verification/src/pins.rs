//! The GPIO pads of the ESP32: which exist, which can drive an output,
//! where their bits lie in the shared GPIO registers, and which have an
//! RTC (analog) function.
use vstd::prelude::*;
use crate::bits::Field;
use crate::registers::Register;

verus! {

/// GPIO `n` exists on the chip: 0 to 23, 25 to 27 and 32 to 39.
pub open spec fn is_gpio(n: int) -> bool {
    (0 <= n <= 23) || (25 <= n <= 27) || (32 <= n <= 39)
}

/// GPIO `n` can drive an output: every pad but 34 to 39, which are input only.
pub open spec fn is_output_capable(n: int) -> bool {
    (0 <= n <= 23) || (25 <= n <= 27) || n == 32 || n == 33
}

/// Which of the two 32-pin banks of the GPIO registers holds pin `n`.
pub open spec fn bank(n: int) -> int {
    n / 32
}

/// The bit of pin `n` in the registers of its bank.
pub open spec fn bank_bit(n: int) -> int {
    n % 32
}

/// A GPIO pad that exists on the chip.
#[derive(Clone, Copy, Debug)]
pub struct PinId {
    number: u8,
}

impl View for PinId {
    type V = int;

    closed spec fn view(&self) -> int {
        self.number as int
    }
}

impl PinId {
    #[verifier::type_invariant]
    spec fn inv(self) -> bool {
        is_gpio(self.number as int)
    }

    /// The pad with GPIO number `n`, if there is one.
    pub fn new(n: u8) -> (r: Option<PinId>)
        ensures
            r is Some <==> is_gpio(n as int),
            r matches Some(p) ==> p@ == n as int,
    {
        if n <= 23 || (25 <= n && n <= 27) || (32 <= n && n <= 39) {
            Some(PinId { number: n })
        } else {
            None
        }
    }

    /// The GPIO number of the pad.
    pub fn number(&self) -> (n: u8)
        ensures
            n as int == self@,
            is_gpio(n as int),
    {
        proof {
            use_type_invariant(self);
        }
        self.number
    }

    /// Whether the pad can drive an output.
    pub fn can_output(&self) -> (b: bool)
        ensures
            b == is_output_capable(self@),
    {
        let n = self.number();
        n <= 23 || (25 <= n && n <= 27) || n == 32 || n == 33
    }
}

/// The pull-up and pull-down enables of an RTC pad.
#[derive(Clone, Copy, PartialEq, Eq, Structural, Debug)]
pub struct PullFields {
    pub up: Field,
    pub down: Field,
}

/// The RTC side of a pad that has an analog function.
#[derive(Clone, Copy, PartialEq, Eq, Structural, Debug)]
pub struct RtcPad {
    /// The pad's RTC GPIO number.
    pub rtc_index: u8,
    /// The RTCIO register that holds the pad's fields.
    pub register: Register,
    /// Connects the pad to the RTC block instead of the digital GPIO.
    pub mux_sel: Field,
    /// Selects the pad's RTC function.
    pub fun_sel: Field,
    /// The input enable that routing to the analog function clears.
    pub fun_ie: Field,
    /// The pull-up and pull-down enables, where the pad has them.
    pub pulls: Option<PullFields>,
}

/// The fields of a DAC or touch pad, each in a register of its own, with
/// its pull-up at bit 27 and its pull-down at bit 28.
pub open spec fn full_pad(rtc_index: u8, register: Register, mux: u32, fun_sel: u32, fun_ie: u32) -> RtcPad {
    RtcPad {
        rtc_index,
        register,
        mux_sel: Field { offset: mux, width: 1 },
        fun_sel: Field { offset: fun_sel, width: 2 },
        fun_ie: Field { offset: fun_ie, width: 1 },
        pulls: Some(PullFields { up: Field { offset: 27, width: 1 }, down: Field { offset: 28, width: 1 } }),
    }
}

/// The fields of an input-only pad that shares its register and has no pulls.
pub open spec fn sense_pad(rtc_index: u8, register: Register, mux: u32, fun_sel: u32, fun_ie: u32) -> RtcPad {
    RtcPad {
        rtc_index,
        register,
        mux_sel: Field { offset: mux, width: 1 },
        fun_sel: Field { offset: fun_sel, width: 2 },
        fun_ie: Field { offset: fun_ie, width: 1 },
        pulls: None,
    }
}

/// The RTC side of GPIO `n`, as the pin configuration programs it.
///
/// GPIO 33 and GPIO 32 share RTCIO_XTAL_32K_PAD, whose upper bits hold
/// X32P_RUE (22), X32P_RDE (23), X32P_HOLD (24), X32P_DRV (26:25),
/// X32N_RUE (27), X32N_RDE (28), X32N_HOLD (29) and X32N_DRV (31:30); GPIO 33
/// is the X32N side and GPIO 32 the X32P side.
///
/// GPIO 35 clears the input enable of ADC1 (bit 23 of RTCIO_ADC_PAD), the
/// same bit as GPIO 34, and not that of ADC2.
pub open spec fn rtc_pad_spec(n: int) -> Option<RtcPad> {
    if n == 36 {
        Some(sense_pad(0, Register::RtcSensorPads, 27, 22, 19))
    } else if n == 37 {
        Some(sense_pad(1, Register::RtcSensorPads, 26, 17, 14))
    } else if n == 38 {
        Some(sense_pad(2, Register::RtcSensorPads, 25, 12, 9))
    } else if n == 39 {
        Some(sense_pad(3, Register::RtcSensorPads, 24, 7, 4))
    } else if n == 34 {
        Some(sense_pad(4, Register::RtcAdcPad, 29, 26, 23))
    } else if n == 35 {
        Some(sense_pad(5, Register::RtcAdcPad, 28, 21, 23))
    } else if n == 25 {
        Some(full_pad(6, Register::RtcPadDac1, 17, 15, 11))
    } else if n == 26 {
        Some(full_pad(7, Register::RtcPadDac2, 17, 15, 11))
    } else if n == 33 {
        Some(
            RtcPad {
                rtc_index: 8,
                register: Register::RtcXtal32kPad,
                mux_sel: Field { offset: 18, width: 1 },
                fun_sel: Field { offset: 15, width: 2 },
                fun_ie: Field { offset: 11, width: 1 },
                pulls: Some(PullFields { up: Field { offset: 27, width: 1 }, down: Field { offset: 28, width: 1 } }),
            },
        )
    } else if n == 32 {
        Some(
            RtcPad {
                rtc_index: 9,
                register: Register::RtcXtal32kPad,
                mux_sel: Field { offset: 17, width: 1 },
                fun_sel: Field { offset: 9, width: 2 },
                fun_ie: Field { offset: 5, width: 1 },
                pulls: Some(PullFields { up: Field { offset: 22, width: 1 }, down: Field { offset: 23, width: 1 } }),
            },
        )
    } else if n == 4 {
        Some(full_pad(10, Register::RtcTouchPad(0), 19, 17, 13))
    } else if n == 0 {
        Some(full_pad(11, Register::RtcTouchPad(1), 19, 17, 13))
    } else if n == 2 {
        Some(full_pad(12, Register::RtcTouchPad(2), 19, 17, 13))
    } else if n == 15 {
        Some(full_pad(13, Register::RtcTouchPad(3), 19, 17, 13))
    } else if n == 13 {
        Some(full_pad(14, Register::RtcTouchPad(4), 19, 17, 13))
    } else if n == 12 {
        Some(full_pad(15, Register::RtcTouchPad(5), 19, 17, 13))
    } else if n == 14 {
        Some(full_pad(16, Register::RtcTouchPad(6), 19, 17, 13))
    } else if n == 27 {
        Some(full_pad(17, Register::RtcTouchPad(7), 19, 17, 13))
    } else {
        None
    }
}

/// Every field of a pad's RTC side lies inside its register word.
pub open spec fn rtc_pad_wf(p: RtcPad) -> bool {
    &&& p.mux_sel.wf()
    &&& p.mux_sel.width == 1
    &&& p.fun_sel.wf()
    &&& p.fun_ie.wf()
    &&& p.fun_ie.width == 1
    &&& p.rtc_index < 18
    &&& (p.pulls matches Some(q) ==> q.up.wf() && q.up.width == 1 && q.down.wf() && q.down.width == 1)
}

fn full_pad_exec(rtc_index: u8, register: Register, mux: u32, fun_sel: u32, fun_ie: u32) -> (p: RtcPad)
    ensures
        p == full_pad(rtc_index, register, mux, fun_sel, fun_ie),
{
    RtcPad {
        rtc_index,
        register,
        mux_sel: Field { offset: mux, width: 1 },
        fun_sel: Field { offset: fun_sel, width: 2 },
        fun_ie: Field { offset: fun_ie, width: 1 },
        pulls: Some(PullFields { up: Field { offset: 27, width: 1 }, down: Field { offset: 28, width: 1 } }),
    }
}

fn sense_pad_exec(rtc_index: u8, register: Register, mux: u32, fun_sel: u32, fun_ie: u32) -> (p: RtcPad)
    ensures
        p == sense_pad(rtc_index, register, mux, fun_sel, fun_ie),
{
    RtcPad {
        rtc_index,
        register,
        mux_sel: Field { offset: mux, width: 1 },
        fun_sel: Field { offset: fun_sel, width: 2 },
        fun_ie: Field { offset: fun_ie, width: 1 },
        pulls: None,
    }
}

/// The RTC side of the pad, if it has an analog function.
pub fn rtc_pad(pin: PinId) -> (r: Option<RtcPad>)
    ensures
        r == rtc_pad_spec(pin@),
        r matches Some(p) ==> rtc_pad_wf(p),
{
    let n = pin.number();
    if n == 36 {
        Some(sense_pad_exec(0, Register::RtcSensorPads, 27, 22, 19))
    } else if n == 37 {
        Some(sense_pad_exec(1, Register::RtcSensorPads, 26, 17, 14))
    } else if n == 38 {
        Some(sense_pad_exec(2, Register::RtcSensorPads, 25, 12, 9))
    } else if n == 39 {
        Some(sense_pad_exec(3, Register::RtcSensorPads, 24, 7, 4))
    } else if n == 34 {
        Some(sense_pad_exec(4, Register::RtcAdcPad, 29, 26, 23))
    } else if n == 35 {
        Some(sense_pad_exec(5, Register::RtcAdcPad, 28, 21, 23))
    } else if n == 25 {
        Some(full_pad_exec(6, Register::RtcPadDac1, 17, 15, 11))
    } else if n == 26 {
        Some(full_pad_exec(7, Register::RtcPadDac2, 17, 15, 11))
    } else if n == 33 {
        Some(
            RtcPad {
                rtc_index: 8,
                register: Register::RtcXtal32kPad,
                mux_sel: Field { offset: 18, width: 1 },
                fun_sel: Field { offset: 15, width: 2 },
                fun_ie: Field { offset: 11, width: 1 },
                pulls: Some(PullFields { up: Field { offset: 27, width: 1 }, down: Field { offset: 28, width: 1 } }),
            },
        )
    } else if n == 32 {
        Some(
            RtcPad {
                rtc_index: 9,
                register: Register::RtcXtal32kPad,
                mux_sel: Field { offset: 17, width: 1 },
                fun_sel: Field { offset: 9, width: 2 },
                fun_ie: Field { offset: 5, width: 1 },
                pulls: Some(PullFields { up: Field { offset: 22, width: 1 }, down: Field { offset: 23, width: 1 } }),
            },
        )
    } else if n == 4 {
        Some(full_pad_exec(10, Register::RtcTouchPad(0), 19, 17, 13))
    } else if n == 0 {
        Some(full_pad_exec(11, Register::RtcTouchPad(1), 19, 17, 13))
    } else if n == 2 {
        Some(full_pad_exec(12, Register::RtcTouchPad(2), 19, 17, 13))
    } else if n == 15 {
        Some(full_pad_exec(13, Register::RtcTouchPad(3), 19, 17, 13))
    } else if n == 13 {
        Some(full_pad_exec(14, Register::RtcTouchPad(4), 19, 17, 13))
    } else if n == 12 {
        Some(full_pad_exec(15, Register::RtcTouchPad(5), 19, 17, 13))
    } else if n == 14 {
        Some(full_pad_exec(16, Register::RtcTouchPad(6), 19, 17, 13))
    } else if n == 27 {
        Some(full_pad_exec(17, Register::RtcTouchPad(7), 19, 17, 13))
    } else {
        None
    }
}

} // verus!
