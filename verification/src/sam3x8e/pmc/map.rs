//! The layouts of the registers of the power management controller.

use super::values::{
    Command, Divider, Divisor, LowPowerMode, MasterClockSource, OnChipRcFrequencyMHz, Oscillator,
    ProcessorClockPrescaler, ProgrammableClockPrescaler, ProgrammableClockSource,
    SlowClockOscillator, UsbInputClock,
};
use crate::sam3x8e::special_ints::{U11, U24, U4, U6};
use crate::sam3x8e::{FieldOf, RegisterType};
use vstd::prelude::*;

verus! {

/// The clocks that the system clock registers switch.
pub struct SystemClock {}

impl RegisterType for SystemClock {

}

impl SystemClock {
    /// The clock of the USB OTG interface.
    pub fn usb_otg_clock() -> (place: FieldOf<SystemClock, bool>)
        ensures
            place.spec_offset() == 5,
    {
        FieldOf::at(5)
    }

    /// The programmable clock output 0.
    pub fn programmable_clock_0() -> (place: FieldOf<SystemClock, bool>)
        ensures
            place.spec_offset() == 8,
    {
        FieldOf::at(8)
    }

    /// The programmable clock output 1.
    pub fn programmable_clock_1() -> (place: FieldOf<SystemClock, bool>)
        ensures
            place.spec_offset() == 9,
    {
        FieldOf::at(9)
    }

    /// The programmable clock output 2.
    pub fn programmable_clock_2() -> (place: FieldOf<SystemClock, bool>)
        ensures
            place.spec_offset() == 10,
    {
        FieldOf::at(10)
    }
}

/// The clocks of the peripherals 2 to 31, one bit each, at the bit of the
/// peripheral's number.
pub struct PeripheralClock0 {}

impl RegisterType for PeripheralClock0 {

}

impl PeripheralClock0 {
    /// The clock of peripheral 2.
    pub fn pid2() -> (place: FieldOf<PeripheralClock0, bool>)
        ensures
            place.spec_offset() == 2,
    {
        FieldOf::at(2)
    }

    /// The clock of peripheral 3.
    pub fn pid3() -> (place: FieldOf<PeripheralClock0, bool>)
        ensures
            place.spec_offset() == 3,
    {
        FieldOf::at(3)
    }

    /// The clock of peripheral 4.
    pub fn pid4() -> (place: FieldOf<PeripheralClock0, bool>)
        ensures
            place.spec_offset() == 4,
    {
        FieldOf::at(4)
    }

    /// The clock of peripheral 5.
    pub fn pid5() -> (place: FieldOf<PeripheralClock0, bool>)
        ensures
            place.spec_offset() == 5,
    {
        FieldOf::at(5)
    }

    /// The clock of peripheral 6.
    pub fn pid6() -> (place: FieldOf<PeripheralClock0, bool>)
        ensures
            place.spec_offset() == 6,
    {
        FieldOf::at(6)
    }

    /// The clock of peripheral 7.
    pub fn pid7() -> (place: FieldOf<PeripheralClock0, bool>)
        ensures
            place.spec_offset() == 7,
    {
        FieldOf::at(7)
    }

    /// The clock of peripheral 8.
    pub fn pid8() -> (place: FieldOf<PeripheralClock0, bool>)
        ensures
            place.spec_offset() == 8,
    {
        FieldOf::at(8)
    }

    /// The clock of peripheral 9.
    pub fn pid9() -> (place: FieldOf<PeripheralClock0, bool>)
        ensures
            place.spec_offset() == 9,
    {
        FieldOf::at(9)
    }

    /// The clock of peripheral 10.
    pub fn pid10() -> (place: FieldOf<PeripheralClock0, bool>)
        ensures
            place.spec_offset() == 10,
    {
        FieldOf::at(10)
    }

    /// The clock of peripheral 11.
    pub fn pid11() -> (place: FieldOf<PeripheralClock0, bool>)
        ensures
            place.spec_offset() == 11,
    {
        FieldOf::at(11)
    }

    /// The clock of peripheral 12.
    pub fn pid12() -> (place: FieldOf<PeripheralClock0, bool>)
        ensures
            place.spec_offset() == 12,
    {
        FieldOf::at(12)
    }

    /// The clock of peripheral 13.
    pub fn pid13() -> (place: FieldOf<PeripheralClock0, bool>)
        ensures
            place.spec_offset() == 13,
    {
        FieldOf::at(13)
    }

    /// The clock of peripheral 14.
    pub fn pid14() -> (place: FieldOf<PeripheralClock0, bool>)
        ensures
            place.spec_offset() == 14,
    {
        FieldOf::at(14)
    }

    /// The clock of peripheral 15.
    pub fn pid15() -> (place: FieldOf<PeripheralClock0, bool>)
        ensures
            place.spec_offset() == 15,
    {
        FieldOf::at(15)
    }

    /// The clock of peripheral 16.
    pub fn pid16() -> (place: FieldOf<PeripheralClock0, bool>)
        ensures
            place.spec_offset() == 16,
    {
        FieldOf::at(16)
    }

    /// The clock of peripheral 17.
    pub fn pid17() -> (place: FieldOf<PeripheralClock0, bool>)
        ensures
            place.spec_offset() == 17,
    {
        FieldOf::at(17)
    }

    /// The clock of peripheral 18.
    pub fn pid18() -> (place: FieldOf<PeripheralClock0, bool>)
        ensures
            place.spec_offset() == 18,
    {
        FieldOf::at(18)
    }

    /// The clock of peripheral 19.
    pub fn pid19() -> (place: FieldOf<PeripheralClock0, bool>)
        ensures
            place.spec_offset() == 19,
    {
        FieldOf::at(19)
    }

    /// The clock of peripheral 20.
    pub fn pid20() -> (place: FieldOf<PeripheralClock0, bool>)
        ensures
            place.spec_offset() == 20,
    {
        FieldOf::at(20)
    }

    /// The clock of peripheral 21.
    pub fn pid21() -> (place: FieldOf<PeripheralClock0, bool>)
        ensures
            place.spec_offset() == 21,
    {
        FieldOf::at(21)
    }

    /// The clock of peripheral 22.
    pub fn pid22() -> (place: FieldOf<PeripheralClock0, bool>)
        ensures
            place.spec_offset() == 22,
    {
        FieldOf::at(22)
    }

    /// The clock of peripheral 23.
    pub fn pid23() -> (place: FieldOf<PeripheralClock0, bool>)
        ensures
            place.spec_offset() == 23,
    {
        FieldOf::at(23)
    }

    /// The clock of peripheral 24.
    pub fn pid24() -> (place: FieldOf<PeripheralClock0, bool>)
        ensures
            place.spec_offset() == 24,
    {
        FieldOf::at(24)
    }

    /// The clock of peripheral 25.
    pub fn pid25() -> (place: FieldOf<PeripheralClock0, bool>)
        ensures
            place.spec_offset() == 25,
    {
        FieldOf::at(25)
    }

    /// The clock of peripheral 26.
    pub fn pid26() -> (place: FieldOf<PeripheralClock0, bool>)
        ensures
            place.spec_offset() == 26,
    {
        FieldOf::at(26)
    }

    /// The clock of peripheral 27.
    pub fn pid27() -> (place: FieldOf<PeripheralClock0, bool>)
        ensures
            place.spec_offset() == 27,
    {
        FieldOf::at(27)
    }

    /// The clock of peripheral 28.
    pub fn pid28() -> (place: FieldOf<PeripheralClock0, bool>)
        ensures
            place.spec_offset() == 28,
    {
        FieldOf::at(28)
    }

    /// The clock of peripheral 29.
    pub fn pid29() -> (place: FieldOf<PeripheralClock0, bool>)
        ensures
            place.spec_offset() == 29,
    {
        FieldOf::at(29)
    }

    /// The clock of peripheral 30.
    pub fn pid30() -> (place: FieldOf<PeripheralClock0, bool>)
        ensures
            place.spec_offset() == 30,
    {
        FieldOf::at(30)
    }

    /// The clock of peripheral 31.
    pub fn pid31() -> (place: FieldOf<PeripheralClock0, bool>)
        ensures
            place.spec_offset() == 31,
    {
        FieldOf::at(31)
    }
}

/// The clocks of the peripherals 32 to 44, one bit each, at the bit of the
/// peripheral's number less 32.
pub struct PeripheralClock1 {}

impl RegisterType for PeripheralClock1 {

}

impl PeripheralClock1 {
    /// The clock of peripheral 32.
    pub fn pid32() -> (place: FieldOf<PeripheralClock1, bool>)
        ensures
            place.spec_offset() == 0,
    {
        FieldOf::at(0)
    }

    /// The clock of peripheral 33.
    pub fn pid33() -> (place: FieldOf<PeripheralClock1, bool>)
        ensures
            place.spec_offset() == 1,
    {
        FieldOf::at(1)
    }

    /// The clock of peripheral 34.
    pub fn pid34() -> (place: FieldOf<PeripheralClock1, bool>)
        ensures
            place.spec_offset() == 2,
    {
        FieldOf::at(2)
    }

    /// The clock of peripheral 35.
    pub fn pid35() -> (place: FieldOf<PeripheralClock1, bool>)
        ensures
            place.spec_offset() == 3,
    {
        FieldOf::at(3)
    }

    /// The clock of peripheral 36.
    pub fn pid36() -> (place: FieldOf<PeripheralClock1, bool>)
        ensures
            place.spec_offset() == 4,
    {
        FieldOf::at(4)
    }

    /// The clock of peripheral 37.
    pub fn pid37() -> (place: FieldOf<PeripheralClock1, bool>)
        ensures
            place.spec_offset() == 5,
    {
        FieldOf::at(5)
    }

    /// The clock of peripheral 38.
    pub fn pid38() -> (place: FieldOf<PeripheralClock1, bool>)
        ensures
            place.spec_offset() == 6,
    {
        FieldOf::at(6)
    }

    /// The clock of peripheral 39.
    pub fn pid39() -> (place: FieldOf<PeripheralClock1, bool>)
        ensures
            place.spec_offset() == 7,
    {
        FieldOf::at(7)
    }

    /// The clock of peripheral 40.
    pub fn pid40() -> (place: FieldOf<PeripheralClock1, bool>)
        ensures
            place.spec_offset() == 8,
    {
        FieldOf::at(8)
    }

    /// The clock of peripheral 41.
    pub fn pid41() -> (place: FieldOf<PeripheralClock1, bool>)
        ensures
            place.spec_offset() == 9,
    {
        FieldOf::at(9)
    }

    /// The clock of peripheral 42.
    pub fn pid42() -> (place: FieldOf<PeripheralClock1, bool>)
        ensures
            place.spec_offset() == 10,
    {
        FieldOf::at(10)
    }

    /// The clock of peripheral 43.
    pub fn pid43() -> (place: FieldOf<PeripheralClock1, bool>)
        ensures
            place.spec_offset() == 11,
    {
        FieldOf::at(11)
    }

    /// The clock of peripheral 44.
    pub fn pid44() -> (place: FieldOf<PeripheralClock1, bool>)
        ensures
            place.spec_offset() == 12,
    {
        FieldOf::at(12)
    }
}

/// The settings of the UTMI PLL.
pub struct UtmiClock {}

impl RegisterType for UtmiClock {

}

impl UtmiClock {
    /// Whether the UTMI PLL runs.
    pub fn utmi_pll() -> (place: FieldOf<UtmiClock, bool>)
        ensures
            place.spec_offset() == 16,
    {
        FieldOf::at(16)
    }

    /// The start-up time of the UTMI PLL, in units of 8 slow-clock periods.
    pub fn utmi_pll_start_up_time() -> (place: FieldOf<UtmiClock, U4>)
        ensures
            place.spec_offset() == 20,
    {
        FieldOf::at(20)
    }
}

/// The settings of the main oscillator.
pub struct MainOscillator {}

impl RegisterType for MainOscillator {

}

impl MainOscillator {
    /// Whether the crystal oscillator runs.
    pub fn crystal_oscillator() -> (place: FieldOf<MainOscillator, bool>)
        ensures
            place.spec_offset() == 0,
    {
        FieldOf::at(0)
    }

    /// Whether the crystal oscillator is bypassed.
    pub fn crystal_oscillator_bypass() -> (place: FieldOf<MainOscillator, bool>)
        ensures
            place.spec_offset() == 1,
    {
        FieldOf::at(1)
    }

    /// Whether the on-chip RC oscillator runs.
    pub fn on_chip_rc() -> (place: FieldOf<MainOscillator, bool>)
        ensures
            place.spec_offset() == 3,
    {
        FieldOf::at(3)
    }

    /// The frequency of the on-chip RC oscillator.
    pub fn on_chip_rc_frequency() -> (place: FieldOf<MainOscillator, OnChipRcFrequencyMHz>)
        ensures
            place.spec_offset() == 4,
    {
        FieldOf::at(4)
    }

    /// The start-up time of the crystal oscillator, in units of 8 slow-clock
    /// periods.
    pub fn crystal_oscillator_startup_time() -> (place: FieldOf<MainOscillator, u8>)
        ensures
            place.spec_offset() == 8,
    {
        FieldOf::at(8)
    }

    /// The key without which a store to the register changes nothing.
    pub fn key() -> (place: FieldOf<MainOscillator, u8>)
        ensures
            place.spec_offset() == 16,
    {
        FieldOf::at(16)
    }

    /// The source of the main clock.
    pub fn oscillator_selection() -> (place: FieldOf<MainOscillator, Oscillator>)
        ensures
            place.spec_offset() == 24,
    {
        FieldOf::at(24)
    }

    /// Whether the clock failure detector runs.
    pub fn clock_failure_detector() -> (place: FieldOf<MainOscillator, bool>)
        ensures
            place.spec_offset() == 25,
    {
        FieldOf::at(25)
    }
}

/// The measured frequency of the main clock.
pub struct ClockFrequency {}

impl RegisterType for ClockFrequency {

}

impl ClockFrequency {
    /// The number of main-clock periods in 16 slow-clock periods.
    pub fn clock_frequency() -> (place: FieldOf<ClockFrequency, u16>)
        ensures
            place.spec_offset() == 0,
    {
        FieldOf::at(0)
    }

    /// Whether the measurement is complete.
    pub fn clock_ready() -> (place: FieldOf<ClockFrequency, bool>)
        ensures
            place.spec_offset() == 16,
    {
        FieldOf::at(16)
    }
}

/// The settings of PLL A.
pub struct Plla {}

impl RegisterType for Plla {

}

impl Plla {
    /// What the input clock is divided by.
    pub fn divider() -> (place: FieldOf<Plla, Divider>)
        ensures
            place.spec_offset() == 0,
    {
        FieldOf::at(0)
    }

    /// The number of slow-clock periods before the lock bit is set.
    pub fn plla_counter() -> (place: FieldOf<Plla, U6>)
        ensures
            place.spec_offset() == 8,
    {
        FieldOf::at(8)
    }

    /// The multiplier less one; zero switches the PLL off.
    pub fn plla_multiplier() -> (place: FieldOf<Plla, U11>)
        ensures
            place.spec_offset() == 16,
    {
        FieldOf::at(16)
    }

    /// Has to be one in every store to the register.
    pub fn allow_write() -> (place: FieldOf<Plla, bool>)
        ensures
            place.spec_offset() == 29,
    {
        FieldOf::at(29)
    }
}

/// The settings of the master clock.
pub struct MasterClock {}

impl RegisterType for MasterClock {

}

impl MasterClock {
    /// The clock that feeds the master clock.
    pub fn master_clock_source() -> (place: FieldOf<MasterClock, MasterClockSource>)
        ensures
            place.spec_offset() == 0,
    {
        FieldOf::at(0)
    }

    /// What the selected clock is divided by.
    pub fn processor_clock_prescaler() -> (place: FieldOf<MasterClock, ProcessorClockPrescaler>)
        ensures
            place.spec_offset() == 4,
    {
        FieldOf::at(4)
    }

    /// Whether the output of PLL A is halved first.
    pub fn divide_plla_by_2() -> (place: FieldOf<MasterClock, bool>)
        ensures
            place.spec_offset() == 12,
    {
        FieldOf::at(12)
    }

    /// Whether the output of the UTMI PLL is halved first.
    pub fn divide_upll_by_2() -> (place: FieldOf<MasterClock, bool>)
        ensures
            place.spec_offset() == 13,
    {
        FieldOf::at(13)
    }
}

/// The settings of the USB clock.
pub struct UsbClock {}

impl RegisterType for UsbClock {

}

impl UsbClock {
    /// The clock that feeds the divider.
    pub fn usb_input_clock() -> (place: FieldOf<UsbClock, UsbInputClock>)
        ensures
            place.spec_offset() == 0,
    {
        FieldOf::at(0)
    }

    /// The divider less one.
    pub fn usb_divider() -> (place: FieldOf<UsbClock, U4>)
        ensures
            place.spec_offset() == 8,
    {
        FieldOf::at(8)
    }
}

/// The settings of one programmable clock output.
pub struct ProgrammableClock {}

impl RegisterType for ProgrammableClock {

}

impl ProgrammableClock {
    /// The clock that feeds the output.
    pub fn source() -> (place: FieldOf<ProgrammableClock, ProgrammableClockSource>)
        ensures
            place.spec_offset() == 0,
    {
        FieldOf::at(0)
    }

    /// What the selected clock is divided by.
    pub fn prescaler() -> (place: FieldOf<ProgrammableClock, ProgrammableClockPrescaler>)
        ensures
            place.spec_offset() == 4,
    {
        FieldOf::at(4)
    }
}

/// The events of the controller that can raise an interrupt.
pub struct Interrupt {}

impl RegisterType for Interrupt {

}

impl Interrupt {
    /// The crystal oscillator is stable.
    pub fn crystal_oscillator_status() -> (place: FieldOf<Interrupt, bool>)
        ensures
            place.spec_offset() == 0,
    {
        FieldOf::at(0)
    }

    /// PLL A is locked.
    pub fn plla_lock() -> (place: FieldOf<Interrupt, bool>)
        ensures
            place.spec_offset() == 1,
    {
        FieldOf::at(1)
    }

    /// The master clock is ready.
    pub fn master_clock_ready() -> (place: FieldOf<Interrupt, bool>)
        ensures
            place.spec_offset() == 3,
    {
        FieldOf::at(3)
    }

    /// The UTMI PLL is locked.
    pub fn utmi_pll_lock() -> (place: FieldOf<Interrupt, bool>)
        ensures
            place.spec_offset() == 6,
    {
        FieldOf::at(6)
    }

    /// The programmable clock output 0 is ready.
    pub fn programmable_clock_0_ready() -> (place: FieldOf<Interrupt, bool>)
        ensures
            place.spec_offset() == 8,
    {
        FieldOf::at(8)
    }

    /// The programmable clock output 1 is ready.
    pub fn programmable_clock_1_ready() -> (place: FieldOf<Interrupt, bool>)
        ensures
            place.spec_offset() == 9,
    {
        FieldOf::at(9)
    }

    /// The programmable clock output 2 is ready.
    pub fn programmable_clock_2_ready() -> (place: FieldOf<Interrupt, bool>)
        ensures
            place.spec_offset() == 10,
    {
        FieldOf::at(10)
    }

    /// The selection of the main oscillator is done.
    pub fn main_oscillator_selection_status() -> (place: FieldOf<Interrupt, bool>)
        ensures
            place.spec_offset() == 16,
    {
        FieldOf::at(16)
    }

    /// The on-chip RC oscillator is stable.
    pub fn on_chip_rc_status() -> (place: FieldOf<Interrupt, bool>)
        ensures
            place.spec_offset() == 17,
    {
        FieldOf::at(17)
    }

    /// The clock failure detector has seen a failure.
    pub fn clock_failure_detector_event() -> (place: FieldOf<Interrupt, bool>)
        ensures
            place.spec_offset() == 18,
    {
        FieldOf::at(18)
    }
}

/// The state of the clocks.
pub struct Status {}

impl RegisterType for Status {

}

impl Status {
    /// The crystal oscillator is stable.
    pub fn crystal_oscillator_status() -> (place: FieldOf<Status, bool>)
        ensures
            place.spec_offset() == 0,
    {
        FieldOf::at(0)
    }

    /// PLL A is locked.
    pub fn plla_lock() -> (place: FieldOf<Status, bool>)
        ensures
            place.spec_offset() == 1,
    {
        FieldOf::at(1)
    }

    /// The master clock is ready.
    pub fn master_clock_ready() -> (place: FieldOf<Status, bool>)
        ensures
            place.spec_offset() == 3,
    {
        FieldOf::at(3)
    }

    /// The UTMI PLL is locked.
    pub fn utmi_pll_lock() -> (place: FieldOf<Status, bool>)
        ensures
            place.spec_offset() == 6,
    {
        FieldOf::at(6)
    }

    /// The source of the slow clock.
    pub fn slow_clock_oscillator() -> (place: FieldOf<Status, SlowClockOscillator>)
        ensures
            place.spec_offset() == 7,
    {
        FieldOf::at(7)
    }

    /// The programmable clock output 0 is ready.
    pub fn programmable_clock_0_ready() -> (place: FieldOf<Status, bool>)
        ensures
            place.spec_offset() == 8,
    {
        FieldOf::at(8)
    }

    /// The programmable clock output 1 is ready.
    pub fn programmable_clock_1_ready() -> (place: FieldOf<Status, bool>)
        ensures
            place.spec_offset() == 9,
    {
        FieldOf::at(9)
    }

    /// The programmable clock output 2 is ready.
    pub fn programmable_clock_2_ready() -> (place: FieldOf<Status, bool>)
        ensures
            place.spec_offset() == 10,
    {
        FieldOf::at(10)
    }

    /// The selection of the main oscillator is done.
    pub fn main_oscillator_selection_status() -> (place: FieldOf<Status, bool>)
        ensures
            place.spec_offset() == 16,
    {
        FieldOf::at(16)
    }

    /// The on-chip RC oscillator is stable.
    pub fn on_chip_rc_status() -> (place: FieldOf<Status, bool>)
        ensures
            place.spec_offset() == 17,
    {
        FieldOf::at(17)
    }

    /// The clock failure detector has seen a failure.
    pub fn clock_failure_detector_event() -> (place: FieldOf<Status, bool>)
        ensures
            place.spec_offset() == 18,
    {
        FieldOf::at(18)
    }

    /// The main clock has failed.
    pub fn clock_failure_detector_status() -> (place: FieldOf<Status, bool>)
        ensures
            place.spec_offset() == 19,
    {
        FieldOf::at(19)
    }

    /// The fault output of the clock failure detector is active.
    pub fn clock_failure_detector_fault_output_status() -> (place: FieldOf<Status, bool>)
        ensures
            place.spec_offset() == 20,
    {
        FieldOf::at(20)
    }
}

/// The sources that wake the chip quickly from low-power mode.
pub struct FastStartupMode {}

impl RegisterType for FastStartupMode {

}

impl FastStartupMode {
    /// Whether the fast start-up input 0 wakes the chip.
    pub fn fast_startup_input_0() -> (place: FieldOf<FastStartupMode, bool>)
        ensures
            place.spec_offset() == 0,
    {
        FieldOf::at(0)
    }

    /// Whether the fast start-up input 1 wakes the chip.
    pub fn fast_startup_input_1() -> (place: FieldOf<FastStartupMode, bool>)
        ensures
            place.spec_offset() == 1,
    {
        FieldOf::at(1)
    }

    /// Whether the fast start-up input 2 wakes the chip.
    pub fn fast_startup_input_2() -> (place: FieldOf<FastStartupMode, bool>)
        ensures
            place.spec_offset() == 2,
    {
        FieldOf::at(2)
    }

    /// Whether the fast start-up input 3 wakes the chip.
    pub fn fast_startup_input_3() -> (place: FieldOf<FastStartupMode, bool>)
        ensures
            place.spec_offset() == 3,
    {
        FieldOf::at(3)
    }

    /// Whether the fast start-up input 4 wakes the chip.
    pub fn fast_startup_input_4() -> (place: FieldOf<FastStartupMode, bool>)
        ensures
            place.spec_offset() == 4,
    {
        FieldOf::at(4)
    }

    /// Whether the fast start-up input 5 wakes the chip.
    pub fn fast_startup_input_5() -> (place: FieldOf<FastStartupMode, bool>)
        ensures
            place.spec_offset() == 5,
    {
        FieldOf::at(5)
    }

    /// Whether the fast start-up input 6 wakes the chip.
    pub fn fast_startup_input_6() -> (place: FieldOf<FastStartupMode, bool>)
        ensures
            place.spec_offset() == 6,
    {
        FieldOf::at(6)
    }

    /// Whether the fast start-up input 7 wakes the chip.
    pub fn fast_startup_input_7() -> (place: FieldOf<FastStartupMode, bool>)
        ensures
            place.spec_offset() == 7,
    {
        FieldOf::at(7)
    }

    /// Whether the fast start-up input 8 wakes the chip.
    pub fn fast_startup_input_8() -> (place: FieldOf<FastStartupMode, bool>)
        ensures
            place.spec_offset() == 8,
    {
        FieldOf::at(8)
    }

    /// Whether the fast start-up input 9 wakes the chip.
    pub fn fast_startup_input_9() -> (place: FieldOf<FastStartupMode, bool>)
        ensures
            place.spec_offset() == 9,
    {
        FieldOf::at(9)
    }

    /// Whether the fast start-up input 10 wakes the chip.
    pub fn fast_startup_input_10() -> (place: FieldOf<FastStartupMode, bool>)
        ensures
            place.spec_offset() == 10,
    {
        FieldOf::at(10)
    }

    /// Whether the fast start-up input 11 wakes the chip.
    pub fn fast_startup_input_11() -> (place: FieldOf<FastStartupMode, bool>)
        ensures
            place.spec_offset() == 11,
    {
        FieldOf::at(11)
    }

    /// Whether the fast start-up input 12 wakes the chip.
    pub fn fast_startup_input_12() -> (place: FieldOf<FastStartupMode, bool>)
        ensures
            place.spec_offset() == 12,
    {
        FieldOf::at(12)
    }

    /// Whether the fast start-up input 13 wakes the chip.
    pub fn fast_startup_input_13() -> (place: FieldOf<FastStartupMode, bool>)
        ensures
            place.spec_offset() == 13,
    {
        FieldOf::at(13)
    }

    /// Whether the fast start-up input 14 wakes the chip.
    pub fn fast_startup_input_14() -> (place: FieldOf<FastStartupMode, bool>)
        ensures
            place.spec_offset() == 14,
    {
        FieldOf::at(14)
    }

    /// Whether the fast start-up input 15 wakes the chip.
    pub fn fast_startup_input_15() -> (place: FieldOf<FastStartupMode, bool>)
        ensures
            place.spec_offset() == 15,
    {
        FieldOf::at(15)
    }

    /// Whether an alarm of the real-time timer wakes the chip.
    pub fn rtt_alarm() -> (place: FieldOf<FastStartupMode, bool>)
        ensures
            place.spec_offset() == 16,
    {
        FieldOf::at(16)
    }

    /// Whether an alarm of the real-time clock wakes the chip.
    pub fn rtc_alarm() -> (place: FieldOf<FastStartupMode, bool>)
        ensures
            place.spec_offset() == 17,
    {
        FieldOf::at(17)
    }

    /// Whether an alarm of the USB interface wakes the chip.
    pub fn usb_alarm() -> (place: FieldOf<FastStartupMode, bool>)
        ensures
            place.spec_offset() == 18,
    {
        FieldOf::at(18)
    }

    /// What brings the processor into low-power mode.
    pub fn low_power_mode() -> (place: FieldOf<FastStartupMode, LowPowerMode>)
        ensures
            place.spec_offset() == 20,
    {
        FieldOf::at(20)
    }
}

/// The levels of the fast start-up inputs that wake the chip.
pub struct FastStartupPolarity {}

impl RegisterType for FastStartupPolarity {

}

impl FastStartupPolarity {
    /// Whether the fast start-up input 0 wakes the chip at a high level.
    pub fn input_0() -> (place: FieldOf<FastStartupPolarity, bool>)
        ensures
            place.spec_offset() == 0,
    {
        FieldOf::at(0)
    }

    /// Whether the fast start-up input 1 wakes the chip at a high level.
    pub fn input_1() -> (place: FieldOf<FastStartupPolarity, bool>)
        ensures
            place.spec_offset() == 1,
    {
        FieldOf::at(1)
    }

    /// Whether the fast start-up input 2 wakes the chip at a high level.
    pub fn input_2() -> (place: FieldOf<FastStartupPolarity, bool>)
        ensures
            place.spec_offset() == 2,
    {
        FieldOf::at(2)
    }

    /// Whether the fast start-up input 3 wakes the chip at a high level.
    pub fn input_3() -> (place: FieldOf<FastStartupPolarity, bool>)
        ensures
            place.spec_offset() == 3,
    {
        FieldOf::at(3)
    }

    /// Whether the fast start-up input 4 wakes the chip at a high level.
    pub fn input_4() -> (place: FieldOf<FastStartupPolarity, bool>)
        ensures
            place.spec_offset() == 4,
    {
        FieldOf::at(4)
    }

    /// Whether the fast start-up input 5 wakes the chip at a high level.
    pub fn input_5() -> (place: FieldOf<FastStartupPolarity, bool>)
        ensures
            place.spec_offset() == 5,
    {
        FieldOf::at(5)
    }

    /// Whether the fast start-up input 6 wakes the chip at a high level.
    pub fn input_6() -> (place: FieldOf<FastStartupPolarity, bool>)
        ensures
            place.spec_offset() == 6,
    {
        FieldOf::at(6)
    }

    /// Whether the fast start-up input 7 wakes the chip at a high level.
    pub fn input_7() -> (place: FieldOf<FastStartupPolarity, bool>)
        ensures
            place.spec_offset() == 7,
    {
        FieldOf::at(7)
    }

    /// Whether the fast start-up input 8 wakes the chip at a high level.
    pub fn input_8() -> (place: FieldOf<FastStartupPolarity, bool>)
        ensures
            place.spec_offset() == 8,
    {
        FieldOf::at(8)
    }

    /// Whether the fast start-up input 9 wakes the chip at a high level.
    pub fn input_9() -> (place: FieldOf<FastStartupPolarity, bool>)
        ensures
            place.spec_offset() == 9,
    {
        FieldOf::at(9)
    }

    /// Whether the fast start-up input 10 wakes the chip at a high level.
    pub fn input_10() -> (place: FieldOf<FastStartupPolarity, bool>)
        ensures
            place.spec_offset() == 10,
    {
        FieldOf::at(10)
    }

    /// Whether the fast start-up input 11 wakes the chip at a high level.
    pub fn input_11() -> (place: FieldOf<FastStartupPolarity, bool>)
        ensures
            place.spec_offset() == 11,
    {
        FieldOf::at(11)
    }

    /// Whether the fast start-up input 12 wakes the chip at a high level.
    pub fn input_12() -> (place: FieldOf<FastStartupPolarity, bool>)
        ensures
            place.spec_offset() == 12,
    {
        FieldOf::at(12)
    }

    /// Whether the fast start-up input 13 wakes the chip at a high level.
    pub fn input_13() -> (place: FieldOf<FastStartupPolarity, bool>)
        ensures
            place.spec_offset() == 13,
    {
        FieldOf::at(13)
    }

    /// Whether the fast start-up input 14 wakes the chip at a high level.
    pub fn input_14() -> (place: FieldOf<FastStartupPolarity, bool>)
        ensures
            place.spec_offset() == 14,
    {
        FieldOf::at(14)
    }

    /// Whether the fast start-up input 15 wakes the chip at a high level.
    pub fn input_15() -> (place: FieldOf<FastStartupPolarity, bool>)
        ensures
            place.spec_offset() == 15,
    {
        FieldOf::at(15)
    }
}

/// The write protection of the controller's registers.
pub struct WriteProtectMode {}

impl RegisterType for WriteProtectMode {

}

impl WriteProtectMode {
    /// Whether the registers are protected.
    pub fn enable() -> (place: FieldOf<WriteProtectMode, bool>)
        ensures
            place.spec_offset() == 0,
    {
        FieldOf::at(0)
    }

    /// The key without which a store to the register changes nothing. It
    /// always reads as zero.
    pub fn key() -> (place: FieldOf<WriteProtectMode, U24>)
        ensures
            place.spec_offset() == 8,
    {
        FieldOf::at(8)
    }
}

/// What the write protection has seen.
pub struct WriteProtectStatus {}

impl RegisterType for WriteProtectStatus {

}

impl WriteProtectStatus {
    /// Whether a store to a protected register was tried since the last
    /// read.
    pub fn violation() -> (place: FieldOf<WriteProtectStatus, bool>)
        ensures
            place.spec_offset() == 0,
    {
        FieldOf::at(0)
    }

    /// The offset of the register that the store was aimed at.
    pub fn violation_source() -> (place: FieldOf<WriteProtectStatus, u16>)
        ensures
            place.spec_offset() == 8,
    {
        FieldOf::at(8)
    }
}

/// The settings of the clock of one peripheral.
pub struct PeripheralControl {}

impl RegisterType for PeripheralControl {

}

impl PeripheralControl {
    /// The number of the peripheral.
    pub fn peripheral_id() -> (place: FieldOf<PeripheralControl, U6>)
        ensures
            place.spec_offset() == 0,
    {
        FieldOf::at(0)
    }

    /// Whether the settings are read or written.
    pub fn command() -> (place: FieldOf<PeripheralControl, Command>)
        ensures
            place.spec_offset() == 12,
    {
        FieldOf::at(12)
    }

    /// What the master clock is divided by.
    pub fn divisor() -> (place: FieldOf<PeripheralControl, Divisor>)
        ensures
            place.spec_offset() == 16,
    {
        FieldOf::at(16)
    }

    /// Whether the clock of the peripheral runs.
    pub fn corresponding_clock() -> (place: FieldOf<PeripheralControl, bool>)
        ensures
            place.spec_offset() == 28,
    {
        FieldOf::at(28)
    }
}

} // verus!
