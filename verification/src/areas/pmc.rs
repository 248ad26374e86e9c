//! The power management controller: the clocks of the chip and of its
//! peripherals.
//!
//! The clock of peripheral N, for N from 2 to 31, is switched on by a store
//! of bit N to the register at offset 0x10 and off by a store of bit N to
//! the register at 0x14; the register at 0x18 shows which clocks run.

use super::{ReadRegister, ReadWriteRegister, RegisterAreas, SetResetStatusRegister};
use crate::field;
use vstd::prelude::*;

verus! {

/// The clocks that the system clock registers switch.
#[derive(Clone, Copy, Debug, PartialEq, Eq, Structural)]
pub enum SystemClockAreas {
    /// The clock of the USB OTG interface.
    EnableUsbOtgClock,
    /// The first programmable clock output.
    ProgrammableClock1,
    /// The second programmable clock output.
    ProgrammableClock2,
    /// The third programmable clock output.
    ProgrammableClock3,
}

impl RegisterAreas for SystemClockAreas {
    open spec fn spec_offset(&self) -> u32 {
        match self {
            SystemClockAreas::EnableUsbOtgClock => 5,
            SystemClockAreas::ProgrammableClock1 => 8,
            SystemClockAreas::ProgrammableClock2 => 9,
            SystemClockAreas::ProgrammableClock3 => 10,
        }
    }

    open spec fn spec_size(&self) -> u32 {
        1
    }

    proof fn lemma_fits(&self) {
    }

    fn offset(&self) -> (offset: u32) {
        match self {
            SystemClockAreas::EnableUsbOtgClock => 5,
            SystemClockAreas::ProgrammableClock1 => 8,
            SystemClockAreas::ProgrammableClock2 => 9,
            SystemClockAreas::ProgrammableClock3 => 10,
        }
    }

    fn size(&self) -> (size: u32) {
        1
    }
}

impl SystemClockAreas {
    /// Two different fields of the register share no bit.
    pub proof fn lemma_areas_apart(one: SystemClockAreas, other: SystemClockAreas)
        requires
            one != other,
        ensures
            field::spec_mask(one.spec_offset(), one.spec_size()) & field::spec_mask(
                other.spec_offset(),
                other.spec_size(),
            ) == 0,
    {
        field::lemma_apart_masks(
            one.spec_offset(),
            one.spec_size(),
            other.spec_offset(),
            other.spec_size(),
        );
    }
}

/// The clocks of the peripherals 2 to 31, one bit each, at the bit of the
/// peripheral's number.
#[derive(Clone, Copy, Debug, PartialEq, Eq, Structural)]
pub enum PeripheralClockAreas {
    /// The clock of peripheral 2.
    PeripheralClock2,
    /// The clock of peripheral 3.
    PeripheralClock3,
    /// The clock of peripheral 4.
    PeripheralClock4,
    /// The clock of peripheral 5.
    PeripheralClock5,
    /// The clock of peripheral 6.
    PeripheralClock6,
    /// The clock of peripheral 7.
    PeripheralClock7,
    /// The clock of peripheral 8.
    PeripheralClock8,
    /// The clock of peripheral 9.
    PeripheralClock9,
    /// The clock of peripheral 10.
    PeripheralClock10,
    /// The clock of peripheral 11.
    PeripheralClock11,
    /// The clock of peripheral 12.
    PeripheralClock12,
    /// The clock of peripheral 13.
    PeripheralClock13,
    /// The clock of peripheral 14.
    PeripheralClock14,
    /// The clock of peripheral 15.
    PeripheralClock15,
    /// The clock of peripheral 16.
    PeripheralClock16,
    /// The clock of peripheral 17.
    PeripheralClock17,
    /// The clock of peripheral 18.
    PeripheralClock18,
    /// The clock of peripheral 19.
    PeripheralClock19,
    /// The clock of peripheral 20.
    PeripheralClock20,
    /// The clock of peripheral 21.
    PeripheralClock21,
    /// The clock of peripheral 22.
    PeripheralClock22,
    /// The clock of peripheral 23.
    PeripheralClock23,
    /// The clock of peripheral 24.
    PeripheralClock24,
    /// The clock of peripheral 25.
    PeripheralClock25,
    /// The clock of peripheral 26.
    PeripheralClock26,
    /// The clock of peripheral 27.
    PeripheralClock27,
    /// The clock of peripheral 28.
    PeripheralClock28,
    /// The clock of peripheral 29.
    PeripheralClock29,
    /// The clock of peripheral 30.
    PeripheralClock30,
    /// The clock of peripheral 31.
    PeripheralClock31,
}

impl RegisterAreas for PeripheralClockAreas {
    open spec fn spec_offset(&self) -> u32 {
        match self {
            PeripheralClockAreas::PeripheralClock2 => 2,
            PeripheralClockAreas::PeripheralClock3 => 3,
            PeripheralClockAreas::PeripheralClock4 => 4,
            PeripheralClockAreas::PeripheralClock5 => 5,
            PeripheralClockAreas::PeripheralClock6 => 6,
            PeripheralClockAreas::PeripheralClock7 => 7,
            PeripheralClockAreas::PeripheralClock8 => 8,
            PeripheralClockAreas::PeripheralClock9 => 9,
            PeripheralClockAreas::PeripheralClock10 => 10,
            PeripheralClockAreas::PeripheralClock11 => 11,
            PeripheralClockAreas::PeripheralClock12 => 12,
            PeripheralClockAreas::PeripheralClock13 => 13,
            PeripheralClockAreas::PeripheralClock14 => 14,
            PeripheralClockAreas::PeripheralClock15 => 15,
            PeripheralClockAreas::PeripheralClock16 => 16,
            PeripheralClockAreas::PeripheralClock17 => 17,
            PeripheralClockAreas::PeripheralClock18 => 18,
            PeripheralClockAreas::PeripheralClock19 => 19,
            PeripheralClockAreas::PeripheralClock20 => 20,
            PeripheralClockAreas::PeripheralClock21 => 21,
            PeripheralClockAreas::PeripheralClock22 => 22,
            PeripheralClockAreas::PeripheralClock23 => 23,
            PeripheralClockAreas::PeripheralClock24 => 24,
            PeripheralClockAreas::PeripheralClock25 => 25,
            PeripheralClockAreas::PeripheralClock26 => 26,
            PeripheralClockAreas::PeripheralClock27 => 27,
            PeripheralClockAreas::PeripheralClock28 => 28,
            PeripheralClockAreas::PeripheralClock29 => 29,
            PeripheralClockAreas::PeripheralClock30 => 30,
            PeripheralClockAreas::PeripheralClock31 => 31,
        }
    }

    open spec fn spec_size(&self) -> u32 {
        1
    }

    proof fn lemma_fits(&self) {
    }

    fn offset(&self) -> (offset: u32) {
        match self {
            PeripheralClockAreas::PeripheralClock2 => 2,
            PeripheralClockAreas::PeripheralClock3 => 3,
            PeripheralClockAreas::PeripheralClock4 => 4,
            PeripheralClockAreas::PeripheralClock5 => 5,
            PeripheralClockAreas::PeripheralClock6 => 6,
            PeripheralClockAreas::PeripheralClock7 => 7,
            PeripheralClockAreas::PeripheralClock8 => 8,
            PeripheralClockAreas::PeripheralClock9 => 9,
            PeripheralClockAreas::PeripheralClock10 => 10,
            PeripheralClockAreas::PeripheralClock11 => 11,
            PeripheralClockAreas::PeripheralClock12 => 12,
            PeripheralClockAreas::PeripheralClock13 => 13,
            PeripheralClockAreas::PeripheralClock14 => 14,
            PeripheralClockAreas::PeripheralClock15 => 15,
            PeripheralClockAreas::PeripheralClock16 => 16,
            PeripheralClockAreas::PeripheralClock17 => 17,
            PeripheralClockAreas::PeripheralClock18 => 18,
            PeripheralClockAreas::PeripheralClock19 => 19,
            PeripheralClockAreas::PeripheralClock20 => 20,
            PeripheralClockAreas::PeripheralClock21 => 21,
            PeripheralClockAreas::PeripheralClock22 => 22,
            PeripheralClockAreas::PeripheralClock23 => 23,
            PeripheralClockAreas::PeripheralClock24 => 24,
            PeripheralClockAreas::PeripheralClock25 => 25,
            PeripheralClockAreas::PeripheralClock26 => 26,
            PeripheralClockAreas::PeripheralClock27 => 27,
            PeripheralClockAreas::PeripheralClock28 => 28,
            PeripheralClockAreas::PeripheralClock29 => 29,
            PeripheralClockAreas::PeripheralClock30 => 30,
            PeripheralClockAreas::PeripheralClock31 => 31,
        }
    }

    fn size(&self) -> (size: u32) {
        1
    }
}

impl PeripheralClockAreas {
    /// Two different fields of the register share no bit.
    pub proof fn lemma_areas_apart(one: PeripheralClockAreas, other: PeripheralClockAreas)
        requires
            one != other,
        ensures
            field::spec_mask(one.spec_offset(), one.spec_size()) & field::spec_mask(
                other.spec_offset(),
                other.spec_size(),
            ) == 0,
    {
        field::lemma_apart_masks(
            one.spec_offset(),
            one.spec_size(),
            other.spec_offset(),
            other.spec_size(),
        );
    }
}

/// The fields of the UTMI clock register.
#[derive(Clone, Copy, Debug, PartialEq, Eq, Structural)]
pub enum UtmiClockAreas {
    /// Whether the UTMI PLL runs.
    UtmiPll,
    /// The start-up time of the UTMI PLL, in units of 8 slow-clock periods.
    UtmiPllStartUpTime,
}

impl RegisterAreas for UtmiClockAreas {
    open spec fn spec_offset(&self) -> u32 {
        match self {
            UtmiClockAreas::UtmiPll => 16,
            UtmiClockAreas::UtmiPllStartUpTime => 20,
        }
    }

    open spec fn spec_size(&self) -> u32 {
        match self {
            UtmiClockAreas::UtmiPll => 1,
            UtmiClockAreas::UtmiPllStartUpTime => 4,
        }
    }

    proof fn lemma_fits(&self) {
    }

    fn offset(&self) -> (offset: u32) {
        match self {
            UtmiClockAreas::UtmiPll => 16,
            UtmiClockAreas::UtmiPllStartUpTime => 20,
        }
    }

    fn size(&self) -> (size: u32) {
        match self {
            UtmiClockAreas::UtmiPll => 1,
            UtmiClockAreas::UtmiPllStartUpTime => 4,
        }
    }
}

impl UtmiClockAreas {
    /// Two different fields of the register share no bit.
    pub proof fn lemma_areas_apart(one: UtmiClockAreas, other: UtmiClockAreas)
        requires
            one != other,
        ensures
            field::spec_mask(one.spec_offset(), one.spec_size()) & field::spec_mask(
                other.spec_offset(),
                other.spec_size(),
            ) == 0,
    {
        field::lemma_apart_masks(
            one.spec_offset(),
            one.spec_size(),
            other.spec_offset(),
            other.spec_size(),
        );
    }
}

/// The fields of the main oscillator register.
#[derive(Clone, Copy, Debug, PartialEq, Eq, Structural)]
pub enum MainOscillatorAreas {
    /// Whether the crystal oscillator runs.
    MainCrystalOscillator,
    /// Whether the crystal oscillator is bypassed.
    MainCrystalOscillatorBypass,
    /// Whether the on-chip RC oscillator runs.
    MainOnChipRcOscillator,
    /// The frequency of the on-chip RC oscillator.
    MainOnChipRcOscillatorFrequency,
    /// The start-up time of the crystal oscillator, in units of 8 slow-clock
    /// periods.
    MainCrystalOscillatorStartUpTime,
    /// The key without which a store to the register changes nothing.
    Key,
    /// The source of the main clock.
    MainOscillatorSelection,
    /// Whether the clock failure detector runs.
    ClockFailureDetector,
}

impl RegisterAreas for MainOscillatorAreas {
    open spec fn spec_offset(&self) -> u32 {
        match self {
            MainOscillatorAreas::MainCrystalOscillator => 0,
            MainOscillatorAreas::MainCrystalOscillatorBypass => 1,
            MainOscillatorAreas::MainOnChipRcOscillator => 3,
            MainOscillatorAreas::MainOnChipRcOscillatorFrequency => 4,
            MainOscillatorAreas::MainCrystalOscillatorStartUpTime => 8,
            MainOscillatorAreas::Key => 16,
            MainOscillatorAreas::MainOscillatorSelection => 24,
            MainOscillatorAreas::ClockFailureDetector => 25,
        }
    }

    open spec fn spec_size(&self) -> u32 {
        match self {
            MainOscillatorAreas::MainCrystalOscillator => 1,
            MainOscillatorAreas::MainCrystalOscillatorBypass => 1,
            MainOscillatorAreas::MainOnChipRcOscillator => 1,
            MainOscillatorAreas::MainOnChipRcOscillatorFrequency => 3,
            MainOscillatorAreas::MainCrystalOscillatorStartUpTime => 8,
            MainOscillatorAreas::Key => 8,
            MainOscillatorAreas::MainOscillatorSelection => 1,
            MainOscillatorAreas::ClockFailureDetector => 1,
        }
    }

    proof fn lemma_fits(&self) {
    }

    fn offset(&self) -> (offset: u32) {
        match self {
            MainOscillatorAreas::MainCrystalOscillator => 0,
            MainOscillatorAreas::MainCrystalOscillatorBypass => 1,
            MainOscillatorAreas::MainOnChipRcOscillator => 3,
            MainOscillatorAreas::MainOnChipRcOscillatorFrequency => 4,
            MainOscillatorAreas::MainCrystalOscillatorStartUpTime => 8,
            MainOscillatorAreas::Key => 16,
            MainOscillatorAreas::MainOscillatorSelection => 24,
            MainOscillatorAreas::ClockFailureDetector => 25,
        }
    }

    fn size(&self) -> (size: u32) {
        match self {
            MainOscillatorAreas::MainCrystalOscillator => 1,
            MainOscillatorAreas::MainCrystalOscillatorBypass => 1,
            MainOscillatorAreas::MainOnChipRcOscillator => 1,
            MainOscillatorAreas::MainOnChipRcOscillatorFrequency => 3,
            MainOscillatorAreas::MainCrystalOscillatorStartUpTime => 8,
            MainOscillatorAreas::Key => 8,
            MainOscillatorAreas::MainOscillatorSelection => 1,
            MainOscillatorAreas::ClockFailureDetector => 1,
        }
    }
}

impl MainOscillatorAreas {
    /// Two different fields of the register share no bit.
    pub proof fn lemma_areas_apart(one: MainOscillatorAreas, other: MainOscillatorAreas)
        requires
            one != other,
        ensures
            field::spec_mask(one.spec_offset(), one.spec_size()) & field::spec_mask(
                other.spec_offset(),
                other.spec_size(),
            ) == 0,
    {
        field::lemma_apart_masks(
            one.spec_offset(),
            one.spec_size(),
            other.spec_offset(),
            other.spec_size(),
        );
    }
}

/// The fields of the main clock frequency register.
#[derive(Clone, Copy, Debug, PartialEq, Eq, Structural)]
pub enum ClockFrequencyAreas {
    /// The number of main-clock periods in 16 slow-clock periods.
    ClockFrequency,
    /// Whether the measurement is complete.
    ClockReady,
}

impl RegisterAreas for ClockFrequencyAreas {
    open spec fn spec_offset(&self) -> u32 {
        match self {
            ClockFrequencyAreas::ClockFrequency => 0,
            ClockFrequencyAreas::ClockReady => 16,
        }
    }

    open spec fn spec_size(&self) -> u32 {
        match self {
            ClockFrequencyAreas::ClockFrequency => 16,
            ClockFrequencyAreas::ClockReady => 1,
        }
    }

    proof fn lemma_fits(&self) {
    }

    fn offset(&self) -> (offset: u32) {
        match self {
            ClockFrequencyAreas::ClockFrequency => 0,
            ClockFrequencyAreas::ClockReady => 16,
        }
    }

    fn size(&self) -> (size: u32) {
        match self {
            ClockFrequencyAreas::ClockFrequency => 16,
            ClockFrequencyAreas::ClockReady => 1,
        }
    }
}

impl ClockFrequencyAreas {
    /// Two different fields of the register share no bit.
    pub proof fn lemma_areas_apart(one: ClockFrequencyAreas, other: ClockFrequencyAreas)
        requires
            one != other,
        ensures
            field::spec_mask(one.spec_offset(), one.spec_size()) & field::spec_mask(
                other.spec_offset(),
                other.spec_size(),
            ) == 0,
    {
        field::lemma_apart_masks(
            one.spec_offset(),
            one.spec_size(),
            other.spec_offset(),
            other.spec_size(),
        );
    }
}

/// The fields of the register of PLL A.
#[derive(Clone, Copy, Debug, PartialEq, Eq, Structural)]
pub enum PllaAreas {
    /// What the input clock is divided by.
    Divider,
    /// The number of slow-clock periods before the lock bit is set.
    PllaCounter,
    /// The multiplier less one; zero switches the PLL off.
    PllaMultiplier,
    /// Has to be one in every store to the register.
    One,
}

impl RegisterAreas for PllaAreas {
    open spec fn spec_offset(&self) -> u32 {
        match self {
            PllaAreas::Divider => 0,
            PllaAreas::PllaCounter => 8,
            PllaAreas::PllaMultiplier => 16,
            PllaAreas::One => 29,
        }
    }

    open spec fn spec_size(&self) -> u32 {
        match self {
            PllaAreas::Divider => 8,
            PllaAreas::PllaCounter => 6,
            PllaAreas::PllaMultiplier => 11,
            PllaAreas::One => 1,
        }
    }

    proof fn lemma_fits(&self) {
    }

    fn offset(&self) -> (offset: u32) {
        match self {
            PllaAreas::Divider => 0,
            PllaAreas::PllaCounter => 8,
            PllaAreas::PllaMultiplier => 16,
            PllaAreas::One => 29,
        }
    }

    fn size(&self) -> (size: u32) {
        match self {
            PllaAreas::Divider => 8,
            PllaAreas::PllaCounter => 6,
            PllaAreas::PllaMultiplier => 11,
            PllaAreas::One => 1,
        }
    }
}

impl PllaAreas {
    /// Two different fields of the register share no bit.
    pub proof fn lemma_areas_apart(one: PllaAreas, other: PllaAreas)
        requires
            one != other,
        ensures
            field::spec_mask(one.spec_offset(), one.spec_size()) & field::spec_mask(
                other.spec_offset(),
                other.spec_size(),
            ) == 0,
    {
        field::lemma_apart_masks(
            one.spec_offset(),
            one.spec_size(),
            other.spec_offset(),
            other.spec_size(),
        );
    }
}

/// The registers of the power management controller.
pub struct Pmc {
    pub system_clock: SetResetStatusRegister<SystemClockAreas>,
    pub peripheral_clock_0: SetResetStatusRegister<PeripheralClockAreas>,
    pub utmi_clock_configuration: ReadWriteRegister<UtmiClockAreas>,
    pub main_oscillator: ReadWriteRegister<MainOscillatorAreas>,
    pub main_clock_frequency: ReadRegister<ClockFrequencyAreas>,
    pub plla: ReadWriteRegister<PllaAreas>,
}

impl Pmc {
    /// The address of the controller's first register.
    pub const ADDRESS: u32 = 0x400E_0600;

    /// The registers lie where the chip has them.
    pub open spec fn wf(&self) -> bool {
        &&& self.system_clock.set.address() == Pmc::ADDRESS
        &&& self.system_clock.reset.address() == Pmc::ADDRESS + 0x4
        &&& self.system_clock.status.address() == Pmc::ADDRESS + 0x8
        &&& self.peripheral_clock_0.set.address() == Pmc::ADDRESS + 0x10
        &&& self.peripheral_clock_0.reset.address() == Pmc::ADDRESS + 0x14
        &&& self.peripheral_clock_0.status.address() == Pmc::ADDRESS + 0x18
        &&& self.utmi_clock_configuration.address() == Pmc::ADDRESS + 0x1C
        &&& self.main_oscillator.address() == Pmc::ADDRESS + 0x20
        &&& self.main_clock_frequency.address() == Pmc::ADDRESS + 0x24
        &&& self.plla.address() == Pmc::ADDRESS + 0x28
    }

    /// The controller at its address on the chip.
    pub fn new() -> (controller: Pmc)
        ensures
            controller.wf(),
    {
        Pmc {
            system_clock: SetResetStatusRegister::new(Pmc::ADDRESS),
            peripheral_clock_0: SetResetStatusRegister::new(Pmc::ADDRESS + 0x10),
            utmi_clock_configuration: ReadWriteRegister::new(Pmc::ADDRESS + 0x1C),
            main_oscillator: ReadWriteRegister::new(Pmc::ADDRESS + 0x20),
            main_clock_frequency: ReadRegister::new(Pmc::ADDRESS + 0x24),
            plla: ReadWriteRegister::new(Pmc::ADDRESS + 0x28),
        }
    }
}

/// The power management controller of the chip.
pub fn pmc() -> (controller: Pmc)
    ensures
        controller.wf(),
{
    Pmc::new()
}

} // verus!
