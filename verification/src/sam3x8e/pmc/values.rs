//! The values of the fields of the power management controller that are
//! neither flags nor numbers. A field may have bit patterns that stand for
//! no value.

use crate::field;
use crate::sam3x8e::RegisterField;
use vstd::prelude::*;

verus! {

/// The frequency of the on-chip RC oscillator.
#[derive(Clone, Copy, Debug, PartialEq, Eq, Structural)]
pub enum OnChipRcFrequencyMHz {
    /// 4 MHz.
    Four,
    /// 8 MHz.
    Eight,
    /// 12 MHz.
    Twelve,
}

impl RegisterField for OnChipRcFrequencyMHz {
    const MASK: u32 = 0x7;

    open spec fn spec_width() -> u32 {
        3
    }

    open spec fn distinct(self) -> bool {
        true
    }

    open spec fn spec_into_u32(self) -> u32 {
        match self {
            OnChipRcFrequencyMHz::Four => 0,
            OnChipRcFrequencyMHz::Eight => 1,
            OnChipRcFrequencyMHz::Twelve => 2,
        }
    }

    open spec fn spec_from_u32(value: u32) -> OnChipRcFrequencyMHz {
        if value == 0 {
            OnChipRcFrequencyMHz::Four
        } else if value == 1 {
            OnChipRcFrequencyMHz::Eight
        } else {
            OnChipRcFrequencyMHz::Twelve
        }
    }

    open spec fn known(value: u32) -> bool {
        value <= 2
    }

    proof fn lemma_width() {
        field::lemma_fill_values();
    }

    proof fn lemma_into_then_from(self) {
    }

    fn into_u32(self) -> (bits: u32) {
        match self {
            OnChipRcFrequencyMHz::Four => 0,
            OnChipRcFrequencyMHz::Eight => 1,
            OnChipRcFrequencyMHz::Twelve => 2,
        }
    }

    fn from_u32(value: u32) -> (decoded: OnChipRcFrequencyMHz) {
        if value == 0 {
            OnChipRcFrequencyMHz::Four
        } else if value == 1 {
            OnChipRcFrequencyMHz::Eight
        } else {
            OnChipRcFrequencyMHz::Twelve
        }
    }

    fn is_known(value: u32) -> (known: bool) {
        value <= 2
    }
}

/// The source of the main clock.
#[derive(Clone, Copy, Debug, PartialEq, Eq, Structural)]
pub enum Oscillator {
    /// The on-chip RC oscillator.
    OnChipRc,
    /// The crystal oscillator.
    CrystalOscillator,
}

impl RegisterField for Oscillator {
    const MASK: u32 = 0x1;

    open spec fn spec_width() -> u32 {
        1
    }

    open spec fn distinct(self) -> bool {
        true
    }

    open spec fn spec_into_u32(self) -> u32 {
        match self {
            Oscillator::OnChipRc => 0,
            Oscillator::CrystalOscillator => 1,
        }
    }

    open spec fn spec_from_u32(value: u32) -> Oscillator {
        if value == 0 {
            Oscillator::OnChipRc
        } else {
            Oscillator::CrystalOscillator
        }
    }

    open spec fn known(value: u32) -> bool {
        value <= 1
    }

    proof fn lemma_width() {
        field::lemma_fill_values();
    }

    proof fn lemma_into_then_from(self) {
    }

    fn into_u32(self) -> (bits: u32) {
        match self {
            Oscillator::OnChipRc => 0,
            Oscillator::CrystalOscillator => 1,
        }
    }

    fn from_u32(value: u32) -> (decoded: Oscillator) {
        if value == 0 {
            Oscillator::OnChipRc
        } else {
            Oscillator::CrystalOscillator
        }
    }

    fn is_known(value: u32) -> (known: bool) {
        value <= 1
    }
}

/// The clock that feeds the master clock.
#[derive(Clone, Copy, Debug, PartialEq, Eq, Structural)]
pub enum MasterClockSource {
    /// The slow clock.
    Slow,
    /// The main clock.
    Main,
    /// The output of PLL A.
    Plla,
    /// The output of the UTMI PLL.
    Upll,
}

impl RegisterField for MasterClockSource {
    const MASK: u32 = 0x3;

    open spec fn spec_width() -> u32 {
        2
    }

    open spec fn distinct(self) -> bool {
        true
    }

    open spec fn spec_into_u32(self) -> u32 {
        match self {
            MasterClockSource::Slow => 0,
            MasterClockSource::Main => 1,
            MasterClockSource::Plla => 2,
            MasterClockSource::Upll => 3,
        }
    }

    open spec fn spec_from_u32(value: u32) -> MasterClockSource {
        if value == 0 {
            MasterClockSource::Slow
        } else if value == 1 {
            MasterClockSource::Main
        } else if value == 2 {
            MasterClockSource::Plla
        } else {
            MasterClockSource::Upll
        }
    }

    open spec fn known(value: u32) -> bool {
        value <= 3
    }

    proof fn lemma_width() {
        field::lemma_fill_values();
    }

    proof fn lemma_into_then_from(self) {
    }

    fn into_u32(self) -> (bits: u32) {
        match self {
            MasterClockSource::Slow => 0,
            MasterClockSource::Main => 1,
            MasterClockSource::Plla => 2,
            MasterClockSource::Upll => 3,
        }
    }

    fn from_u32(value: u32) -> (decoded: MasterClockSource) {
        if value == 0 {
            MasterClockSource::Slow
        } else if value == 1 {
            MasterClockSource::Main
        } else if value == 2 {
            MasterClockSource::Plla
        } else {
            MasterClockSource::Upll
        }
    }

    fn is_known(value: u32) -> (known: bool) {
        value <= 3
    }
}

/// What the selected clock is divided by to give the processor clock.
#[derive(Clone, Copy, Debug, PartialEq, Eq, Structural)]
pub enum ProcessorClockPrescaler {
    /// Not divided.
    Normal,
    /// Divided by 2.
    Div2,
    /// Divided by 4.
    Div4,
    /// Divided by 8.
    Div8,
    /// Divided by 16.
    Div16,
    /// Divided by 32.
    Div32,
    /// Divided by 64.
    Div64,
    /// Divided by 3.
    Div3,
}

impl RegisterField for ProcessorClockPrescaler {
    const MASK: u32 = 0x7;

    open spec fn spec_width() -> u32 {
        3
    }

    open spec fn distinct(self) -> bool {
        true
    }

    open spec fn spec_into_u32(self) -> u32 {
        match self {
            ProcessorClockPrescaler::Normal => 0,
            ProcessorClockPrescaler::Div2 => 1,
            ProcessorClockPrescaler::Div4 => 2,
            ProcessorClockPrescaler::Div8 => 3,
            ProcessorClockPrescaler::Div16 => 4,
            ProcessorClockPrescaler::Div32 => 5,
            ProcessorClockPrescaler::Div64 => 6,
            ProcessorClockPrescaler::Div3 => 7,
        }
    }

    open spec fn spec_from_u32(value: u32) -> ProcessorClockPrescaler {
        if value == 0 {
            ProcessorClockPrescaler::Normal
        } else if value == 1 {
            ProcessorClockPrescaler::Div2
        } else if value == 2 {
            ProcessorClockPrescaler::Div4
        } else if value == 3 {
            ProcessorClockPrescaler::Div8
        } else if value == 4 {
            ProcessorClockPrescaler::Div16
        } else if value == 5 {
            ProcessorClockPrescaler::Div32
        } else if value == 6 {
            ProcessorClockPrescaler::Div64
        } else {
            ProcessorClockPrescaler::Div3
        }
    }

    open spec fn known(value: u32) -> bool {
        value <= 7
    }

    proof fn lemma_width() {
        field::lemma_fill_values();
    }

    proof fn lemma_into_then_from(self) {
    }

    fn into_u32(self) -> (bits: u32) {
        match self {
            ProcessorClockPrescaler::Normal => 0,
            ProcessorClockPrescaler::Div2 => 1,
            ProcessorClockPrescaler::Div4 => 2,
            ProcessorClockPrescaler::Div8 => 3,
            ProcessorClockPrescaler::Div16 => 4,
            ProcessorClockPrescaler::Div32 => 5,
            ProcessorClockPrescaler::Div64 => 6,
            ProcessorClockPrescaler::Div3 => 7,
        }
    }

    fn from_u32(value: u32) -> (decoded: ProcessorClockPrescaler) {
        if value == 0 {
            ProcessorClockPrescaler::Normal
        } else if value == 1 {
            ProcessorClockPrescaler::Div2
        } else if value == 2 {
            ProcessorClockPrescaler::Div4
        } else if value == 3 {
            ProcessorClockPrescaler::Div8
        } else if value == 4 {
            ProcessorClockPrescaler::Div16
        } else if value == 5 {
            ProcessorClockPrescaler::Div32
        } else if value == 6 {
            ProcessorClockPrescaler::Div64
        } else {
            ProcessorClockPrescaler::Div3
        }
    }

    fn is_known(value: u32) -> (known: bool) {
        value <= 7
    }
}

/// The clock that feeds the USB clock divider.
#[derive(Clone, Copy, Debug, PartialEq, Eq, Structural)]
pub enum UsbInputClock {
    /// The output of PLL A.
    Plla,
    /// The output of the UTMI PLL.
    Pllb,
}

impl RegisterField for UsbInputClock {
    const MASK: u32 = 0x1;

    open spec fn spec_width() -> u32 {
        1
    }

    open spec fn distinct(self) -> bool {
        true
    }

    open spec fn spec_into_u32(self) -> u32 {
        match self {
            UsbInputClock::Plla => 0,
            UsbInputClock::Pllb => 1,
        }
    }

    open spec fn spec_from_u32(value: u32) -> UsbInputClock {
        if value == 0 {
            UsbInputClock::Plla
        } else {
            UsbInputClock::Pllb
        }
    }

    open spec fn known(value: u32) -> bool {
        value <= 1
    }

    proof fn lemma_width() {
        field::lemma_fill_values();
    }

    proof fn lemma_into_then_from(self) {
    }

    fn into_u32(self) -> (bits: u32) {
        match self {
            UsbInputClock::Plla => 0,
            UsbInputClock::Pllb => 1,
        }
    }

    fn from_u32(value: u32) -> (decoded: UsbInputClock) {
        if value == 0 {
            UsbInputClock::Plla
        } else {
            UsbInputClock::Pllb
        }
    }

    fn is_known(value: u32) -> (known: bool) {
        value <= 1
    }
}

/// The clock that feeds a programmable clock output.
#[derive(Clone, Copy, Debug, PartialEq, Eq, Structural)]
pub enum ProgrammableClockSource {
    /// The slow clock.
    Slow,
    /// The main clock.
    Main,
    /// The output of PLL A.
    Plla,
    /// The output of the UTMI PLL.
    Upll,
    /// The master clock.
    Master,
}

impl RegisterField for ProgrammableClockSource {
    const MASK: u32 = 0x7;

    open spec fn spec_width() -> u32 {
        3
    }

    open spec fn distinct(self) -> bool {
        true
    }

    open spec fn spec_into_u32(self) -> u32 {
        match self {
            ProgrammableClockSource::Slow => 0,
            ProgrammableClockSource::Main => 1,
            ProgrammableClockSource::Plla => 2,
            ProgrammableClockSource::Upll => 3,
            ProgrammableClockSource::Master => 4,
        }
    }

    open spec fn spec_from_u32(value: u32) -> ProgrammableClockSource {
        if value == 0 {
            ProgrammableClockSource::Slow
        } else if value == 1 {
            ProgrammableClockSource::Main
        } else if value == 2 {
            ProgrammableClockSource::Plla
        } else if value == 3 {
            ProgrammableClockSource::Upll
        } else {
            ProgrammableClockSource::Master
        }
    }

    open spec fn known(value: u32) -> bool {
        value <= 4
    }

    proof fn lemma_width() {
        field::lemma_fill_values();
    }

    proof fn lemma_into_then_from(self) {
    }

    fn into_u32(self) -> (bits: u32) {
        match self {
            ProgrammableClockSource::Slow => 0,
            ProgrammableClockSource::Main => 1,
            ProgrammableClockSource::Plla => 2,
            ProgrammableClockSource::Upll => 3,
            ProgrammableClockSource::Master => 4,
        }
    }

    fn from_u32(value: u32) -> (decoded: ProgrammableClockSource) {
        if value == 0 {
            ProgrammableClockSource::Slow
        } else if value == 1 {
            ProgrammableClockSource::Main
        } else if value == 2 {
            ProgrammableClockSource::Plla
        } else if value == 3 {
            ProgrammableClockSource::Upll
        } else {
            ProgrammableClockSource::Master
        }
    }

    fn is_known(value: u32) -> (known: bool) {
        value <= 4
    }
}

/// What the selected clock is divided by to give a programmable clock.
#[derive(Clone, Copy, Debug, PartialEq, Eq, Structural)]
pub enum ProgrammableClockPrescaler {
    /// Not divided.
    Normal,
    /// Divided by 2.
    Div2,
    /// Divided by 4.
    Div4,
    /// Divided by 8.
    Div8,
    /// Divided by 16.
    Div16,
    /// Divided by 32.
    Div32,
    /// Divided by 64.
    Div64,
}

impl RegisterField for ProgrammableClockPrescaler {
    const MASK: u32 = 0x7;

    open spec fn spec_width() -> u32 {
        3
    }

    open spec fn distinct(self) -> bool {
        true
    }

    open spec fn spec_into_u32(self) -> u32 {
        match self {
            ProgrammableClockPrescaler::Normal => 0,
            ProgrammableClockPrescaler::Div2 => 1,
            ProgrammableClockPrescaler::Div4 => 2,
            ProgrammableClockPrescaler::Div8 => 3,
            ProgrammableClockPrescaler::Div16 => 4,
            ProgrammableClockPrescaler::Div32 => 5,
            ProgrammableClockPrescaler::Div64 => 6,
        }
    }

    open spec fn spec_from_u32(value: u32) -> ProgrammableClockPrescaler {
        if value == 0 {
            ProgrammableClockPrescaler::Normal
        } else if value == 1 {
            ProgrammableClockPrescaler::Div2
        } else if value == 2 {
            ProgrammableClockPrescaler::Div4
        } else if value == 3 {
            ProgrammableClockPrescaler::Div8
        } else if value == 4 {
            ProgrammableClockPrescaler::Div16
        } else if value == 5 {
            ProgrammableClockPrescaler::Div32
        } else {
            ProgrammableClockPrescaler::Div64
        }
    }

    open spec fn known(value: u32) -> bool {
        value <= 6
    }

    proof fn lemma_width() {
        field::lemma_fill_values();
    }

    proof fn lemma_into_then_from(self) {
    }

    fn into_u32(self) -> (bits: u32) {
        match self {
            ProgrammableClockPrescaler::Normal => 0,
            ProgrammableClockPrescaler::Div2 => 1,
            ProgrammableClockPrescaler::Div4 => 2,
            ProgrammableClockPrescaler::Div8 => 3,
            ProgrammableClockPrescaler::Div16 => 4,
            ProgrammableClockPrescaler::Div32 => 5,
            ProgrammableClockPrescaler::Div64 => 6,
        }
    }

    fn from_u32(value: u32) -> (decoded: ProgrammableClockPrescaler) {
        if value == 0 {
            ProgrammableClockPrescaler::Normal
        } else if value == 1 {
            ProgrammableClockPrescaler::Div2
        } else if value == 2 {
            ProgrammableClockPrescaler::Div4
        } else if value == 3 {
            ProgrammableClockPrescaler::Div8
        } else if value == 4 {
            ProgrammableClockPrescaler::Div16
        } else if value == 5 {
            ProgrammableClockPrescaler::Div32
        } else {
            ProgrammableClockPrescaler::Div64
        }
    }

    fn is_known(value: u32) -> (known: bool) {
        value <= 6
    }
}

/// The source of the slow clock.
#[derive(Clone, Copy, Debug, PartialEq, Eq, Structural)]
pub enum SlowClockOscillator {
    /// The internal RC oscillator.
    InternalRc,
    /// The external 32 kHz oscillator.
    External32kHz,
}

impl RegisterField for SlowClockOscillator {
    const MASK: u32 = 0x1;

    open spec fn spec_width() -> u32 {
        1
    }

    open spec fn distinct(self) -> bool {
        true
    }

    open spec fn spec_into_u32(self) -> u32 {
        match self {
            SlowClockOscillator::InternalRc => 0,
            SlowClockOscillator::External32kHz => 1,
        }
    }

    open spec fn spec_from_u32(value: u32) -> SlowClockOscillator {
        if value == 0 {
            SlowClockOscillator::InternalRc
        } else {
            SlowClockOscillator::External32kHz
        }
    }

    open spec fn known(value: u32) -> bool {
        value <= 1
    }

    proof fn lemma_width() {
        field::lemma_fill_values();
    }

    proof fn lemma_into_then_from(self) {
    }

    fn into_u32(self) -> (bits: u32) {
        match self {
            SlowClockOscillator::InternalRc => 0,
            SlowClockOscillator::External32kHz => 1,
        }
    }

    fn from_u32(value: u32) -> (decoded: SlowClockOscillator) {
        if value == 0 {
            SlowClockOscillator::InternalRc
        } else {
            SlowClockOscillator::External32kHz
        }
    }

    fn is_known(value: u32) -> (known: bool) {
        value <= 1
    }
}

/// What brings the processor into low-power mode.
#[derive(Clone, Copy, Debug, PartialEq, Eq, Structural)]
pub enum LowPowerMode {
    /// A wait for interrupt or a wait for event.
    WfiOrWfe,
    /// A wait for event only.
    Wfe,
}

impl RegisterField for LowPowerMode {
    const MASK: u32 = 0x1;

    open spec fn spec_width() -> u32 {
        1
    }

    open spec fn distinct(self) -> bool {
        true
    }

    open spec fn spec_into_u32(self) -> u32 {
        match self {
            LowPowerMode::WfiOrWfe => 0,
            LowPowerMode::Wfe => 1,
        }
    }

    open spec fn spec_from_u32(value: u32) -> LowPowerMode {
        if value == 0 {
            LowPowerMode::WfiOrWfe
        } else {
            LowPowerMode::Wfe
        }
    }

    open spec fn known(value: u32) -> bool {
        value <= 1
    }

    proof fn lemma_width() {
        field::lemma_fill_values();
    }

    proof fn lemma_into_then_from(self) {
    }

    fn into_u32(self) -> (bits: u32) {
        match self {
            LowPowerMode::WfiOrWfe => 0,
            LowPowerMode::Wfe => 1,
        }
    }

    fn from_u32(value: u32) -> (decoded: LowPowerMode) {
        if value == 0 {
            LowPowerMode::WfiOrWfe
        } else {
            LowPowerMode::Wfe
        }
    }

    fn is_known(value: u32) -> (known: bool) {
        value <= 1
    }
}

/// The direction of an access through the peripheral control register.
#[derive(Clone, Copy, Debug, PartialEq, Eq, Structural)]
pub enum Command {
    /// Read the settings of the peripheral.
    Read,
    /// Write the settings of the peripheral.
    Write,
}

impl RegisterField for Command {
    const MASK: u32 = 0x1;

    open spec fn spec_width() -> u32 {
        1
    }

    open spec fn distinct(self) -> bool {
        true
    }

    open spec fn spec_into_u32(self) -> u32 {
        match self {
            Command::Read => 0,
            Command::Write => 1,
        }
    }

    open spec fn spec_from_u32(value: u32) -> Command {
        if value == 0 {
            Command::Read
        } else {
            Command::Write
        }
    }

    open spec fn known(value: u32) -> bool {
        value <= 1
    }

    proof fn lemma_width() {
        field::lemma_fill_values();
    }

    proof fn lemma_into_then_from(self) {
    }

    fn into_u32(self) -> (bits: u32) {
        match self {
            Command::Read => 0,
            Command::Write => 1,
        }
    }

    fn from_u32(value: u32) -> (decoded: Command) {
        if value == 0 {
            Command::Read
        } else {
            Command::Write
        }
    }

    fn is_known(value: u32) -> (known: bool) {
        value <= 1
    }
}

/// What the master clock is divided by to give a peripheral clock.
#[derive(Clone, Copy, Debug, PartialEq, Eq, Structural)]
pub enum Divisor {
    /// Not divided.
    Div1,
    /// Divided by 2.
    Div2,
    /// Divided by 4.
    Div4,
}

impl RegisterField for Divisor {
    const MASK: u32 = 0x3;

    open spec fn spec_width() -> u32 {
        2
    }

    open spec fn distinct(self) -> bool {
        true
    }

    open spec fn spec_into_u32(self) -> u32 {
        match self {
            Divisor::Div1 => 0,
            Divisor::Div2 => 1,
            Divisor::Div4 => 2,
        }
    }

    open spec fn spec_from_u32(value: u32) -> Divisor {
        if value == 0 {
            Divisor::Div1
        } else if value == 1 {
            Divisor::Div2
        } else {
            Divisor::Div4
        }
    }

    open spec fn known(value: u32) -> bool {
        value <= 2
    }

    proof fn lemma_width() {
        field::lemma_fill_values();
    }

    proof fn lemma_into_then_from(self) {
    }

    fn into_u32(self) -> (bits: u32) {
        match self {
            Divisor::Div1 => 0,
            Divisor::Div2 => 1,
            Divisor::Div4 => 2,
        }
    }

    fn from_u32(value: u32) -> (decoded: Divisor) {
        if value == 0 {
            Divisor::Div1
        } else if value == 1 {
            Divisor::Div2
        } else {
            Divisor::Div4
        }
    }

    fn is_known(value: u32) -> (known: bool) {
        value <= 2
    }
}

/// What the input clock of PLL A is divided by.
#[derive(Clone, Copy, Debug, PartialEq, Eq, Structural)]
pub enum Divider {
    /// The divider's output is held at zero.
    Zero,
    /// The divider is bypassed.
    Bypass,
    /// The input is divided by the given number, 2 to 255.
    N(u8),
}

impl RegisterField for Divider {
    const MASK: u32 = 0xff;

    open spec fn spec_width() -> u32 {
        8
    }

    /// The patterns 0 and 1 stand for `Zero` and `Bypass`, so `N(0)` and
    /// `N(1)` are not told apart from them.
    open spec fn distinct(self) -> bool {
        match self {
            Divider::N(n) => n >= 2,
            _ => true,
        }
    }

    open spec fn spec_into_u32(self) -> u32 {
        match self {
            Divider::Zero => 0,
            Divider::Bypass => 1,
            Divider::N(n) => n as u32,
        }
    }

    open spec fn spec_from_u32(value: u32) -> Divider {
        if value & 0xff == 0 {
            Divider::Zero
        } else if value & 0xff == 1 {
            Divider::Bypass
        } else {
            Divider::N((value & 0xff) as u8)
        }
    }

    open spec fn known(value: u32) -> bool {
        true
    }

    proof fn lemma_width() {
        field::lemma_fill_values();
    }

    proof fn lemma_into_then_from(self) {
        field::lemma_fill_values();
        field::lemma_cut_keeps_small(self.spec_into_u32(), 8);
    }

    fn into_u32(self) -> (bits: u32) {
        match self {
            Divider::Zero => 0,
            Divider::Bypass => 1,
            Divider::N(n) => n as u32,
        }
    }

    fn from_u32(value: u32) -> (decoded: Divider) {
        proof {
            field::lemma_fill_values();
            field::lemma_cut_is_bounded(value, 8);
        }
        let low = value & 0xff;
        if low == 0 {
            Divider::Zero
        } else if low == 1 {
            Divider::Bypass
        } else {
            Divider::N(low as u8)
        }
    }

    fn is_known(value: u32) -> (known: bool) {
        true
    }
}

} // verus!
