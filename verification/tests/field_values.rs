use sam3x_core::sam3x8e::pmc::values::{
    Command, Divider, Divisor, LowPowerMode, MasterClockSource, OnChipRcFrequencyMHz, Oscillator,
    ProcessorClockPrescaler, ProgrammableClockPrescaler, ProgrammableClockSource,
    SlowClockOscillator, UsbInputClock,
};
use sam3x_core::sam3x8e::RegisterField;

fn check<V: RegisterField + Copy + PartialEq + core::fmt::Debug>(values: &[V], mask: u32) {
    assert_eq!(V::MASK, mask);
    for (pattern, value) in values.iter().enumerate() {
        let pattern = pattern as u32;
        assert_eq!(value.into_u32(), pattern);
        assert!(V::is_known(pattern));
        assert_eq!(V::from_u32(pattern), *value);
    }
    for pattern in values.len() as u32..=mask {
        assert!(!V::is_known(pattern));
    }
    assert!(!V::is_known(mask + 1));
    assert!(!V::is_known(u32::MAX));
}

#[test]
fn on_chip_rc_frequency_patterns() {
    check(
        &[
            OnChipRcFrequencyMHz::Four,
            OnChipRcFrequencyMHz::Eight,
            OnChipRcFrequencyMHz::Twelve,
        ],
        0b111,
    );
}

#[test]
fn oscillator_patterns() {
    check(&[Oscillator::OnChipRc, Oscillator::CrystalOscillator], 0b1);
}

#[test]
fn master_clock_source_patterns() {
    check(
        &[
            MasterClockSource::Slow,
            MasterClockSource::Main,
            MasterClockSource::Plla,
            MasterClockSource::Upll,
        ],
        0b11,
    );
}

#[test]
fn processor_clock_prescaler_patterns() {
    check(
        &[
            ProcessorClockPrescaler::Normal,
            ProcessorClockPrescaler::Div2,
            ProcessorClockPrescaler::Div4,
            ProcessorClockPrescaler::Div8,
            ProcessorClockPrescaler::Div16,
            ProcessorClockPrescaler::Div32,
            ProcessorClockPrescaler::Div64,
            ProcessorClockPrescaler::Div3,
        ],
        0b111,
    );
}

#[test]
fn usb_input_clock_patterns() {
    check(&[UsbInputClock::Plla, UsbInputClock::Pllb], 0b1);
}

#[test]
fn programmable_clock_source_patterns() {
    check(
        &[
            ProgrammableClockSource::Slow,
            ProgrammableClockSource::Main,
            ProgrammableClockSource::Plla,
            ProgrammableClockSource::Upll,
            ProgrammableClockSource::Master,
        ],
        0b111,
    );
}

#[test]
fn programmable_clock_prescaler_patterns() {
    check(
        &[
            ProgrammableClockPrescaler::Normal,
            ProgrammableClockPrescaler::Div2,
            ProgrammableClockPrescaler::Div4,
            ProgrammableClockPrescaler::Div8,
            ProgrammableClockPrescaler::Div16,
            ProgrammableClockPrescaler::Div32,
            ProgrammableClockPrescaler::Div64,
        ],
        0b111,
    );
}

#[test]
fn slow_clock_oscillator_patterns() {
    check(&[SlowClockOscillator::InternalRc, SlowClockOscillator::External32kHz], 0b1);
}

#[test]
fn low_power_mode_patterns() {
    check(&[LowPowerMode::WfiOrWfe, LowPowerMode::Wfe], 0b1);
}

#[test]
fn command_patterns() {
    check(&[Command::Read, Command::Write], 0b1);
}

#[test]
fn divisor_patterns() {
    check(&[Divisor::Div1, Divisor::Div2, Divisor::Div4], 0b11);
}

#[test]
fn divider_patterns() {
    assert_eq!(<Divider as RegisterField>::MASK, 0xff);
    assert_eq!(Divider::Zero.into_u32(), 0);
    assert_eq!(Divider::Bypass.into_u32(), 1);
    assert_eq!(Divider::N(2).into_u32(), 2);
    assert_eq!(Divider::N(255).into_u32(), 255);
    assert_eq!(Divider::from_u32(0), Divider::Zero);
    assert_eq!(Divider::from_u32(1), Divider::Bypass);
    for n in 2..=255u32 {
        assert_eq!(Divider::from_u32(n), Divider::N(n as u8));
        assert_eq!(Divider::from_u32(n).into_u32(), n);
    }
    assert!(Divider::is_known(0) && Divider::is_known(255) && Divider::is_known(256));
}

#[test]
fn divider_of_zero_or_one_reads_back_as_named_value() {
    assert_eq!(Divider::from_u32(Divider::N(0).into_u32()), Divider::Zero);
    assert_eq!(Divider::from_u32(Divider::N(1).into_u32()), Divider::Bypass);
    assert_eq!(Divider::from_u32(0x100), Divider::Zero);
    assert_eq!(Divider::from_u32(0x101), Divider::Bypass);
    assert_eq!(Divider::from_u32(0x1ff), Divider::N(255));
}
