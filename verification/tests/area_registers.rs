use sam3x_core::areas::pmc::{
    pmc, ClockFrequencyAreas, MainOscillatorAreas, PeripheralClockAreas, PllaAreas, Pmc,
    SystemClockAreas, UtmiClockAreas,
};
use sam3x_core::areas::rtt::{rtt, ModeAreas, Rtt, StatusAreas};
use sam3x_core::areas::{
    Peripherals, ReadRegister, ReadWriteRegister, RegisterAreas, SetResetStatusRegister,
    WriteRegister,
};
use sam3x_core::bus::{Load, Store};

#[test]
fn whole_word_is_one_area() {
    let word: u32 = 0;
    assert_eq!(word.offset(), 0);
    assert_eq!(word.size(), 32);
    assert_eq!(word.mask(), 0xffff_ffff);
    assert_eq!(word.extract(0x1234_5678), 0x1234_5678);
    assert_eq!(word.insert(0x1234_5678), 0x1234_5678);
}

#[test]
fn mode_areas_lie_at_datasheet_bits() {
    assert_eq!((ModeAreas::Prescaler.offset(), ModeAreas::Prescaler.size()), (0, 16));
    assert_eq!((ModeAreas::AlarmInterrupt.offset(), ModeAreas::AlarmInterrupt.size()), (16, 1));
    assert_eq!(
        (ModeAreas::IncrementInterrupt.offset(), ModeAreas::IncrementInterrupt.size()),
        (17, 1)
    );
    assert_eq!((ModeAreas::TimerRestart.offset(), ModeAreas::TimerRestart.size()), (18, 1));
    assert_eq!((StatusAreas::AlarmStatus.offset(), StatusAreas::AlarmStatus.size()), (0, 1));
    assert_eq!((StatusAreas::Increment.offset(), StatusAreas::Increment.size()), (1, 1));
}

#[test]
fn area_mask_insert_extract() {
    assert_eq!(ModeAreas::Prescaler.mask(), 0x0000_ffff);
    assert_eq!(ModeAreas::TimerRestart.mask(), 0x0004_0000);
    assert_eq!(ModeAreas::Prescaler.insert(0x1_0020), 0x0020);
    assert_eq!(ModeAreas::AlarmInterrupt.insert(1), 0x0001_0000);
    assert_eq!(ModeAreas::AlarmInterrupt.insert(2), 0);
    assert_eq!(ModeAreas::AlarmInterrupt.insert(3), 0x0001_0000);
    assert_eq!(ModeAreas::Prescaler.extract(0x0005_8020), 0x8020);
    assert_eq!(ModeAreas::TimerRestart.extract(0x0005_8020), 1);
    assert_eq!(ModeAreas::IncrementInterrupt.extract(0x0005_8020), 0);
    assert_eq!(UtmiClockAreas::UtmiPllStartUpTime.insert(0xab), 0x00b0_0000);
    assert_eq!(UtmiClockAreas::UtmiPllStartUpTime.extract(0x12a4_5678), 0xa);
}

#[test]
fn extract_after_insert_gives_value_back() {
    let areas = [
        MainOscillatorAreas::MainCrystalOscillator,
        MainOscillatorAreas::MainCrystalOscillatorBypass,
        MainOscillatorAreas::MainOnChipRcOscillator,
        MainOscillatorAreas::MainOnChipRcOscillatorFrequency,
        MainOscillatorAreas::MainCrystalOscillatorStartUpTime,
        MainOscillatorAreas::Key,
        MainOscillatorAreas::MainOscillatorSelection,
        MainOscillatorAreas::ClockFailureDetector,
    ];
    let mut all = 0;
    for area in areas {
        let top = area.mask() >> area.offset();
        for value in 0..=top {
            assert_eq!(area.extract(area.insert(value)), value);
        }
        assert_eq!(area.mask().count_ones(), area.size());
        assert_eq!(area.mask().trailing_zeros(), area.offset());
        assert_eq!(all & area.mask(), 0);
        all |= area.mask();
    }
    assert_eq!(all, 0x03ff_ff7b);
}

#[test]
fn clock_areas_lie_at_datasheet_bits() {
    assert_eq!(SystemClockAreas::EnableUsbOtgClock.mask(), 1 << 5);
    assert_eq!(SystemClockAreas::ProgrammableClock1.mask(), 1 << 8);
    assert_eq!(SystemClockAreas::ProgrammableClock2.mask(), 1 << 9);
    assert_eq!(SystemClockAreas::ProgrammableClock3.mask(), 1 << 10);
    assert_eq!(PeripheralClockAreas::PeripheralClock2.mask(), 1 << 2);
    assert_eq!(PeripheralClockAreas::PeripheralClock12.mask(), 1 << 12);
    assert_eq!(PeripheralClockAreas::PeripheralClock31.mask(), 1 << 31);
    assert_eq!(ClockFrequencyAreas::ClockFrequency.mask(), 0xffff);
    assert_eq!(ClockFrequencyAreas::ClockReady.mask(), 1 << 16);
    assert_eq!(PllaAreas::Divider.mask(), 0xff);
    assert_eq!(PllaAreas::PllaCounter.mask(), 0x3f00);
    assert_eq!(PllaAreas::PllaMultiplier.mask(), 0x07ff_0000);
    assert_eq!(PllaAreas::One.mask(), 1 << 29);
}

#[test]
fn read_register_loads_and_extracts() {
    let register = ReadRegister::<StatusAreas>::new(0x400E_1A3C);
    assert_eq!(register.address(), 0x400E_1A3C);
    assert_eq!(register.read(), Load { address: 0x400E_1A3C });
    assert_eq!(register.read_area(StatusAreas::AlarmStatus, 0b10), 0);
    assert_eq!(register.read_area(StatusAreas::Increment, 0b10), 1);
}

#[test]
fn write_register_stores_area_with_rest_zero() {
    let register = WriteRegister::<ModeAreas>::new(0x40);
    assert_eq!(register.address(), 0x40);
    assert_eq!(register.write(0xffff_ffff), Store { address: 0x40, word: 0xffff_ffff });
    assert_eq!(
        register.write_area(ModeAreas::Prescaler, 0x20),
        Store { address: 0x40, word: 0x20 }
    );
    assert_eq!(
        register.write_area(ModeAreas::TimerRestart, 1),
        Store { address: 0x40, word: 0x0004_0000 }
    );
}

#[test]
fn read_write_register_merges_area_into_loaded_word() {
    let register = ReadWriteRegister::<ModeAreas>::new(0x80);
    assert_eq!(register.address(), 0x80);
    assert_eq!(register.read(), Load { address: 0x80 });
    assert_eq!(register.read_area(ModeAreas::Prescaler, 0x0007_0020), 0x20);
    assert_eq!(register.write(5), Store { address: 0x80, word: 5 });
    assert_eq!(
        register.write_area(ModeAreas::Prescaler, 0x0007_ffff, 0x20),
        Store { address: 0x80, word: 0x0007_0020 }
    );
    assert_eq!(
        register.write_area(ModeAreas::AlarmInterrupt, 0x0007_ffff, 0),
        Store { address: 0x80, word: 0x0006_ffff }
    );
    assert_eq!(
        register.write_area(ModeAreas::AlarmInterrupt, 0, 0xffff_ffff),
        Store { address: 0x80, word: 0x0001_0000 }
    );
}

#[test]
fn set_reset_status_register_lies_at_fixed_offsets() {
    let group = SetResetStatusRegister::<ModeAreas>::new(0x100);
    assert_eq!(group.set.address(), 0x100);
    assert_eq!(group.reset.address(), 0x104);
    assert_eq!(group.status.address(), 0x108);
    assert_eq!(group.read(), Load { address: 0x108 });
    assert_eq!(group.read_area(ModeAreas::Prescaler, 0xabcd_1234), 0x1234);
}

#[test]
fn set_and_reset_stores_go_to_their_registers() {
    let group = SetResetStatusRegister::<ModeAreas>::new(0x100);
    assert_eq!(group.set_bits(0x0f), Store { address: 0x100, word: 0x0f });
    assert_eq!(group.reset_bits(0xf0), Store { address: 0x104, word: 0xf0 });
    assert_eq!(
        group.set_area(ModeAreas::AlarmInterrupt, 1),
        Store { address: 0x100, word: 0x0001_0000 }
    );
    assert_eq!(
        group.reset_area(ModeAreas::AlarmInterrupt, 1),
        Store { address: 0x104, word: 0x0001_0000 }
    );
}

#[test]
fn write_of_word_sets_ones_and_resets_zeros() {
    let group = SetResetStatusRegister::<ModeAreas>::new(0x100);
    let (set, reset) = group.write(0x0f0f_0f0f);
    assert_eq!(set, Store { address: 0x100, word: 0x0f0f_0f0f });
    assert_eq!(reset, Store { address: 0x104, word: 0xf0f0_f0f0 });
}

#[test]
fn write_area_issues_set_of_encoded_and_reset_of_rest_of_mask() {
    let group = SetResetStatusRegister::<ModeAreas>::new(0x100);
    for value in [0u32, 1, 0x00ff, 0x8001, 0xffff, 0x1_2345] {
        let encoded = ModeAreas::Prescaler.insert(value);
        let mask = ModeAreas::Prescaler.mask();
        let (set, reset) = group.write_area(ModeAreas::Prescaler, value);
        assert_eq!(set, Store { address: 0x100, word: encoded & mask });
        assert_eq!(reset, Store { address: 0x104, word: mask & !encoded });
    }
    let (set, reset) = group.write_area(ModeAreas::Prescaler, 0x00f0);
    assert_eq!(set.word, 0x0000_00f0);
    assert_eq!(reset.word, 0x0000_ff0f);
    let (set, reset) = group.write_area(ModeAreas::TimerRestart, 0);
    assert_eq!(set.word, 0);
    assert_eq!(reset.word, 0x0004_0000);
    let (set, reset) = group.write_area(ModeAreas::TimerRestart, 1);
    assert_eq!(set.word, 0x0004_0000);
    assert_eq!(reset.word, 0);
}

#[test]
fn timer_areas_lie_at_datasheet_addresses() {
    let timer = Rtt::new();
    assert_eq!(Rtt::ADDRESS, 0x400E_1A30);
    assert_eq!(timer.mode.address(), 0x400E_1A30);
    assert_eq!(timer.alarm.address(), 0x400E_1A34);
    assert_eq!(timer.value.address(), 0x400E_1A38);
    assert_eq!(timer.status.address(), 0x400E_1A3C);
    assert_eq!(rtt().status.address(), 0x400E_1A3C);
}

#[test]
fn clock_controller_areas_lie_at_datasheet_addresses() {
    let controller = Pmc::new();
    assert_eq!(Pmc::ADDRESS, 0x400E_0600);
    assert_eq!(controller.system_clock.set.address(), 0x400E_0600);
    assert_eq!(controller.system_clock.reset.address(), 0x400E_0604);
    assert_eq!(controller.system_clock.status.address(), 0x400E_0608);
    assert_eq!(controller.peripheral_clock_0.set.address(), 0x400E_0610);
    assert_eq!(controller.peripheral_clock_0.reset.address(), 0x400E_0614);
    assert_eq!(controller.peripheral_clock_0.status.address(), 0x400E_0618);
    assert_eq!(controller.utmi_clock_configuration.address(), 0x400E_061C);
    assert_eq!(controller.main_oscillator.address(), 0x400E_0620);
    assert_eq!(controller.main_clock_frequency.address(), 0x400E_0624);
    assert_eq!(controller.plla.address(), 0x400E_0628);
    assert_eq!(pmc().plla.address(), 0x400E_0628);
}

#[test]
fn peripheral_clock_enable_through_areas() {
    let controller = pmc();
    assert_eq!(
        controller.peripheral_clock_0.set_area(PeripheralClockAreas::PeripheralClock12, 1),
        Store { address: 0x400E_0610, word: 0x1000 }
    );
    assert_eq!(
        controller.peripheral_clock_0.reset_area(PeripheralClockAreas::PeripheralClock12, 1),
        Store { address: 0x400E_0614, word: 0x1000 }
    );
}

#[test]
fn each_peripheral_is_taken_once() {
    let mut chip = Peripherals::new();
    assert_eq!(chip.available(), [true; 6]);
    assert_eq!(chip.rtt().mode.address(), 0x400E_1A30);
    assert_eq!(chip.available(), [false, true, true, true, true, true]);
    assert_eq!(chip.pmc().system_clock.set.address(), 0x400E_0600);
    assert_eq!(chip.available(), [false, false, true, true, true, true]);
    assert_eq!(chip.pio_c().pio.set.address(), 0x400E_1200);
    assert_eq!(chip.available(), [false, false, true, true, false, true]);
    assert_eq!(chip.pio_a().pio.set.address(), 0x400E_0E00);
    assert_eq!(chip.pio_b().pio.set.address(), 0x400E_1000);
    assert_eq!(chip.pio_d().pio.set.address(), 0x400E_1400);
    assert_eq!(chip.available(), [false; 6]);
}

#[test]
fn set_then_reset_replaces_field_in_status() {
    let group = SetResetStatusRegister::<ModeAreas>::new(0x100);
    let field = ReadWriteRegister::<ModeAreas>::new(0x108);
    for status in [0u32, 0xffff_ffff, 0x0005_8020, 0xa5a5_5a5a] {
        for value in [0u32, 1, 0x20, 0xffff, 0x1_0001] {
            let (set, reset) = group.write_area(ModeAreas::Prescaler, value);
            let shown = (status | set.word) & !reset.word;
            assert_eq!(shown, field.write_area(ModeAreas::Prescaler, status, value).word);
            assert_eq!(group.read_area(ModeAreas::Prescaler, shown), value & 0xffff);
            assert_eq!(shown & 0xffff_0000, status & 0xffff_0000);
        }
    }
}
