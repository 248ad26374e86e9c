use sam3x_core::bus::{Load, Store};
use sam3x_core::sam3x8e::pmc::map::{
    MainOscillator, PeripheralClock0, PeripheralClock1, SystemClock, WriteProtectMode,
    WriteProtectStatus,
};
use sam3x_core::sam3x8e::pmc::{
    PmcConfigurablePeripheral, PowerManagementController, ProgrammableClockOutput, RegisterBlock,
    ADDRESS, WRITE_PROTECT_KEY,
};
use sam3x_core::sam3x8e::RegisterReader;

const BASE: u32 = 0x400E_0600;

#[test]
fn controller_registers_lie_at_datasheet_offsets() {
    let block = RegisterBlock::new(ADDRESS);
    assert_eq!(ADDRESS, BASE);
    assert_eq!(block.system_clock.set.address(), BASE);
    assert_eq!(block.system_clock.reset.address(), BASE + 0x4);
    assert_eq!(block.system_clock.status.address(), BASE + 0x8);
    assert_eq!(block.peripheral_clock_0.set.address(), BASE + 0x10);
    assert_eq!(block.peripheral_clock_0.reset.address(), BASE + 0x14);
    assert_eq!(block.peripheral_clock_0.status.address(), BASE + 0x18);
    assert_eq!(block.utmi_clock.address(), BASE + 0x1C);
    assert_eq!(block.main_oscillator.address(), BASE + 0x20);
    assert_eq!(block.clock_frequency.address(), BASE + 0x24);
    assert_eq!(block.plla.address(), BASE + 0x28);
    assert_eq!(block.master_clock.address(), BASE + 0x30);
    assert_eq!(block.usb_clock.address(), BASE + 0x38);
    assert_eq!(block.programmable_clock_0.address(), BASE + 0x40);
    assert_eq!(block.programmable_clock_1.address(), BASE + 0x44);
    assert_eq!(block.programmable_clock_2.address(), BASE + 0x48);
    assert_eq!(block.interrupt.set.address(), BASE + 0x60);
    assert_eq!(block.interrupt.reset.address(), BASE + 0x64);
    assert_eq!(block.status.address(), BASE + 0x68);
    assert_eq!(block.interrupt_mask.address(), BASE + 0x6C);
    assert_eq!(block.fast_startup_mode.address(), BASE + 0x70);
    assert_eq!(block.fast_startup_polarity.address(), BASE + 0x74);
    assert_eq!(block.fault_output_clear.address(), BASE + 0x78);
    assert_eq!(block.write_protect_mode.address(), BASE + 0xE4);
    assert_eq!(block.write_protect_status.address(), BASE + 0xE8);
    assert_eq!(block.peripheral_clock_1.set.address(), BASE + 0x100);
    assert_eq!(block.peripheral_clock_1.reset.address(), BASE + 0x104);
    assert_eq!(block.peripheral_clock_1.status.address(), BASE + 0x108);
    assert_eq!(block.peripheral_control.address(), BASE + 0x10C);
}

#[test]
fn gaps_fill_the_space_between_registers() {
    let block = RegisterBlock::new(0);
    assert_eq!(RegisterBlock::SIZE, 0x110);
    assert_eq!(block._r0.address(), 0x0C);
    assert_eq!(block._r1.address(), 0x2C);
    assert_eq!(block._r2.address(), 0x34);
    assert_eq!(block._r3.address(), 0x3C);
    assert_eq!(block._r4.address(), 0x4C);
    assert_eq!(block._r5.address(), 0x5C);
    assert_eq!(block._r6.address(), 0x7C);
    assert_eq!(block._r7.address(), 0x84);
    assert_eq!(block._r12.address(), 0xD4);
    assert_eq!(block._r13.address(), 0xEC);
    assert_eq!(block._r14.address(), 0xFC);
    assert_eq!(block.peripheral_control.address(), 0x10C);
}

#[test]
fn usb_otg_clock_is_bit_5() {
    let controller = PowerManagementController::new();
    let (set, reset) = controller.enable_usb_otg();
    assert_eq!(set, Store { address: BASE, word: 0x20 });
    assert_eq!(reset, Store { address: BASE + 4, word: 0 });
    let (set, reset) = controller.disable_usb_otg();
    assert_eq!(set, Store { address: BASE, word: 0 });
    assert_eq!(reset, Store { address: BASE + 4, word: 0x20 });
}

#[test]
fn programmable_clocks_are_bits_8_to_10() {
    let controller = PowerManagementController::new();
    let outputs = [
        (ProgrammableClockOutput::Pc0, 0x100),
        (ProgrammableClockOutput::Pc1, 0x200),
        (ProgrammableClockOutput::Pc2, 0x400),
    ];
    for (output, bit) in outputs {
        let (set, reset) = controller.enable_programmable_clock(output);
        assert_eq!(set, Store { address: BASE, word: bit });
        assert_eq!(reset, Store { address: BASE + 4, word: 0 });
        let (set, reset) = controller.disable_programmable_clock(output);
        assert_eq!(set, Store { address: BASE, word: 0 });
        assert_eq!(reset, Store { address: BASE + 4, word: bit });
    }
}

#[test]
fn peripheral_numbers() {
    assert_eq!(PmcConfigurablePeripheral::SmcSdramc.id(), 9);
    assert_eq!(PmcConfigurablePeripheral::PioA.id(), 11);
    assert_eq!(PmcConfigurablePeripheral::PioB.id(), 12);
    assert_eq!(PmcConfigurablePeripheral::PioF.id(), 16);
    assert_eq!(PmcConfigurablePeripheral::Usart0.id(), 17);
    assert_eq!(PmcConfigurablePeripheral::Hsmci.id(), 21);
    assert_eq!(PmcConfigurablePeripheral::Spi1.id(), 25);
    assert_eq!(PmcConfigurablePeripheral::Tc4.id(), 31);
    assert_eq!(PmcConfigurablePeripheral::Tc5.id(), 32);
    assert_eq!(PmcConfigurablePeripheral::Pwm.id(), 36);
    assert_eq!(PmcConfigurablePeripheral::Emac.id(), 42);
    assert_eq!(PmcConfigurablePeripheral::Can1.id(), 44);
}

#[test]
fn peripheral_clock_is_bit_of_peripheral_number() {
    let controller = PowerManagementController::new();
    assert_eq!(
        controller.enable_peripheral_clock(PmcConfigurablePeripheral::PioB),
        Some(Store { address: BASE + 0x10, word: 1 << 12 })
    );
    assert_eq!(
        controller.disable_peripheral_clock(PmcConfigurablePeripheral::PioB),
        Some(Store { address: BASE + 0x14, word: 1 << 12 })
    );
    assert_eq!(
        controller.enable_peripheral_clock(PmcConfigurablePeripheral::SmcSdramc),
        Some(Store { address: BASE + 0x10, word: 1 << 9 })
    );
    assert_eq!(
        controller.enable_peripheral_clock(PmcConfigurablePeripheral::Tc4),
        Some(Store { address: BASE + 0x10, word: 0x8000_0000 })
    );
    assert_eq!(
        controller.disable_peripheral_clock(PmcConfigurablePeripheral::Tc4),
        Some(Store { address: BASE + 0x14, word: 0x8000_0000 })
    );
}

#[test]
fn peripheral_of_second_bank_has_no_store() {
    let controller = PowerManagementController::new();
    assert_eq!(controller.enable_peripheral_clock(PmcConfigurablePeripheral::Tc5), None);
    assert_eq!(controller.disable_peripheral_clock(PmcConfigurablePeripheral::Tc5), None);
    assert_eq!(controller.enable_peripheral_clock(PmcConfigurablePeripheral::Can1), None);
    assert_eq!(controller.disable_peripheral_clock(PmcConfigurablePeripheral::Can1), None);
}

#[test]
fn write_protect_key_spells_pmc() {
    assert_eq!(WRITE_PROTECT_KEY, 0x504D43);
    assert_eq!(WRITE_PROTECT_KEY.to_be_bytes(), [0, b'P', b'M', b'C']);
}

#[test]
fn lock_stores_key_and_enable() {
    let (locked, store) = PowerManagementController::new().into_write_protected(0);
    assert_eq!(store, Store { address: BASE + 0xE4, word: 0x504D_4301 });
    assert_eq!(locked.get_write_protection(), Load { address: BASE + 0xE4 });
}

#[test]
fn unlock_stores_key_and_no_enable() {
    let (locked, _) = PowerManagementController::new().into_write_protected(0);
    assert_eq!(locked.get_write_protection(), Load { address: BASE + 0xE4 });
    let (unlocked, store) = locked.into_writable(1);
    assert_eq!(store, Store { address: BASE + 0xE4, word: 0x504D_4300 });
    let (set, _) = unlocked.enable_usb_otg();
    assert_eq!(set.word, 0x20);
}

#[test]
fn lock_and_unlock_keep_bits_outside_key_and_enable() {
    let (locked, store) = PowerManagementController::new().into_write_protected(0xffff_ffff);
    assert_eq!(store.word, 0x504D_43ff);
    let (_, store) = locked.into_writable(0xffff_ffff);
    assert_eq!(store.word, 0x504D_43fe);
}

#[test]
fn locking_again_stores_same_word() {
    let (locked, first) = PowerManagementController::new().into_write_protected(0);
    let (unlocked, lifted) = locked.into_writable(first.word & 0xff);
    let (locked, second) = unlocked.into_write_protected(first.word & 0xff);
    assert_eq!(first, second);
    let (locked_again, third) = locked.into_writable(0).0.into_write_protected(first.word);
    assert_eq!(third, first);
    let (_, lifted_again) = locked_again.into_writable(lifted.word);
    assert_eq!(lifted_again, lifted);
}

#[test]
fn register_maps_place_fields_at_datasheet_bits() {
    assert_eq!(SystemClock::usb_otg_clock().offset(), 5);
    assert_eq!(SystemClock::programmable_clock_0().offset(), 8);
    assert_eq!(SystemClock::programmable_clock_2().offset(), 10);
    assert_eq!(PeripheralClock0::pid2().offset(), 2);
    assert_eq!(PeripheralClock0::pid12().offset(), 12);
    assert_eq!(PeripheralClock0::pid31().offset(), 31);
    assert_eq!(PeripheralClock1::pid32().offset(), 0);
    assert_eq!(PeripheralClock1::pid44().offset(), 12);
    assert_eq!(MainOscillator::key().offset(), 16);
    assert_eq!(MainOscillator::clock_failure_detector().offset(), 25);
    assert_eq!(WriteProtectMode::enable().offset(), 0);
    assert_eq!(WriteProtectMode::key().offset(), 8);
    assert_eq!(WriteProtectStatus::violation().offset(), 0);
    assert_eq!(WriteProtectStatus::violation_source().offset(), 8);
}

#[test]
fn write_protect_status_reads_source_of_violation() {
    let reader = RegisterReader::<WriteProtectStatus>::from(0x0000_2001);
    assert!(reader.field(&WriteProtectStatus::violation()));
    assert_eq!(reader.field(&WriteProtectStatus::violation_source()), 0x20);
}
