use sam3x_core::bus::{Load, Store};
use sam3x_core::sam3x8e::rtt::{RealTimeTimer, RegisterBlock, TimerStatus};
use sam3x_core::sam3x8e::{peripherals, Peripherals};

const MODE: u32 = 0x400E_1A30;
const ALARM: u32 = 0x400E_1A34;
const VALUE: u32 = 0x400E_1A38;
const STATUS: u32 = 0x400E_1A3C;

#[test]
fn timer_registers_lie_at_datasheet_addresses() {
    let timer = RealTimeTimer::new();
    let block = timer.registers();
    assert_eq!(RealTimeTimer::ADDRESS, MODE);
    assert_eq!(block.mode.address(), MODE);
    assert_eq!(block.alarm.address(), ALARM);
    assert_eq!(block.value.address(), VALUE);
    assert_eq!(block.status.address(), STATUS);
}

#[test]
fn timer_block_follows_its_base() {
    let block = RegisterBlock::new(0x1000);
    assert_eq!(RegisterBlock::SIZE, 0x10);
    assert_eq!(block.mode.address(), 0x1000);
    assert_eq!(block.alarm.address(), 0x1004);
    assert_eq!(block.value.address(), 0x1008);
    assert_eq!(block.status.address(), 0x100C);
}

#[test]
fn one_millisecond_prescaler_is_0x20() {
    assert_eq!(RealTimeTimer::APPROX_1MS_PRESCALER, 0x20);
}

#[test]
fn set_prescaler_replaces_low_half_of_mode() {
    let timer = RealTimeTimer::new();
    assert_eq!(timer.set_prescaler(0, 0x20), Store { address: MODE, word: 0x20 });
    assert_eq!(
        timer.set_prescaler(0x0007_8000, 0x0020),
        Store { address: MODE, word: 0x0007_0020 }
    );
    assert_eq!(
        timer.set_prescaler(0xffff_ffff, 0),
        Store { address: MODE, word: 0xffff_0000 }
    );
}

#[test]
fn alarm_interrupt_is_bit_16_of_mode() {
    let timer = RealTimeTimer::new();
    assert_eq!(timer.enable_alarm(0x20), Store { address: MODE, word: 0x0001_0020 });
    assert_eq!(timer.enable_alarm(0x0001_0020), Store { address: MODE, word: 0x0001_0020 });
    assert_eq!(timer.disable_alarm(0x0007_0020), Store { address: MODE, word: 0x0006_0020 });
    assert_eq!(timer.disable_alarm(0x20), Store { address: MODE, word: 0x20 });
}

#[test]
fn increment_interrupt_is_bit_17_of_mode() {
    let timer = RealTimeTimer::new();
    assert_eq!(
        timer.enable_increment_interrupt(0x20),
        Store { address: MODE, word: 0x0002_0020 }
    );
    assert_eq!(
        timer.disable_increment_interrupt(0x0007_0020),
        Store { address: MODE, word: 0x0005_0020 }
    );
}

#[test]
fn restart_is_bit_18_of_mode() {
    let timer = RealTimeTimer::new();
    assert_eq!(timer.restart(0x20), Store { address: MODE, word: 0x0004_0020 });
    assert_eq!(timer.restart(0xffff_ffff), Store { address: MODE, word: 0xffff_ffff });
}

#[test]
fn set_alarm_stores_whole_word() {
    let timer = RealTimeTimer::new();
    assert_eq!(timer.set_alarm(0xdead_beef), Store { address: ALARM, word: 0xdead_beef });
    assert_eq!(timer.set_alarm(0), Store { address: ALARM, word: 0 });
}

#[test]
fn time_is_loaded_from_value_register() {
    assert_eq!(RealTimeTimer::new().get_time(), Load { address: VALUE });
}

#[test]
fn status_shows_alarm_and_increment() {
    let timer = RealTimeTimer::new();
    assert_eq!(timer.get_status(0), TimerStatus { alarm: false, timer_increment: false });
    assert_eq!(timer.get_status(1), TimerStatus { alarm: true, timer_increment: false });
    assert_eq!(timer.get_status(2), TimerStatus { alarm: false, timer_increment: true });
    assert_eq!(timer.get_status(3), TimerStatus { alarm: true, timer_increment: true });
    assert_eq!(
        timer.get_status(0xffff_fffc),
        TimerStatus { alarm: false, timer_increment: false }
    );
}

#[test]
fn timer_can_be_taken_once() {
    let mut chip: Peripherals = peripherals();
    assert!(chip.has_rtt());
    let timer = chip.rtt();
    assert_eq!(timer.registers().mode.address(), MODE);
    assert!(!chip.has_rtt());
}
