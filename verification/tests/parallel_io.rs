use sam3x_core::areas::pio::{
    pio_a, pio_b, pio_c, pio_d, InputFilter, InputFilterMode, InterruptRegister, IoLine, Pio,
};
use sam3x_core::areas::RegisterAreas;
use sam3x_core::bus::{Load, Store};

const LINES: [IoLine; 32] = [
    IoLine::L0,
    IoLine::L1,
    IoLine::L2,
    IoLine::L3,
    IoLine::L4,
    IoLine::L5,
    IoLine::L6,
    IoLine::L7,
    IoLine::L8,
    IoLine::L9,
    IoLine::L10,
    IoLine::L11,
    IoLine::L12,
    IoLine::L13,
    IoLine::L14,
    IoLine::L15,
    IoLine::L16,
    IoLine::L17,
    IoLine::L18,
    IoLine::L19,
    IoLine::L20,
    IoLine::L21,
    IoLine::L22,
    IoLine::L23,
    IoLine::L24,
    IoLine::L25,
    IoLine::L26,
    IoLine::L27,
    IoLine::L28,
    IoLine::L29,
    IoLine::L30,
    IoLine::L31,
];

#[test]
fn line_n_is_bit_n() {
    for (index, line) in LINES.iter().enumerate() {
        assert_eq!(line.offset(), index as u32);
        assert_eq!(line.size(), 1);
        assert_eq!(line.mask(), 1 << index);
        assert_eq!(line.insert(1), 1 << index);
        assert_eq!(line.insert(0), 0);
        assert_eq!(line.extract(1 << index), 1);
        assert_eq!(line.extract(!(1 << index)), 0);
    }
}

#[test]
fn controllers_lie_at_datasheet_addresses() {
    assert_eq!(pio_a().pio.set.address(), 0x400E_0E00);
    assert_eq!(pio_b().pio.set.address(), 0x400E_1000);
    assert_eq!(pio_c().pio.set.address(), 0x400E_1200);
    assert_eq!(pio_d().pio.set.address(), 0x400E_1400);
}

#[test]
fn io_controller_registers_lie_at_datasheet_offsets() {
    let base = 0x400E_1000;
    let pio = Pio::new(base);
    assert_eq!(pio.pio.set.address(), base);
    assert_eq!(pio.pio.reset.address(), base + 0x04);
    assert_eq!(pio.pio.status.address(), base + 0x08);
    assert_eq!(pio.output.set.address(), base + 0x10);
    assert_eq!(pio.output.status.address(), base + 0x18);
    assert_eq!(pio.input_filter.active.set.address(), base + 0x20);
    assert_eq!(pio.input_filter.active.status.address(), base + 0x28);
    assert_eq!(pio.output_data.set.address(), base + 0x30);
    assert_eq!(pio.output_data.reset.address(), base + 0x34);
    assert_eq!(pio.output_data.status.address(), base + 0x38);
    assert_eq!(pio.pin_data.address(), base + 0x3C);
    assert_eq!(pio.interrupt.enable.address(), base + 0x40);
    assert_eq!(pio.interrupt.disable.address(), base + 0x44);
    assert_eq!(pio.interrupt.mask.address(), base + 0x48);
    assert_eq!(pio.interrupt.status.address(), base + 0x4C);
    assert_eq!(pio.multi_driver.set.address(), base + 0x50);
    assert_eq!(pio.pull_up_disable.set.address(), base + 0x60);
    assert_eq!(pio.peripheral_ab_select.address(), base + 0x70);
    assert_eq!(pio.input_filter.mode.set.address(), base + 0x80);
    assert_eq!(pio.input_filter.mode.status.address(), base + 0x88);
    assert_eq!(pio.input_filter.slow_clock_divider.address(), base + 0x8C);
    assert_eq!(pio.output_write.set.address(), base + 0xA0);
    assert_eq!(pio.output_write.status.address(), base + 0xA8);
    assert_eq!(Pio::SIZE, 0xAC);
}

#[test]
fn led_line_is_driven_through_set_and_reset() {
    let pio = pio_b();
    assert_eq!(
        pio.output_data.set_area(IoLine::L27, 1),
        Store { address: 0x400E_1030, word: 1 << 27 }
    );
    assert_eq!(
        pio.output_data.reset_area(IoLine::L27, 1),
        Store { address: 0x400E_1034, word: 1 << 27 }
    );
    assert_eq!(pio.pin_data.read(), Load { address: 0x400E_103C });
    assert_eq!(pio.pin_data.read_area(IoLine::L27, 1 << 27), 1);
}

#[test]
fn interrupt_registers_lie_one_after_the_other() {
    let registers = InterruptRegister::new(0x40);
    assert_eq!(registers.enable.address(), 0x40);
    assert_eq!(registers.disable.address(), 0x44);
    assert_eq!(registers.mask.address(), 0x48);
    assert_eq!(registers.status.address(), 0x4C);
}

#[test]
fn interrupt_set_enabled_enables_ones_and_disables_zeros() {
    let registers = InterruptRegister::new(0x40);
    let (enable, disable) = registers.set_enabled(0x0000_ff00);
    assert_eq!(enable, Store { address: 0x40, word: 0x0000_ff00 });
    assert_eq!(disable, Store { address: 0x44, word: 0xffff_00ff });
}

#[test]
fn interrupt_pins_are_enabled_and_disabled_by_their_bit() {
    let registers = InterruptRegister::new(0x40);
    assert_eq!(registers.enable_pins(0x11), Store { address: 0x40, word: 0x11 });
    assert_eq!(registers.disable_pins(0x22), Store { address: 0x44, word: 0x22 });
    assert_eq!(registers.enable_pin(IoLine::L3), Store { address: 0x40, word: 8 });
    assert_eq!(registers.disable_pin(IoLine::L3), Store { address: 0x44, word: 8 });
    assert_eq!(registers.enable_pin(IoLine::L31), Store { address: 0x40, word: 0x8000_0000 });
    assert_eq!(registers.disable_pin(IoLine::L0), Store { address: 0x44, word: 1 });
}

#[test]
fn interrupt_state_is_loaded_from_mask_and_status() {
    let registers = InterruptRegister::new(0x40);
    assert_eq!(registers.get_enabled(), Load { address: 0x48 });
    assert_eq!(registers.get_changed(), Load { address: 0x4C });
    assert!(registers.get_enabled_pin(IoLine::L4, 0x10));
    assert!(!registers.get_enabled_pin(IoLine::L5, 0x10));
    assert!(registers.get_changed_pin(IoLine::L31, 0x8000_0000));
    assert!(!registers.get_changed_pin(IoLine::L31, 0x7fff_ffff));
}

#[test]
fn input_filter_registers_lie_at_their_offsets() {
    let filter = InputFilter::new(0x1000);
    assert_eq!(filter.active.set.address(), 0x1020);
    assert_eq!(filter.active.reset.address(), 0x1024);
    assert_eq!(filter.active.status.address(), 0x1028);
    assert_eq!(filter.mode.set.address(), 0x1080);
    assert_eq!(filter.mode.reset.address(), 0x1084);
    assert_eq!(filter.mode.status.address(), 0x1088);
    assert_eq!(filter.slow_clock_divider.address(), 0x108C);
}

#[test]
fn input_filter_is_started_and_stopped() {
    let filter = InputFilter::new(0x1000);
    let (set, reset) = filter.set_enabled(0x0f);
    assert_eq!(set, Store { address: 0x1020, word: 0x0f });
    assert_eq!(reset, Store { address: 0x1024, word: 0xffff_fff0 });
    assert_eq!(filter.enable_pins(3), Store { address: 0x1020, word: 3 });
    assert_eq!(filter.disable_pins(5), Store { address: 0x1024, word: 5 });
    assert_eq!(filter.enable_pin(IoLine::L9), Store { address: 0x1020, word: 0x200 });
    assert_eq!(filter.disable_pin(IoLine::L9), Store { address: 0x1024, word: 0x200 });
    assert_eq!(filter.get_enabled(), Load { address: 0x1028 });
    assert!(filter.get_enabled_pin(IoLine::L9, 0x200));
    assert!(!filter.get_enabled_pin(IoLine::L8, 0x200));
}

#[test]
fn input_filter_mode_is_one_bit_per_line() {
    let filter = InputFilter::new(0x1000);
    let (set, reset) = filter.set_pin_mode(IoLine::L6, InputFilterMode::Debounce);
    assert_eq!(set, Store { address: 0x1080, word: 0x40 });
    assert_eq!(reset, Store { address: 0x1084, word: 0 });
    let (set, reset) = filter.set_pin_mode(IoLine::L6, InputFilterMode::Glitch);
    assert_eq!(set, Store { address: 0x1080, word: 0 });
    assert_eq!(reset, Store { address: 0x1084, word: 0x40 });
    assert_eq!(filter.get_pin_modes(), Load { address: 0x1088 });
    assert_eq!(filter.get_pin_mode(IoLine::L6, 0x40), InputFilterMode::Debounce);
    assert_eq!(filter.get_pin_mode(IoLine::L6, !0x40), InputFilterMode::Glitch);
}

#[test]
fn input_filter_mode_from_flag() {
    assert_eq!(InputFilterMode::from(true), InputFilterMode::Debounce);
    assert_eq!(InputFilterMode::from(false), InputFilterMode::Glitch);
    assert_eq!(InputFilterMode::Glitch.bit(), 0);
    assert_eq!(InputFilterMode::Debounce.bit(), 1);
}

#[test]
fn slow_clock_divider_is_whole_word() {
    let filter = InputFilter::new(0x1000);
    assert_eq!(filter.set_slow_clock_divider(0x3fff), Store { address: 0x108C, word: 0x3fff });
    assert_eq!(filter.get_slow_clock_divider(), Load { address: 0x108C });
}
