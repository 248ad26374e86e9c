//! The parallel I/O controllers: 32 lines each, one bit per line in every
//! register.

use super::{ReadRegister, ReadWriteRegister, RegisterAreas, SetResetStatusRegister, WriteRegister};
use crate::bus::{Load, Store};
use crate::field;
use vstd::prelude::*;
use vstd::std_specs::convert::FromSpecImpl;

verus! {

/// One of the 32 lines of a controller. Line N is bit N of every register.
#[derive(Clone, Copy, Debug, PartialEq, Eq, Structural)]
pub enum IoLine {
    L0,
    L1,
    L2,
    L3,
    L4,
    L5,
    L6,
    L7,
    L8,
    L9,
    L10,
    L11,
    L12,
    L13,
    L14,
    L15,
    L16,
    L17,
    L18,
    L19,
    L20,
    L21,
    L22,
    L23,
    L24,
    L25,
    L26,
    L27,
    L28,
    L29,
    L30,
    L31,
}

impl RegisterAreas for IoLine {
    open spec fn spec_offset(&self) -> u32 {
        match self {
            IoLine::L0 => 0,
            IoLine::L1 => 1,
            IoLine::L2 => 2,
            IoLine::L3 => 3,
            IoLine::L4 => 4,
            IoLine::L5 => 5,
            IoLine::L6 => 6,
            IoLine::L7 => 7,
            IoLine::L8 => 8,
            IoLine::L9 => 9,
            IoLine::L10 => 10,
            IoLine::L11 => 11,
            IoLine::L12 => 12,
            IoLine::L13 => 13,
            IoLine::L14 => 14,
            IoLine::L15 => 15,
            IoLine::L16 => 16,
            IoLine::L17 => 17,
            IoLine::L18 => 18,
            IoLine::L19 => 19,
            IoLine::L20 => 20,
            IoLine::L21 => 21,
            IoLine::L22 => 22,
            IoLine::L23 => 23,
            IoLine::L24 => 24,
            IoLine::L25 => 25,
            IoLine::L26 => 26,
            IoLine::L27 => 27,
            IoLine::L28 => 28,
            IoLine::L29 => 29,
            IoLine::L30 => 30,
            IoLine::L31 => 31,
        }
    }

    open spec fn spec_size(&self) -> u32 {
        1
    }

    proof fn lemma_fits(&self) {
    }

    fn offset(&self) -> (offset: u32) {
        match self {
            IoLine::L0 => 0,
            IoLine::L1 => 1,
            IoLine::L2 => 2,
            IoLine::L3 => 3,
            IoLine::L4 => 4,
            IoLine::L5 => 5,
            IoLine::L6 => 6,
            IoLine::L7 => 7,
            IoLine::L8 => 8,
            IoLine::L9 => 9,
            IoLine::L10 => 10,
            IoLine::L11 => 11,
            IoLine::L12 => 12,
            IoLine::L13 => 13,
            IoLine::L14 => 14,
            IoLine::L15 => 15,
            IoLine::L16 => 16,
            IoLine::L17 => 17,
            IoLine::L18 => 18,
            IoLine::L19 => 19,
            IoLine::L20 => 20,
            IoLine::L21 => 21,
            IoLine::L22 => 22,
            IoLine::L23 => 23,
            IoLine::L24 => 24,
            IoLine::L25 => 25,
            IoLine::L26 => 26,
            IoLine::L27 => 27,
            IoLine::L28 => 28,
            IoLine::L29 => 29,
            IoLine::L30 => 30,
            IoLine::L31 => 31,
        }
    }

    fn size(&self) -> (size: u32) {
        1
    }
}

impl IoLine {
    /// Two different lines share no bit.
    pub proof fn lemma_areas_apart(one: IoLine, other: IoLine)
        requires
            one != other,
        ensures
            field::spec_mask(one.spec_offset(), 1) & field::spec_mask(other.spec_offset(), 1) == 0,
    {
        field::lemma_apart_masks(one.spec_offset(), 1, other.spec_offset(), 1);
    }
}

/// The interrupt registers of a controller: a store to the first enables
/// the interrupts of lines, a store to the second disables them, the third
/// shows which are enabled, and the fourth shows which lines have changed
/// since it was last read.
pub struct InterruptRegister {
    pub enable: WriteRegister<IoLine>,
    pub disable: WriteRegister<IoLine>,
    pub mask: ReadRegister<IoLine>,
    pub status: ReadRegister<IoLine>,
}

impl InterruptRegister {
    /// The four registers that start at the address `offset`.
    pub fn new(offset: u32) -> (registers: InterruptRegister)
        requires
            offset + 0xC <= u32::MAX,
        ensures
            registers.enable.address() == offset,
            registers.disable.address() == offset + 0x4,
            registers.mask.address() == offset + 0x8,
            registers.status.address() == offset + 0xC,
    {
        InterruptRegister {
            enable: WriteRegister::new(offset),
            disable: WriteRegister::new(offset + 4),
            mask: ReadRegister::new(offset + 8),
            status: ReadRegister::new(offset + 0xC),
        }
    }

    /// The two stores after which the interrupts of exactly the lines in
    /// `value` are enabled: the store that enables those, then the store
    /// that disables all others.
    pub fn set_enabled(&self, value: u32) -> (stores: (Store, Store))
        ensures
            stores.0 == (Store { address: self.enable.address(), word: value }),
            stores.1 == (Store { address: self.disable.address(), word: !value }),
    {
        (self.enable.write(value), self.disable.write(!value))
    }

    /// The load that shows the lines whose interrupts are enabled.
    pub fn get_enabled(&self) -> (load: Load)
        ensures
            load == (Load { address: self.mask.address() }),
    {
        self.mask.read()
    }

    /// Whether the interrupt of `pin` is enabled, going by `word`, the word
    /// that `get_enabled` has loaded.
    pub fn get_enabled_pin(&self, pin: IoLine, word: u32) -> (enabled: bool)
        ensures
            enabled == field::bit_is_set(word, pin.spec_offset()),
    {
        proof {
            field::lemma_fill_values();
        }
        self.mask.read_area(pin, word) == 1
    }

    /// The load that shows the lines that have changed. The load clears
    /// what it shows.
    pub fn get_changed(&self) -> (load: Load)
        ensures
            load == (Load { address: self.status.address() }),
    {
        self.status.read()
    }

    /// Whether `pin` has changed, going by `word`, the word that
    /// `get_changed` has loaded.
    pub fn get_changed_pin(&self, pin: IoLine, word: u32) -> (changed: bool)
        ensures
            changed == field::bit_is_set(word, pin.spec_offset()),
    {
        proof {
            field::lemma_fill_values();
        }
        self.status.read_area(pin, word) == 1
    }

    /// The store that enables the interrupts of the lines in `pins`.
    pub fn enable_pins(&self, pins: u32) -> (store: Store)
        ensures
            store == (Store { address: self.enable.address(), word: pins }),
    {
        self.enable.write(pins)
    }

    /// The store that enables the interrupt of `pin`.
    pub fn enable_pin(&self, pin: IoLine) -> (store: Store)
        ensures
            store == (Store { address: self.enable.address(), word: 1u32 << pin.spec_offset() }),
    {
        proof {
            field::lemma_single_bit(pin.spec_offset());
        }
        self.enable.write(pin.insert(1))
    }

    /// The store that disables the interrupts of the lines in `pins`.
    pub fn disable_pins(&self, pins: u32) -> (store: Store)
        ensures
            store == (Store { address: self.disable.address(), word: pins }),
    {
        self.disable.write(pins)
    }

    /// The store that disables the interrupt of `pin`.
    pub fn disable_pin(&self, pin: IoLine) -> (store: Store)
        ensures
            store == (Store { address: self.disable.address(), word: 1u32 << pin.spec_offset() }),
    {
        proof {
            field::lemma_single_bit(pin.spec_offset());
        }
        self.disable.write(pin.insert(1))
    }
}

/// What the input filter of a line lets through.
#[derive(Clone, Copy, Debug, PartialEq, Eq, Structural)]
pub enum InputFilterMode {
    /// Pulses shorter than half a master-clock period are dropped.
    Glitch,
    /// Pulses shorter than half a period of the divided slow clock are
    /// dropped.
    Debounce,
}

impl InputFilterMode {
    /// The bit that stands for the mode: 0 for `Glitch`, 1 for `Debounce`.
    pub open spec fn spec_bit(self) -> u32 {
        match self {
            InputFilterMode::Glitch => 0,
            InputFilterMode::Debounce => 1,
        }
    }

    /// The bit that stands for the mode.
    #[verifier::when_used_as_spec(spec_bit)]
    pub fn bit(self) -> (bit: u32)
        ensures
            bit == self.spec_bit(),
    {
        match self {
            InputFilterMode::Glitch => 0,
            InputFilterMode::Debounce => 1,
        }
    }
}

impl From<bool> for InputFilterMode {
    /// `Debounce` for `true`, `Glitch` for `false`.
    fn from(value: bool) -> (mode: InputFilterMode)
        ensures
            mode == (if value {
                InputFilterMode::Debounce
            } else {
                InputFilterMode::Glitch
            }),
    {
        if value {
            InputFilterMode::Debounce
        } else {
            InputFilterMode::Glitch
        }
    }
}

impl FromSpecImpl<bool> for InputFilterMode {
    open spec fn obeys_from_spec() -> bool {
        true
    }

    open spec fn from_spec(value: bool) -> InputFilterMode {
        if value {
            InputFilterMode::Debounce
        } else {
            InputFilterMode::Glitch
        }
    }
}

/// The input filters of a controller.
pub struct InputFilter {
    /// The lines whose filter runs.
    pub active: SetResetStatusRegister<IoLine>,
    /// The mode of each line's filter: bit clear for `Glitch`, bit set for
    /// `Debounce`.
    pub mode: SetResetStatusRegister<IoLine>,
    /// The divider of the slow clock for the debouncing filter.
    pub slow_clock_divider: ReadWriteRegister<u32>,
}

impl InputFilter {
    /// The input filter registers of the controller whose first register
    /// lies at `pio_controller_offset`.
    pub fn new(pio_controller_offset: u32) -> (filter: InputFilter)
        requires
            pio_controller_offset + 0x8C <= u32::MAX,
        ensures
            filter.active.set.address() == pio_controller_offset + 0x20,
            filter.active.reset.address() == pio_controller_offset + 0x24,
            filter.active.status.address() == pio_controller_offset + 0x28,
            filter.mode.set.address() == pio_controller_offset + 0x80,
            filter.mode.reset.address() == pio_controller_offset + 0x84,
            filter.mode.status.address() == pio_controller_offset + 0x88,
            filter.slow_clock_divider.address() == pio_controller_offset + 0x8C,
    {
        InputFilter {
            active: SetResetStatusRegister::new(pio_controller_offset + 0x20),
            mode: SetResetStatusRegister::new(pio_controller_offset + 0x80),
            slow_clock_divider: ReadWriteRegister::new(pio_controller_offset + 0x8C),
        }
    }

    /// The two stores after which the filters of exactly the lines in
    /// `value` run: the store that starts those, then the store that stops
    /// all others.
    pub fn set_enabled(&self, value: u32) -> (stores: (Store, Store))
        ensures
            stores.0 == (Store { address: self.active.set.address(), word: value }),
            stores.1 == (Store { address: self.active.reset.address(), word: !value }),
    {
        self.active.write(value)
    }

    /// The load that shows the lines whose filter runs.
    pub fn get_enabled(&self) -> (load: Load)
        ensures
            load == (Load { address: self.active.status.address() }),
    {
        self.active.read()
    }

    /// Whether the filter of `pin` runs, going by `word`, the word that
    /// `get_enabled` has loaded.
    pub fn get_enabled_pin(&self, pin: IoLine, word: u32) -> (enabled: bool)
        ensures
            enabled == field::bit_is_set(word, pin.spec_offset()),
    {
        proof {
            field::lemma_fill_values();
        }
        self.active.read_area(pin, word) == 1
    }

    /// The store that starts the filters of the lines in `pins`.
    pub fn enable_pins(&self, pins: u32) -> (store: Store)
        ensures
            store == (Store { address: self.active.set.address(), word: pins }),
    {
        self.active.set.write(pins)
    }

    /// The store that starts the filter of `pin`.
    pub fn enable_pin(&self, pin: IoLine) -> (store: Store)
        ensures
            store == (Store {
                address: self.active.set.address(),
                word: 1u32 << pin.spec_offset(),
            }),
    {
        proof {
            field::lemma_single_bit(pin.spec_offset());
        }
        self.active.set.write(pin.insert(1))
    }

    /// The store that stops the filters of the lines in `pins`.
    pub fn disable_pins(&self, pins: u32) -> (store: Store)
        ensures
            store == (Store { address: self.active.reset.address(), word: pins }),
    {
        self.active.reset.write(pins)
    }

    /// The store that stops the filter of `pin`.
    pub fn disable_pin(&self, pin: IoLine) -> (store: Store)
        ensures
            store == (Store {
                address: self.active.reset.address(),
                word: 1u32 << pin.spec_offset(),
            }),
    {
        proof {
            field::lemma_single_bit(pin.spec_offset());
        }
        self.active.reset.write(pin.insert(1))
    }

    /// The two stores that give the filter of `pin` its mode: for
    /// `Debounce` the line's bit to the set register and zero to the reset
    /// register, for `Glitch` zero to the set register and the line's bit to
    /// the reset register.
    pub fn set_pin_mode(&self, pin: IoLine, mode: InputFilterMode) -> (stores: (Store, Store))
        ensures
            stores.0 == (Store {
                address: self.mode.set.address(),
                word: if mode == InputFilterMode::Debounce {
                    1u32 << pin.spec_offset()
                } else {
                    0
                },
            }),
            stores.1 == (Store {
                address: self.mode.reset.address(),
                word: if mode == InputFilterMode::Debounce {
                    0
                } else {
                    1u32 << pin.spec_offset()
                },
            }),
    {
        proof {
            field::lemma_single_bit(pin.spec_offset());
            field::lemma_fill_values();
            field::lemma_encode_extremes(pin.spec_offset(), 1);
        }
        self.mode.write_area(pin, mode.bit())
    }

    /// The load that shows the modes of the filters.
    pub fn get_pin_modes(&self) -> (load: Load)
        ensures
            load == (Load { address: self.mode.status.address() }),
    {
        self.mode.read()
    }

    /// The mode of the filter of `pin`, going by `word`, the word that
    /// `get_pin_modes` has loaded.
    pub fn get_pin_mode(&self, pin: IoLine, word: u32) -> (mode: InputFilterMode)
        ensures
            mode == (if field::bit_is_set(word, pin.spec_offset()) {
                InputFilterMode::Debounce
            } else {
                InputFilterMode::Glitch
            }),
    {
        proof {
            field::lemma_fill_values();
        }
        InputFilterMode::from(self.mode.read_area(pin, word) == 1)
    }

    /// The store that sets the divider of the slow clock.
    pub fn set_slow_clock_divider(&self, divider: u32) -> (store: Store)
        ensures
            store == (Store { address: self.slow_clock_divider.address(), word: divider }),
    {
        self.slow_clock_divider.write(divider)
    }

    /// The load that gives the divider of the slow clock.
    pub fn get_slow_clock_divider(&self) -> (load: Load)
        ensures
            load == (Load { address: self.slow_clock_divider.address() }),
    {
        self.slow_clock_divider.read()
    }
}

/// The registers of one parallel I/O controller.
pub struct Pio {
    /// The lines that the controller drives, not a peripheral.
    pub pio: SetResetStatusRegister<IoLine>,
    /// The lines that are outputs.
    pub output: SetResetStatusRegister<IoLine>,
    pub input_filter: InputFilter,
    /// The levels that the outputs drive.
    pub output_data: SetResetStatusRegister<IoLine>,
    /// The levels on the lines.
    pub pin_data: ReadRegister<IoLine>,
    pub interrupt: InterruptRegister,
    /// The lines that are open-drain.
    pub multi_driver: SetResetStatusRegister<IoLine>,
    /// The lines whose pull-up is off.
    pub pull_up_disable: SetResetStatusRegister<IoLine>,
    /// Which of two peripherals has each line.
    pub peripheral_ab_select: ReadWriteRegister<IoLine>,
    /// The lines whose level a store to the output data changes.
    pub output_write: SetResetStatusRegister<IoLine>,
}

impl Pio {
    /// The number of bytes from the first register to the end of the last.
    pub const SIZE: u32 = 0xAC;

    /// The registers lie at their offsets from `offset`.
    pub open spec fn laid_out_at(&self, offset: u32) -> bool {
        &&& self.pio.set.address() == offset
        &&& self.pio.reset.address() == offset + 0x4
        &&& self.pio.status.address() == offset + 0x8
        &&& self.output.set.address() == offset + 0x10
        &&& self.output.reset.address() == offset + 0x14
        &&& self.output.status.address() == offset + 0x18
        &&& self.input_filter.active.set.address() == offset + 0x20
        &&& self.input_filter.active.reset.address() == offset + 0x24
        &&& self.input_filter.active.status.address() == offset + 0x28
        &&& self.output_data.set.address() == offset + 0x30
        &&& self.output_data.reset.address() == offset + 0x34
        &&& self.output_data.status.address() == offset + 0x38
        &&& self.pin_data.address() == offset + 0x3C
        &&& self.interrupt.enable.address() == offset + 0x40
        &&& self.interrupt.disable.address() == offset + 0x44
        &&& self.interrupt.mask.address() == offset + 0x48
        &&& self.interrupt.status.address() == offset + 0x4C
        &&& self.multi_driver.set.address() == offset + 0x50
        &&& self.multi_driver.reset.address() == offset + 0x54
        &&& self.multi_driver.status.address() == offset + 0x58
        &&& self.pull_up_disable.set.address() == offset + 0x60
        &&& self.pull_up_disable.reset.address() == offset + 0x64
        &&& self.pull_up_disable.status.address() == offset + 0x68
        &&& self.peripheral_ab_select.address() == offset + 0x70
        &&& self.input_filter.mode.set.address() == offset + 0x80
        &&& self.input_filter.mode.reset.address() == offset + 0x84
        &&& self.input_filter.mode.status.address() == offset + 0x88
        &&& self.input_filter.slow_clock_divider.address() == offset + 0x8C
        &&& self.output_write.set.address() == offset + 0xA0
        &&& self.output_write.reset.address() == offset + 0xA4
        &&& self.output_write.status.address() == offset + 0xA8
    }

    /// The controller whose first register lies at the address `offset`.
    pub fn new(offset: u32) -> (controller: Pio)
        requires
            offset + Pio::SIZE <= u32::MAX,
        ensures
            controller.laid_out_at(offset),
    {
        Pio {
            pio: SetResetStatusRegister::new(offset),
            output: SetResetStatusRegister::new(offset + 0x10),
            input_filter: InputFilter::new(offset),
            output_data: SetResetStatusRegister::new(offset + 0x30),
            pin_data: ReadRegister::new(offset + 0x3C),
            interrupt: InterruptRegister::new(offset + 0x40),
            multi_driver: SetResetStatusRegister::new(offset + 0x50),
            pull_up_disable: SetResetStatusRegister::new(offset + 0x60),
            peripheral_ab_select: ReadWriteRegister::new(offset + 0x70),
            output_write: SetResetStatusRegister::new(offset + 0xA0),
        }
    }
}

/// The parallel I/O controller A.
pub fn pio_a() -> (controller: Pio)
    ensures
        controller.laid_out_at(0x400E_0E00),
{
    Pio::new(0x400E_0E00)
}

/// The parallel I/O controller B.
pub fn pio_b() -> (controller: Pio)
    ensures
        controller.laid_out_at(0x400E_1000),
{
    Pio::new(0x400E_1000)
}

/// The parallel I/O controller C.
pub fn pio_c() -> (controller: Pio)
    ensures
        controller.laid_out_at(0x400E_1200),
{
    Pio::new(0x400E_1200)
}

/// The parallel I/O controller D.
pub fn pio_d() -> (controller: Pio)
    ensures
        controller.laid_out_at(0x400E_1400),
{
    Pio::new(0x400E_1400)
}

} // verus!
