//! The power management controller: the clocks of the chip and of its
//! peripherals, and the write protection of the controller's registers.
//!
//! The clock of peripheral N, for N from 2 to 31, is switched on by a store
//! of bit N to the register at offset 0x10 and off by a store of bit N to
//! the register at 0x14; the register at 0x18 shows which clocks run.

use self::map::{
    ClockFrequency, FastStartupMode, FastStartupPolarity, Interrupt, MainOscillator, MasterClock,
    PeripheralClock0, PeripheralClock1, PeripheralControl, Plla, ProgrammableClock, Status,
    SystemClock, UsbClock, UtmiClock, WriteProtectMode, WriteProtectStatus,
};
use crate::bus::{Load, Store};
use crate::field;
use crate::sam3x8e::special_ints::U24;
use crate::sam3x8e::{
    follows, Byte16, Byte4, Byte8, Layout, MaskedRegisterWriter, Region, RegisterWriter, Reserved,
    Ro, Rw, Sr, Srs, Wo,
};
use std::marker::PhantomData;
use vstd::prelude::*;

pub mod map;
pub mod values;

verus! {

/// The registers of the controller and the gaps between them, in the order
/// of their addresses.
pub struct RegisterBlock {
    /// Switches the clocks of the system on and off.
    pub system_clock: Srs<SystemClock>,
    /// A gap.
    pub _r0: Reserved<Byte4>,
    /// Switches the clocks of the peripherals 2 to 31 on and off.
    pub peripheral_clock_0: Srs<PeripheralClock0>,
    /// The settings of the UTMI PLL.
    pub utmi_clock: Rw<UtmiClock>,
    /// The settings of the main oscillator.
    pub main_oscillator: Rw<MainOscillator>,
    /// The measured frequency of the main clock.
    pub clock_frequency: Ro<ClockFrequency>,
    /// The settings of PLL A.
    pub plla: Rw<Plla>,
    /// A gap.
    pub _r1: Reserved<Byte4>,
    /// The settings of the master clock.
    pub master_clock: Rw<MasterClock>,
    /// A gap.
    pub _r2: Reserved<Byte4>,
    /// The settings of the USB clock.
    pub usb_clock: Rw<UsbClock>,
    /// A gap.
    pub _r3: Reserved<Byte4>,
    /// The settings of the programmable clock output 0.
    pub programmable_clock_0: Rw<ProgrammableClock>,
    /// The settings of the programmable clock output 1.
    pub programmable_clock_1: Rw<ProgrammableClock>,
    /// The settings of the programmable clock output 2.
    pub programmable_clock_2: Rw<ProgrammableClock>,
    /// A gap.
    pub _r4: Reserved<Byte16>,
    /// A gap.
    pub _r5: Reserved<Byte4>,
    /// Switches the interrupts of the controller on and off.
    pub interrupt: Sr<Interrupt>,
    /// The state of the clocks.
    pub status: Ro<Status>,
    /// The interrupts that are switched on.
    pub interrupt_mask: Ro<Interrupt>,
    /// The sources of a fast start-up.
    pub fast_startup_mode: Rw<FastStartupMode>,
    /// The levels of the fast start-up inputs.
    pub fast_startup_polarity: Rw<FastStartupPolarity>,
    /// Written as one, clears the fault output of the clock failure
    /// detector.
    pub fault_output_clear: Wo<bool>,
    /// A gap.
    pub _r6: Reserved<Byte8>,
    /// A gap.
    pub _r7: Reserved<Byte16>,
    /// A gap.
    pub _r8: Reserved<Byte16>,
    /// A gap.
    pub _r9: Reserved<Byte16>,
    /// A gap.
    pub _r10: Reserved<Byte16>,
    /// A gap.
    pub _r11: Reserved<Byte16>,
    /// A gap.
    pub _r12: Reserved<Byte16>,
    /// The write protection of the registers. The key always reads as zero.
    pub write_protect_mode: Rw<WriteProtectMode>,
    /// What the write protection has seen.
    pub write_protect_status: Ro<WriteProtectStatus>,
    /// A gap.
    pub _r13: Reserved<Byte16>,
    /// A gap.
    pub _r14: Reserved<Byte4>,
    /// Switches the clocks of the peripherals 32 to 44 on and off.
    pub peripheral_clock_1: Srs<PeripheralClock1>,
    /// The settings of the clock of one peripheral.
    pub peripheral_control: Rw<PeripheralControl>,
}

impl RegisterBlock {
    /// The number of bytes that the registers and gaps take.
    pub const SIZE: u32 = 0x110;

    /// The first register lies at `base`, and each register and gap right
    /// after the one before it: no two of them share a byte and no byte
    /// between them is left out.
    pub open spec fn laid_out_at(&self, base: u32) -> bool {
        &&& self.system_clock.start() == base
        &&& follows(&self.system_clock, &self._r0)
        &&& follows(&self._r0, &self.peripheral_clock_0)
        &&& follows(&self.peripheral_clock_0, &self.utmi_clock)
        &&& follows(&self.utmi_clock, &self.main_oscillator)
        &&& follows(&self.main_oscillator, &self.clock_frequency)
        &&& follows(&self.clock_frequency, &self.plla)
        &&& follows(&self.plla, &self._r1)
        &&& follows(&self._r1, &self.master_clock)
        &&& follows(&self.master_clock, &self._r2)
        &&& follows(&self._r2, &self.usb_clock)
        &&& follows(&self.usb_clock, &self._r3)
        &&& follows(&self._r3, &self.programmable_clock_0)
        &&& follows(&self.programmable_clock_0, &self.programmable_clock_1)
        &&& follows(&self.programmable_clock_1, &self.programmable_clock_2)
        &&& follows(&self.programmable_clock_2, &self._r4)
        &&& follows(&self._r4, &self._r5)
        &&& follows(&self._r5, &self.interrupt)
        &&& follows(&self.interrupt, &self.status)
        &&& follows(&self.status, &self.interrupt_mask)
        &&& follows(&self.interrupt_mask, &self.fast_startup_mode)
        &&& follows(&self.fast_startup_mode, &self.fast_startup_polarity)
        &&& follows(&self.fast_startup_polarity, &self.fault_output_clear)
        &&& follows(&self.fault_output_clear, &self._r6)
        &&& follows(&self._r6, &self._r7)
        &&& follows(&self._r7, &self._r8)
        &&& follows(&self._r8, &self._r9)
        &&& follows(&self._r9, &self._r10)
        &&& follows(&self._r10, &self._r11)
        &&& follows(&self._r11, &self._r12)
        &&& follows(&self._r12, &self.write_protect_mode)
        &&& follows(&self.write_protect_mode, &self.write_protect_status)
        &&& follows(&self.write_protect_status, &self._r13)
        &&& follows(&self._r13, &self._r14)
        &&& follows(&self._r14, &self.peripheral_clock_1)
        &&& follows(&self.peripheral_clock_1, &self.peripheral_control)
        &&& self.system_clock.wf()
        &&& self.peripheral_clock_0.wf()
        &&& self.interrupt.wf()
        &&& self.peripheral_clock_1.wf()
    }

    /// The registers of a controller whose first register lies at `base`.
    pub fn new(base: u32) -> (block: RegisterBlock)
        requires
            base + RegisterBlock::SIZE <= u32::MAX,
        ensures
            block.laid_out_at(base),
            block.system_clock.set.address() == base + 0x0,
            block.system_clock.reset.address() == base + 0x4,
            block.system_clock.status.address() == base + 0x8,
            block.peripheral_clock_0.set.address() == base + 0x10,
            block.peripheral_clock_0.reset.address() == base + 0x14,
            block.peripheral_clock_0.status.address() == base + 0x18,
            block.utmi_clock.address() == base + 0x1C,
            block.main_oscillator.address() == base + 0x20,
            block.clock_frequency.address() == base + 0x24,
            block.plla.address() == base + 0x28,
            block.master_clock.address() == base + 0x30,
            block.usb_clock.address() == base + 0x38,
            block.programmable_clock_0.address() == base + 0x40,
            block.programmable_clock_1.address() == base + 0x44,
            block.programmable_clock_2.address() == base + 0x48,
            block.interrupt.set.address() == base + 0x60,
            block.interrupt.reset.address() == base + 0x64,
            block.status.address() == base + 0x68,
            block.interrupt_mask.address() == base + 0x6C,
            block.fast_startup_mode.address() == base + 0x70,
            block.fast_startup_polarity.address() == base + 0x74,
            block.fault_output_clear.address() == base + 0x78,
            block.write_protect_mode.address() == base + 0xE4,
            block.write_protect_status.address() == base + 0xE8,
            block.peripheral_clock_1.set.address() == base + 0x100,
            block.peripheral_clock_1.reset.address() == base + 0x104,
            block.peripheral_clock_1.status.address() == base + 0x108,
            block.peripheral_control.address() == base + 0x10C,
    {
        let mut layout = Layout::new(base);
        let system_clock = layout.srs();
        let _r0 = layout.reserved();
        let peripheral_clock_0 = layout.srs();
        let utmi_clock = layout.rw();
        let main_oscillator = layout.rw();
        let clock_frequency = layout.ro();
        let plla = layout.rw();
        let _r1 = layout.reserved();
        let master_clock = layout.rw();
        let _r2 = layout.reserved();
        let usb_clock = layout.rw();
        let _r3 = layout.reserved();
        let programmable_clock_0 = layout.rw();
        let programmable_clock_1 = layout.rw();
        let programmable_clock_2 = layout.rw();
        let _r4 = layout.reserved();
        let _r5 = layout.reserved();
        let interrupt = layout.sr();
        let status = layout.ro();
        let interrupt_mask = layout.ro();
        let fast_startup_mode = layout.rw();
        let fast_startup_polarity = layout.rw();
        let fault_output_clear = layout.wo();
        let _r6 = layout.reserved();
        let _r7 = layout.reserved();
        let _r8 = layout.reserved();
        let _r9 = layout.reserved();
        let _r10 = layout.reserved();
        let _r11 = layout.reserved();
        let _r12 = layout.reserved();
        let write_protect_mode = layout.rw();
        let write_protect_status = layout.ro();
        let _r13 = layout.reserved();
        let _r14 = layout.reserved();
        let peripheral_clock_1 = layout.srs();
        let peripheral_control = layout.rw();
        RegisterBlock {
            system_clock,
            _r0,
            peripheral_clock_0,
            utmi_clock,
            main_oscillator,
            clock_frequency,
            plla,
            _r1,
            master_clock,
            _r2,
            usb_clock,
            _r3,
            programmable_clock_0,
            programmable_clock_1,
            programmable_clock_2,
            _r4,
            _r5,
            interrupt,
            status,
            interrupt_mask,
            fast_startup_mode,
            fast_startup_polarity,
            fault_output_clear,
            _r6,
            _r7,
            _r8,
            _r9,
            _r10,
            _r11,
            _r12,
            write_protect_mode,
            write_protect_status,
            _r13,
            _r14,
            peripheral_clock_1,
            peripheral_control,
        }
    }
}

/// The state of a controller whose registers are write-protected.
pub struct Enabled {}

/// The state of a controller whose registers can be written.
pub struct Disabled {}

/// One of the three programmable clock outputs.
#[derive(Clone, Copy, Debug, PartialEq, Eq, Structural)]
pub enum ProgrammableClockOutput {
    Pc0,
    Pc1,
    Pc2,
}

impl ProgrammableClockOutput {
    /// The bit of the output in the system clock registers.
    pub open spec fn spec_bit(self) -> u32 {
        match self {
            ProgrammableClockOutput::Pc0 => 8,
            ProgrammableClockOutput::Pc1 => 9,
            ProgrammableClockOutput::Pc2 => 10,
        }
    }
}

/// A peripheral whose clock the controller switches.
#[derive(Clone, Copy, Debug, PartialEq, Eq, Structural)]
pub enum PmcConfigurablePeripheral {
    /// The static memory controller and the SDRAM controller, peripheral 9.
    SmcSdramc,
    /// The parallel I/O controller A, peripheral 11.
    PioA,
    /// The parallel I/O controller B, peripheral 12.
    PioB,
    /// The parallel I/O controller C, peripheral 13.
    PioC,
    /// The parallel I/O controller D, peripheral 14.
    PioD,
    /// The parallel I/O controller E, peripheral 15.
    PioE,
    /// The parallel I/O controller F, peripheral 16.
    PioF,
    /// The USART 0, peripheral 17.
    Usart0,
    /// The USART 1, peripheral 18.
    Usart1,
    /// The USART 2, peripheral 19.
    Usart2,
    /// The USART 3, peripheral 20.
    Usart3,
    /// The multimedia card interface, peripheral 21.
    Hsmci,
    /// The two-wire interface 0, peripheral 22.
    Twi0,
    /// The two-wire interface 1, peripheral 23.
    Twi1,
    /// The serial peripheral interface 0, peripheral 24.
    Spi0,
    /// The serial peripheral interface 1, peripheral 25.
    Spi1,
    /// The synchronous serial controller, peripheral 26.
    Ssc,
    /// The timer counter channel 0, peripheral 27.
    Tc0,
    /// The timer counter channel 1, peripheral 28.
    Tc1,
    /// The timer counter channel 2, peripheral 29.
    Tc2,
    /// The timer counter channel 3, peripheral 30.
    Tc3,
    /// The timer counter channel 4, peripheral 31.
    Tc4,
    /// The timer counter channel 5, peripheral 32.
    Tc5,
    /// The timer counter channel 6, peripheral 33.
    Tc6,
    /// The timer counter channel 7, peripheral 34.
    Tc7,
    /// The timer counter channel 8, peripheral 35.
    Tc8,
    /// The pulse width modulation controller, peripheral 36.
    Pwm,
    /// The analog-to-digital converter, peripheral 37.
    Adc,
    /// The digital-to-analog converter, peripheral 38.
    Dacc,
    /// The DMA controller, peripheral 39.
    Dmac,
    /// The USB OTG interface, peripheral 40.
    Uotghs,
    /// The true random number generator, peripheral 41.
    Trng,
    /// The Ethernet MAC, peripheral 42.
    Emac,
    /// The CAN controller 0, peripheral 43.
    Can0,
    /// The CAN controller 1, peripheral 44.
    Can1,
}

impl PmcConfigurablePeripheral {
    /// The number of the peripheral.
    pub open spec fn spec_id(self) -> u32 {
        match self {
            PmcConfigurablePeripheral::SmcSdramc => 9,
            PmcConfigurablePeripheral::PioA => 11,
            PmcConfigurablePeripheral::PioB => 12,
            PmcConfigurablePeripheral::PioC => 13,
            PmcConfigurablePeripheral::PioD => 14,
            PmcConfigurablePeripheral::PioE => 15,
            PmcConfigurablePeripheral::PioF => 16,
            PmcConfigurablePeripheral::Usart0 => 17,
            PmcConfigurablePeripheral::Usart1 => 18,
            PmcConfigurablePeripheral::Usart2 => 19,
            PmcConfigurablePeripheral::Usart3 => 20,
            PmcConfigurablePeripheral::Hsmci => 21,
            PmcConfigurablePeripheral::Twi0 => 22,
            PmcConfigurablePeripheral::Twi1 => 23,
            PmcConfigurablePeripheral::Spi0 => 24,
            PmcConfigurablePeripheral::Spi1 => 25,
            PmcConfigurablePeripheral::Ssc => 26,
            PmcConfigurablePeripheral::Tc0 => 27,
            PmcConfigurablePeripheral::Tc1 => 28,
            PmcConfigurablePeripheral::Tc2 => 29,
            PmcConfigurablePeripheral::Tc3 => 30,
            PmcConfigurablePeripheral::Tc4 => 31,
            PmcConfigurablePeripheral::Tc5 => 32,
            PmcConfigurablePeripheral::Tc6 => 33,
            PmcConfigurablePeripheral::Tc7 => 34,
            PmcConfigurablePeripheral::Tc8 => 35,
            PmcConfigurablePeripheral::Pwm => 36,
            PmcConfigurablePeripheral::Adc => 37,
            PmcConfigurablePeripheral::Dacc => 38,
            PmcConfigurablePeripheral::Dmac => 39,
            PmcConfigurablePeripheral::Uotghs => 40,
            PmcConfigurablePeripheral::Trng => 41,
            PmcConfigurablePeripheral::Emac => 42,
            PmcConfigurablePeripheral::Can0 => 43,
            PmcConfigurablePeripheral::Can1 => 44,
        }
    }

    /// The number of the peripheral.
    #[verifier::when_used_as_spec(spec_id)]
    pub fn id(self) -> (id: u32)
        ensures
            id == self.spec_id(),
            9 <= id <= 44,
    {
        match self {
            PmcConfigurablePeripheral::SmcSdramc => 9,
            PmcConfigurablePeripheral::PioA => 11,
            PmcConfigurablePeripheral::PioB => 12,
            PmcConfigurablePeripheral::PioC => 13,
            PmcConfigurablePeripheral::PioD => 14,
            PmcConfigurablePeripheral::PioE => 15,
            PmcConfigurablePeripheral::PioF => 16,
            PmcConfigurablePeripheral::Usart0 => 17,
            PmcConfigurablePeripheral::Usart1 => 18,
            PmcConfigurablePeripheral::Usart2 => 19,
            PmcConfigurablePeripheral::Usart3 => 20,
            PmcConfigurablePeripheral::Hsmci => 21,
            PmcConfigurablePeripheral::Twi0 => 22,
            PmcConfigurablePeripheral::Twi1 => 23,
            PmcConfigurablePeripheral::Spi0 => 24,
            PmcConfigurablePeripheral::Spi1 => 25,
            PmcConfigurablePeripheral::Ssc => 26,
            PmcConfigurablePeripheral::Tc0 => 27,
            PmcConfigurablePeripheral::Tc1 => 28,
            PmcConfigurablePeripheral::Tc2 => 29,
            PmcConfigurablePeripheral::Tc3 => 30,
            PmcConfigurablePeripheral::Tc4 => 31,
            PmcConfigurablePeripheral::Tc5 => 32,
            PmcConfigurablePeripheral::Tc6 => 33,
            PmcConfigurablePeripheral::Tc7 => 34,
            PmcConfigurablePeripheral::Tc8 => 35,
            PmcConfigurablePeripheral::Pwm => 36,
            PmcConfigurablePeripheral::Adc => 37,
            PmcConfigurablePeripheral::Dacc => 38,
            PmcConfigurablePeripheral::Dmac => 39,
            PmcConfigurablePeripheral::Uotghs => 40,
            PmcConfigurablePeripheral::Trng => 41,
            PmcConfigurablePeripheral::Emac => 42,
            PmcConfigurablePeripheral::Can0 => 43,
            PmcConfigurablePeripheral::Can1 => 44,
        }
    }
}

/// The address of the controller's first register.
pub const ADDRESS: u32 = 0x400E_0600;

/// The key that a store to the write protection register has to carry:
/// the letters "PMC".
pub const WRITE_PROTECT_KEY: u32 = 0x50_4D_43;

/// The word that switches the write protection on: `mode`, the word loaded
/// from the write protection register, with the key and with the enable
/// bit set.
pub open spec fn locked_word(mode: u32) -> u32 {
    field::spec_merge(0, 1, field::spec_merge(8, 24, mode, WRITE_PROTECT_KEY), 1)
}

/// The word that switches the write protection off: `mode` with the key
/// and with the enable bit clear.
pub open spec fn unlocked_word(mode: u32) -> u32 {
    field::spec_merge(0, 1, field::spec_merge(8, 24, mode, WRITE_PROTECT_KEY), 0)
}

/// The power management controller. The type parameter is the state of the
/// write protection, `Disabled` or `Enabled`. What changes a protected
/// register is a method of the `Disabled` state only, so a caller that
/// holds a protected controller has nothing to call; the two transitions
/// take the controller and give it back in the other state.
pub struct PowerManagementController<WPEN> {
    register_block: RegisterBlock,
    _wpen: PhantomData<WPEN>,
}

impl<WPEN> PowerManagementController<WPEN> {
    /// The controller's registers.
    pub closed spec fn block(&self) -> RegisterBlock {
        self.register_block
    }

    /// The registers lie where the chip has them.
    pub open spec fn wf(&self) -> bool {
        self.block().laid_out_at(ADDRESS)
    }

    /// The load of the write protection register's word, which the two
    /// transitions take.
    pub fn get_write_protection(&self) -> (load: Load)
        ensures
            load == (Load { address: self.block().write_protect_mode.address() }),
    {
        self.register_block.write_protect_mode.load()
    }
}

impl PowerManagementController<Disabled> {
    /// The controller at its address on the chip, in the state in which the
    /// chip starts: not protected.
    pub fn new() -> (controller: PowerManagementController<Disabled>)
        ensures
            controller.wf(),
            controller.block().system_clock.set.address() == 0x400E_0600,
            controller.block().system_clock.reset.address() == 0x400E_0604,
            controller.block().peripheral_clock_0.set.address() == 0x400E_0610,
            controller.block().peripheral_clock_0.reset.address() == 0x400E_0614,
            controller.block().peripheral_clock_0.status.address() == 0x400E_0618,
            controller.block().write_protect_mode.address() == 0x400E_06E4,
    {
        PowerManagementController {
            register_block: RegisterBlock::new(ADDRESS),
            _wpen: PhantomData,
        }
    }

    /// The two stores that switch one clock of the system on or off: to the
    /// set register the clock's bit if it is switched on, to the reset
    /// register the clock's bit if it is switched off, and zero to the
    /// other of the two.
    fn switch_system_clock(&self, bit: u32, on: bool) -> (stores: (Store, Store))
        requires
            bit == 5 || 8 <= bit <= 10,
        ensures
            stores.0 == (Store {
                address: self.block().system_clock.set.address(),
                word: if on {
                    field::spec_mask(bit, 1)
                } else {
                    0
                },
            }),
            stores.1 == (Store {
                address: self.block().system_clock.reset.address(),
                word: if on {
                    0
                } else {
                    field::spec_mask(bit, 1)
                },
            }),
    {
        proof {
            field::lemma_fill_values();
            field::lemma_merge_into_zero(bit, 1, 0);
            field::lemma_merge_into_zero(bit, 1, 1);
            field::lemma_encode_extremes(bit, 1);
        }
        let place = if bit == 5 {
            SystemClock::usb_otg_clock()
        } else if bit == 8 {
            SystemClock::programmable_clock_0()
        } else if bit == 9 {
            SystemClock::programmable_clock_1()
        } else {
            SystemClock::programmable_clock_2()
        };
        let update = |w: MaskedRegisterWriter<SystemClock>| -> (built: MaskedRegisterWriter<
            SystemClock,
        >)
            ensures
                built.value == place.spec_set(w.value, on),
                built.mask == w.mask | place.spec_mask(),
            {
                w.with(&place, on)
            };
        self.register_block.system_clock.set_fields(update)
    }

    /// The two stores that switch the clock of the USB OTG interface on.
    pub fn enable_usb_otg(&self) -> (stores: (Store, Store))
        ensures
            stores.0 == (Store {
                address: self.block().system_clock.set.address(),
                word: field::spec_mask(5, 1),
            }),
            stores.1 == (Store { address: self.block().system_clock.reset.address(), word: 0 }),
    {
        self.switch_system_clock(5, true)
    }

    /// The two stores that switch the clock of the USB OTG interface off.
    pub fn disable_usb_otg(&self) -> (stores: (Store, Store))
        ensures
            stores.0 == (Store { address: self.block().system_clock.set.address(), word: 0 }),
            stores.1 == (Store {
                address: self.block().system_clock.reset.address(),
                word: field::spec_mask(5, 1),
            }),
    {
        self.switch_system_clock(5, false)
    }

    /// The two stores that switch a programmable clock output on.
    pub fn enable_programmable_clock(&self, id: ProgrammableClockOutput) -> (stores: (
        Store,
        Store,
    ))
        ensures
            stores.0 == (Store {
                address: self.block().system_clock.set.address(),
                word: field::spec_mask(id.spec_bit(), 1),
            }),
            stores.1 == (Store { address: self.block().system_clock.reset.address(), word: 0 }),
    {
        match id {
            ProgrammableClockOutput::Pc0 => self.switch_system_clock(8, true),
            ProgrammableClockOutput::Pc1 => self.switch_system_clock(9, true),
            ProgrammableClockOutput::Pc2 => self.switch_system_clock(10, true),
        }
    }

    /// The two stores that switch a programmable clock output off.
    pub fn disable_programmable_clock(&self, id: ProgrammableClockOutput) -> (stores: (
        Store,
        Store,
    ))
        ensures
            stores.0 == (Store { address: self.block().system_clock.set.address(), word: 0 }),
            stores.1 == (Store {
                address: self.block().system_clock.reset.address(),
                word: field::spec_mask(id.spec_bit(), 1),
            }),
    {
        match id {
            ProgrammableClockOutput::Pc0 => self.switch_system_clock(8, false),
            ProgrammableClockOutput::Pc1 => self.switch_system_clock(9, false),
            ProgrammableClockOutput::Pc2 => self.switch_system_clock(10, false),
        }
    }

    /// The store that switches the clock of a peripheral on: the bit of the
    /// peripheral's number, to the set register of the peripherals 2 to 31.
    /// There is none for a peripheral with a number of 32 or more.
    pub fn enable_peripheral_clock(&self, pid: PmcConfigurablePeripheral) -> (store: Option<
        Store,
    >)
        ensures
            store == (if pid.id() < 32 {
                Some(
                    Store {
                        address: self.block().peripheral_clock_0.set.address(),
                        word: 1u32 << pid.id(),
                    },
                )
            } else {
                None
            }),
    {
        let id = pid.id();
        if id < 32 {
            Some(self.register_block.peripheral_clock_0.set(1u32 << id))
        } else {
            None
        }
    }

    /// The store that switches the clock of a peripheral off: the bit of
    /// the peripheral's number, to the reset register of the peripherals 2
    /// to 31. There is none for a peripheral with a number of 32 or more.
    pub fn disable_peripheral_clock(&self, pid: PmcConfigurablePeripheral) -> (store: Option<
        Store,
    >)
        ensures
            store == (if pid.id() < 32 {
                Some(
                    Store {
                        address: self.block().peripheral_clock_0.reset.address(),
                        word: 1u32 << pid.id(),
                    },
                )
            } else {
                None
            }),
    {
        let id = pid.id();
        if id < 32 {
            Some(self.register_block.peripheral_clock_0.reset(1u32 << id))
        } else {
            None
        }
    }

    /// Protects the registers. Gives the controller in the protected state
    /// and the store that protects it: `mode`, the word loaded from the
    /// write protection register, with the key and with the enable bit set.
    pub fn into_write_protected(self, mode: u32) -> (locked: (
        PowerManagementController<Enabled>,
        Store,
    ))
        ensures
            locked.0.block() == self.block(),
            locked.1 == (Store {
                address: self.block().write_protect_mode.address(),
                word: locked_word(mode),
            }),
    {
        proof {
            U24::lemma_from_u32(WRITE_PROTECT_KEY);
            lemma_key_fits();
        }
        let key_place = WriteProtectMode::key();
        let enable_place = WriteProtectMode::enable();
        let key = U24::from(WRITE_PROTECT_KEY);
        let update = |w: RegisterWriter<WriteProtectMode>| -> (built: RegisterWriter<
            WriteProtectMode,
        >)
            ensures
                built.value == enable_place.spec_set(key_place.spec_set(w.value, key), true),
            {
                w.with(&key_place, key).with(&enable_place, true)
            };
        let store = self.register_block.write_protect_mode.set_fields(mode, update);
        (
            PowerManagementController { register_block: self.register_block, _wpen: PhantomData },
            store,
        )
    }
}

impl PowerManagementController<Enabled> {
    /// Lifts the protection. Gives the controller in the writable state and
    /// the store that lifts the protection: `mode`, the word loaded from the
    /// write protection register, with the key and with the enable bit
    /// clear.
    pub fn into_writable(self, mode: u32) -> (unlocked: (
        PowerManagementController<Disabled>,
        Store,
    ))
        ensures
            unlocked.0.block() == self.block(),
            unlocked.1 == (Store {
                address: self.block().write_protect_mode.address(),
                word: unlocked_word(mode),
            }),
    {
        proof {
            U24::lemma_from_u32(WRITE_PROTECT_KEY);
            lemma_key_fits();
        }
        let key_place = WriteProtectMode::key();
        let enable_place = WriteProtectMode::enable();
        let key = U24::from(WRITE_PROTECT_KEY);
        let update = |w: RegisterWriter<WriteProtectMode>| -> (built: RegisterWriter<
            WriteProtectMode,
        >)
            ensures
                built.value == enable_place.spec_set(key_place.spec_set(w.value, key), false),
            {
                w.with(&key_place, key).with(&enable_place, false)
            };
        let store = self.register_block.write_protect_mode.set_fields(mode, update);
        (
            PowerManagementController { register_block: self.register_block, _wpen: PhantomData },
            store,
        )
    }
}

/// The key has no more than 24 bits.
proof fn lemma_key_fits()
    by (bit_vector)
    ensures
        WRITE_PROTECT_KEY & 0xff_ffff == WRITE_PROTECT_KEY,
{
}

/// The store that protects the registers carries the key and the set
/// enable bit whatever the register held, so protecting twice stores the
/// same key and the same enable bit twice. The stored word depends on the
/// loaded word in the bits 1 to 7 only: loaded back, with the key or
/// without it, it gives the same store again.
pub proof fn lemma_lock_is_idempotent(mode: u32, other: u32)
    by (bit_vector)
    ensures
        field::spec_decode(8, 24, locked_word(mode)) == WRITE_PROTECT_KEY,
        field::spec_decode(0, 1, locked_word(mode)) == 1,
        field::spec_decode(8, 24, locked_word(mode)) == field::spec_decode(
            8,
            24,
            locked_word(other),
        ),
        field::spec_decode(0, 1, locked_word(mode)) == field::spec_decode(
            0,
            1,
            locked_word(other),
        ),
        locked_word(locked_word(mode)) == locked_word(mode),
        mode & 0xfe == other & 0xfe ==> locked_word(mode) == locked_word(other),
{
}

/// The store that lifts the protection carries the key and the clear
/// enable bit whatever the register held, so lifting twice stores the same
/// key and the same enable bit twice. The stored word depends on the loaded
/// word in the bits 1 to 7 only.
pub proof fn lemma_unlock_is_idempotent(mode: u32, other: u32)
    by (bit_vector)
    ensures
        field::spec_decode(8, 24, unlocked_word(mode)) == WRITE_PROTECT_KEY,
        field::spec_decode(0, 1, unlocked_word(mode)) == 0,
        field::spec_decode(8, 24, unlocked_word(mode)) == field::spec_decode(
            8,
            24,
            unlocked_word(other),
        ),
        field::spec_decode(0, 1, unlocked_word(mode)) == field::spec_decode(
            0,
            1,
            unlocked_word(other),
        ),
        unlocked_word(unlocked_word(mode)) == unlocked_word(mode),
        mode & 0xfe == other & 0xfe ==> unlocked_word(mode) == unlocked_word(other),
{
}

} // verus!
