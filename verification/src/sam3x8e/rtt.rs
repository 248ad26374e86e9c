//! The real-time timer: a free-running 32-bit counter behind a prescaler.
//!
//! | register | offset | fields |
//! |----------|--------|--------|
//! | mode     | 0x0    | prescaler: 16 bits at 0; alarm interrupt: bit 16; increment interrupt: bit 17; restart: bit 18 |
//! | alarm    | 0x4    | the value to compare the counter with |
//! | value    | 0x8    | the counter, read-only |
//! | status   | 0xC    | alarm: bit 0; increment: bit 1; read-only |

use super::{follows, FieldOf, Layout, Region, RegisterType, RegisterWriter, Ro, Rw};
use crate::bus::{Load, Store};
use crate::field;
use vstd::prelude::*;

verus! {

/// The layout of the mode register.
pub struct Mode {}

impl RegisterType for Mode {

}

impl Mode {
    /// The number of slow-clock periods per tick of the counter.
    pub fn prescaler() -> (place: FieldOf<Mode, u16>)
        ensures
            place.spec_offset() == 0,
    {
        FieldOf::at(0)
    }

    /// Whether an alarm raises an interrupt.
    pub fn alarm_interrupt() -> (place: FieldOf<Mode, bool>)
        ensures
            place.spec_offset() == 16,
    {
        FieldOf::at(16)
    }

    /// Whether a tick of the counter raises an interrupt.
    pub fn increment_interrupt() -> (place: FieldOf<Mode, bool>)
        ensures
            place.spec_offset() == 17,
    {
        FieldOf::at(17)
    }

    /// Written as one, reloads the prescaler and sets the counter to zero.
    pub fn restart() -> (place: FieldOf<Mode, bool>)
        ensures
            place.spec_offset() == 18,
    {
        FieldOf::at(18)
    }
}

/// No two fields of the mode register share a bit.
pub proof fn lemma_mode_fields_apart()
    ensures
        field::spec_mask(0, 16) & field::spec_mask(16, 1) == 0,
        field::spec_mask(0, 16) & field::spec_mask(17, 1) == 0,
        field::spec_mask(0, 16) & field::spec_mask(18, 1) == 0,
        field::spec_mask(16, 1) & field::spec_mask(17, 1) == 0,
        field::spec_mask(16, 1) & field::spec_mask(18, 1) == 0,
        field::spec_mask(17, 1) & field::spec_mask(18, 1) == 0,
{
    field::lemma_apart_masks(0, 16, 16, 1);
    field::lemma_apart_masks(0, 16, 17, 1);
    field::lemma_apart_masks(0, 16, 18, 1);
    field::lemma_apart_masks(16, 1, 17, 1);
    field::lemma_apart_masks(16, 1, 18, 1);
    field::lemma_apart_masks(17, 1, 18, 1);
}

/// The layout of the status register.
pub struct Status {}

impl RegisterType for Status {

}

impl Status {
    /// Whether the counter has reached the alarm value since the last read.
    pub fn alarm() -> (place: FieldOf<Status, bool>)
        ensures
            place.spec_offset() == 0,
    {
        FieldOf::at(0)
    }

    /// Whether the counter has ticked since the last read.
    pub fn timer_increment() -> (place: FieldOf<Status, bool>)
        ensures
            place.spec_offset() == 1,
    {
        FieldOf::at(1)
    }
}

/// The registers of the timer, in the order of their addresses.
pub struct RegisterBlock {
    pub mode: Rw<Mode>,
    pub alarm: Rw<u32>,
    pub value: Ro<u32>,
    pub status: Ro<Status>,
}

impl RegisterBlock {
    /// The number of bytes that the registers take.
    pub const SIZE: u32 = 0x10;

    /// The first register lies at `base` and each of the others right after
    /// the one before it.
    pub open spec fn laid_out_at(&self, base: u32) -> bool {
        &&& self.mode.start() == base
        &&& follows(&self.mode, &self.alarm)
        &&& follows(&self.alarm, &self.value)
        &&& follows(&self.value, &self.status)
    }

    /// The registers of a timer whose first register lies at `base`.
    pub fn new(base: u32) -> (block: RegisterBlock)
        requires
            base + RegisterBlock::SIZE <= u32::MAX,
        ensures
            block.laid_out_at(base),
            block.mode.address() == base,
            block.alarm.address() == base + 0x4,
            block.value.address() == base + 0x8,
            block.status.address() == base + 0xC,
    {
        let mut layout = Layout::new(base);
        let mode = layout.rw();
        let alarm = layout.rw();
        let value = layout.ro();
        let status = layout.ro();
        RegisterBlock { mode, alarm, value, status }
    }
}

/// What the status register showed.
#[derive(Clone, Copy, Debug, PartialEq, Eq, Structural)]
pub struct TimerStatus {
    pub alarm: bool,
    pub timer_increment: bool,
}

/// The real-time timer of the chip.
pub struct RealTimeTimer {
    register_block: RegisterBlock,
}

impl RealTimeTimer {
    /// The address of the timer's first register.
    pub const ADDRESS: u32 = 0x400E_1A30;

    /// The prescaler value that makes a tick last about one millisecond.
    pub const APPROX_1MS_PRESCALER: u32 = 0x20;

    /// The timer's registers.
    pub closed spec fn block(&self) -> RegisterBlock {
        self.register_block
    }

    /// The registers lie where the chip has them.
    pub open spec fn wf(&self) -> bool {
        self.block().laid_out_at(RealTimeTimer::ADDRESS)
    }

    /// The timer at its address on the chip.
    pub fn new() -> (timer: RealTimeTimer)
        ensures
            timer.wf(),
    {
        RealTimeTimer { register_block: RegisterBlock::new(RealTimeTimer::ADDRESS) }
    }

    /// The timer's registers, for their addresses.
    pub fn registers(&self) -> (block: &RegisterBlock)
        ensures
            *block == self.block(),
    {
        &self.register_block
    }

    /// The store that sets the prescaler to `value` and leaves the rest of
    /// the mode register as `mode`, the word loaded from it, has it.
    pub fn set_prescaler(&self, mode: u32, value: u16) -> (store: Store)
        ensures
            store == (Store {
                address: self.block().mode.address(),
                word: field::spec_merge(0, 16, mode, value as u32),
            }),
    {
        let place = Mode::prescaler();
        let update = |w: RegisterWriter<Mode>| -> (built: RegisterWriter<Mode>)
            ensures
                built.value == place.spec_set(w.value, value),
            {
                w.with(&place, value)
            };
        self.register_block.mode.set_fields(mode, update)
    }

    /// The store that lets an alarm raise an interrupt and leaves the rest
    /// of the mode register as `mode`, the word loaded from it, has it.
    pub fn enable_alarm(&self, mode: u32) -> (store: Store)
        ensures
            store == (Store {
                address: self.block().mode.address(),
                word: field::spec_merge(16, 1, mode, 1),
            }),
    {
        let place = Mode::alarm_interrupt();
        let update = |w: RegisterWriter<Mode>| -> (built: RegisterWriter<Mode>)
            ensures
                built.value == place.spec_set(w.value, true),
            {
                w.with(&place, true)
            };
        self.register_block.mode.set_fields(mode, update)
    }

    /// The store that keeps an alarm from raising an interrupt and leaves
    /// the rest of the mode register as `mode` has it.
    pub fn disable_alarm(&self, mode: u32) -> (store: Store)
        ensures
            store == (Store {
                address: self.block().mode.address(),
                word: field::spec_merge(16, 1, mode, 0),
            }),
    {
        let place = Mode::alarm_interrupt();
        let update = |w: RegisterWriter<Mode>| -> (built: RegisterWriter<Mode>)
            ensures
                built.value == place.spec_set(w.value, false),
            {
                w.with(&place, false)
            };
        self.register_block.mode.set_fields(mode, update)
    }

    /// The store that lets each tick raise an interrupt and leaves the rest
    /// of the mode register as `mode` has it.
    pub fn enable_increment_interrupt(&self, mode: u32) -> (store: Store)
        ensures
            store == (Store {
                address: self.block().mode.address(),
                word: field::spec_merge(17, 1, mode, 1),
            }),
    {
        let place = Mode::increment_interrupt();
        let update = |w: RegisterWriter<Mode>| -> (built: RegisterWriter<Mode>)
            ensures
                built.value == place.spec_set(w.value, true),
            {
                w.with(&place, true)
            };
        self.register_block.mode.set_fields(mode, update)
    }

    /// The store that keeps ticks from raising interrupts and leaves the
    /// rest of the mode register as `mode` has it.
    pub fn disable_increment_interrupt(&self, mode: u32) -> (store: Store)
        ensures
            store == (Store {
                address: self.block().mode.address(),
                word: field::spec_merge(17, 1, mode, 0),
            }),
    {
        let place = Mode::increment_interrupt();
        let update = |w: RegisterWriter<Mode>| -> (built: RegisterWriter<Mode>)
            ensures
                built.value == place.spec_set(w.value, false),
            {
                w.with(&place, false)
            };
        self.register_block.mode.set_fields(mode, update)
    }

    /// The store that restarts the counter from zero and leaves the rest of
    /// the mode register as `mode` has it.
    pub fn restart(&self, mode: u32) -> (store: Store)
        ensures
            store == (Store {
                address: self.block().mode.address(),
                word: field::spec_merge(18, 1, mode, 1),
            }),
    {
        let place = Mode::restart();
        let update = |w: RegisterWriter<Mode>| -> (built: RegisterWriter<Mode>)
            ensures
                built.value == place.spec_set(w.value, true),
            {
                w.with(&place, true)
            };
        self.register_block.mode.set_fields(mode, update)
    }

    /// The store that sets the alarm value.
    pub fn set_alarm(&self, value: u32) -> (store: Store)
        ensures
            store == (Store { address: self.block().alarm.address(), word: value }),
    {
        self.register_block.alarm.write(value)
    }

    /// The load that gives the number of ticks counted: the word of the
    /// value register.
    pub fn get_time(&self) -> (load: Load)
        ensures
            load == (Load { address: self.block().value.address() }),
    {
        self.register_block.value.load()
    }

    /// What `word`, loaded from the status register, shows.
    pub fn get_status(&self, word: u32) -> (status: TimerStatus)
        ensures
            status.alarm == field::bit_is_set(word, 0),
            status.timer_increment == field::bit_is_set(word, 1),
    {
        proof {
            field::lemma_fill_values();
        }
        let timer_status = self.register_block.status.read(word);
        TimerStatus {
            alarm: timer_status.field(&Status::alarm()),
            timer_increment: timer_status.field(&Status::timer_increment()),
        }
    }
}

} // verus!
