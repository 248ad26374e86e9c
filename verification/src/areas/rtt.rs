//! The real-time timer: a free-running 32-bit counter behind a prescaler.
//!
//! | register | offset | fields |
//! |----------|--------|--------|
//! | mode     | 0x0    | prescaler: 16 bits at 0; alarm interrupt: bit 16; increment interrupt: bit 17; restart: bit 18 |
//! | alarm    | 0x4    | the value to compare the counter with |
//! | value    | 0x8    | the counter, read-only |
//! | status   | 0xC    | alarm: bit 0; increment: bit 1; read-only |

use super::{ReadRegister, ReadWriteRegister, RegisterAreas};
use crate::field;
use vstd::prelude::*;

verus! {

/// The fields of the mode register.
#[derive(Clone, Copy, Debug, PartialEq, Eq, Structural)]
pub enum ModeAreas {
    /// The number of slow-clock periods per tick of the counter.
    Prescaler,
    /// Whether an alarm raises an interrupt.
    AlarmInterrupt,
    /// Whether a tick of the counter raises an interrupt.
    IncrementInterrupt,
    /// Written as one, reloads the prescaler and sets the counter to zero.
    TimerRestart,
}

impl RegisterAreas for ModeAreas {
    open spec fn spec_offset(&self) -> u32 {
        match self {
            ModeAreas::Prescaler => 0,
            ModeAreas::AlarmInterrupt => 16,
            ModeAreas::IncrementInterrupt => 17,
            ModeAreas::TimerRestart => 18,
        }
    }

    open spec fn spec_size(&self) -> u32 {
        match self {
            ModeAreas::Prescaler => 16,
            ModeAreas::AlarmInterrupt => 1,
            ModeAreas::IncrementInterrupt => 1,
            ModeAreas::TimerRestart => 1,
        }
    }

    proof fn lemma_fits(&self) {
    }

    fn offset(&self) -> (offset: u32) {
        match self {
            ModeAreas::Prescaler => 0,
            ModeAreas::AlarmInterrupt => 16,
            ModeAreas::IncrementInterrupt => 17,
            ModeAreas::TimerRestart => 18,
        }
    }

    fn size(&self) -> (size: u32) {
        match self {
            ModeAreas::Prescaler => 16,
            ModeAreas::AlarmInterrupt => 1,
            ModeAreas::IncrementInterrupt => 1,
            ModeAreas::TimerRestart => 1,
        }
    }
}

impl ModeAreas {
    /// Two different fields of the register share no bit.
    pub proof fn lemma_areas_apart(one: ModeAreas, other: ModeAreas)
        requires
            one != other,
        ensures
            field::spec_mask(one.spec_offset(), one.spec_size()) & field::spec_mask(
                other.spec_offset(),
                other.spec_size(),
            ) == 0,
    {
        field::lemma_apart_masks(
            one.spec_offset(),
            one.spec_size(),
            other.spec_offset(),
            other.spec_size(),
        );
    }
}

/// The fields of the status register.
#[derive(Clone, Copy, Debug, PartialEq, Eq, Structural)]
pub enum StatusAreas {
    /// Whether the counter has reached the alarm value since the last read.
    AlarmStatus,
    /// Whether the counter has ticked since the last read.
    Increment,
}

impl RegisterAreas for StatusAreas {
    open spec fn spec_offset(&self) -> u32 {
        match self {
            StatusAreas::AlarmStatus => 0,
            StatusAreas::Increment => 1,
        }
    }

    open spec fn spec_size(&self) -> u32 {
        1
    }

    proof fn lemma_fits(&self) {
    }

    fn offset(&self) -> (offset: u32) {
        match self {
            StatusAreas::AlarmStatus => 0,
            StatusAreas::Increment => 1,
        }
    }

    fn size(&self) -> (size: u32) {
        1
    }
}

impl StatusAreas {
    /// Two different fields of the register share no bit.
    pub proof fn lemma_areas_apart(one: StatusAreas, other: StatusAreas)
        requires
            one != other,
        ensures
            field::spec_mask(one.spec_offset(), one.spec_size()) & field::spec_mask(
                other.spec_offset(),
                other.spec_size(),
            ) == 0,
    {
        field::lemma_apart_masks(
            one.spec_offset(),
            one.spec_size(),
            other.spec_offset(),
            other.spec_size(),
        );
    }
}

/// The registers of the real-time timer.
pub struct Rtt {
    pub mode: ReadWriteRegister<ModeAreas>,
    pub alarm: ReadWriteRegister<u32>,
    pub value: ReadRegister<u32>,
    pub status: ReadRegister<StatusAreas>,
}

impl Rtt {
    /// The address of the timer's first register.
    pub const ADDRESS: u32 = 0x400E_1A30;

    /// The registers lie where the chip has them.
    pub open spec fn wf(&self) -> bool {
        &&& self.mode.address() == Rtt::ADDRESS
        &&& self.alarm.address() == Rtt::ADDRESS + 0x4
        &&& self.value.address() == Rtt::ADDRESS + 0x8
        &&& self.status.address() == Rtt::ADDRESS + 0xC
    }

    /// The timer at its address on the chip.
    pub fn new() -> (timer: Rtt)
        ensures
            timer.wf(),
    {
        Rtt {
            mode: ReadWriteRegister::new(Rtt::ADDRESS),
            alarm: ReadWriteRegister::new(Rtt::ADDRESS + 0x4),
            value: ReadRegister::new(Rtt::ADDRESS + 0x8),
            status: ReadRegister::new(Rtt::ADDRESS + 0xC),
        }
    }
}

/// The real-time timer of the chip.
pub fn rtt() -> (timer: Rtt)
    ensures
        timer.wf(),
{
    Rtt::new()
}

} // verus!
