//! Word-level access to registers whose fields are named by enumerations.
//!
//! Each register has a type of areas: one value for each of its fields,
//! which tells the field's offset and size. The accessors hold the address
//! of a register and give the loads and stores for it.

use crate::bus::{Load, Store};
use crate::field;
use std::marker::PhantomData;
use vstd::prelude::*;

pub mod pio;
pub mod pmc;
pub mod rtt;

verus! {

/// The fields of one register.
pub trait RegisterAreas {
    /// Index of the lowest bit of the field.
    spec fn spec_offset(&self) -> u32;

    /// The number of bits of the field.
    spec fn spec_size(&self) -> u32;

    /// Every field lies inside one word.
    proof fn lemma_fits(&self)
        ensures
            field::spec_fits(self.spec_offset(), self.spec_size()),
    ;

    /// Index of the lowest bit of the field.
    fn offset(&self) -> (offset: u32)
        ensures
            offset == self.spec_offset(),
    ;

    /// The number of bits of the field.
    fn size(&self) -> (size: u32)
        ensures
            size == self.spec_size(),
    ;

    /// The value that the word `value` carries in the field.
    fn extract(&self, value: u32) -> (bits: u32)
        ensures
            bits == field::spec_decode(self.spec_offset(), self.spec_size(), value),
    {
        proof {
            self.lemma_fits();
        }
        (value >> self.offset()) & field::fill(self.size())
    }

    /// The word that carries `value` in the field and zero elsewhere. Bits
    /// of `value` above the field's size are dropped.
    fn insert(&self, value: u32) -> (bits: u32)
        ensures
            bits == field::spec_encode(self.spec_offset(), self.spec_size(), value),
    {
        proof {
            self.lemma_fits();
        }
        (value & field::fill(self.size())) << self.offset()
    }

    /// The bits that the field occupies.
    fn mask(&self) -> (bits: u32)
        ensures
            bits == field::spec_mask(self.spec_offset(), self.spec_size()),
    {
        proof {
            self.lemma_fits();
        }
        field::fill(self.size()) << self.offset()
    }
}

/// What was inserted into a field is what is extracted from it, for every
/// value that has no more bits than the field.
pub proof fn lemma_insert_then_extract<T: RegisterAreas>(area: &T, value: u32)
    requires
        value <= field::spec_fill(area.spec_size()),
    ensures
        field::spec_decode(
            area.spec_offset(),
            area.spec_size(),
            field::spec_encode(area.spec_offset(), area.spec_size(), value),
        ) == value,
{
    area.lemma_fits();
    field::lemma_encode_then_decode(area.spec_offset(), area.spec_size(), value);
}

/// A register without fields: the one area is the whole word.
impl RegisterAreas for u32 {
    open spec fn spec_offset(&self) -> u32 {
        0
    }

    open spec fn spec_size(&self) -> u32 {
        32
    }

    proof fn lemma_fits(&self) {
    }

    fn offset(&self) -> (offset: u32) {
        0
    }

    fn size(&self) -> (size: u32) {
        32
    }

    fn extract(&self, value: u32) -> (bits: u32) {
        proof {
            field::lemma_whole_word(value);
        }
        value
    }

    fn insert(&self, value: u32) -> (bits: u32) {
        proof {
            field::lemma_whole_word(value);
        }
        value
    }

    fn mask(&self) -> (bits: u32) {
        proof {
            field::lemma_whole_word(0);
        }
        0xffff_ffff
    }
}

/// A register that can only be read.
pub struct ReadRegister<T: RegisterAreas> {
    offset: u32,
    _marker: PhantomData<T>,
}

impl<T: RegisterAreas> ReadRegister<T> {
    pub closed spec fn spec_address(&self) -> u32 {
        self.offset
    }

    /// The read-only register at the address `offset`.
    pub fn new(offset: u32) -> (register: ReadRegister<T>)
        ensures
            register.address() == offset,
    {
        ReadRegister { offset, _marker: PhantomData }
    }

    /// The address of the register.
    #[verifier::when_used_as_spec(spec_address)]
    pub fn address(&self) -> (address: u32)
        ensures
            address == self.spec_address(),
    {
        self.offset
    }

    /// The load of the register's word.
    pub fn read(&self) -> (load: Load)
        ensures
            load == (Load { address: self.address() }),
    {
        Load { address: self.offset }
    }

    /// The value that `word`, loaded from the register, carries in a field.
    pub fn read_area(&self, area: T, word: u32) -> (value: u32)
        ensures
            value == field::spec_decode(area.spec_offset(), area.spec_size(), word),
    {
        area.extract(word)
    }
}

/// A register that can only be written.
pub struct WriteRegister<T: RegisterAreas> {
    offset: u32,
    _marker: PhantomData<T>,
}

impl<T: RegisterAreas> WriteRegister<T> {
    pub closed spec fn spec_address(&self) -> u32 {
        self.offset
    }

    /// The write-only register at the address `offset`.
    pub fn new(offset: u32) -> (register: WriteRegister<T>)
        ensures
            register.address() == offset,
    {
        WriteRegister { offset, _marker: PhantomData }
    }

    /// The address of the register.
    #[verifier::when_used_as_spec(spec_address)]
    pub fn address(&self) -> (address: u32)
        ensures
            address == self.spec_address(),
    {
        self.offset
    }

    /// The store of `value` to the register.
    pub fn write(&self, value: u32) -> (store: Store)
        ensures
            store == (Store { address: self.address(), word: value }),
    {
        Store { address: self.offset, word: value }
    }

    /// The store of the word that has `value` in one field and zero in
    /// every other.
    pub fn write_area(&self, area: T, value: u32) -> (store: Store)
        ensures
            store == (Store {
                address: self.address(),
                word: field::spec_encode(area.spec_offset(), area.spec_size(), value),
            }),
    {
        Store { address: self.offset, word: area.insert(value) }
    }
}

/// A register that can be read and written.
pub struct ReadWriteRegister<T: RegisterAreas> {
    offset: u32,
    _marker: PhantomData<T>,
}

impl<T: RegisterAreas> ReadWriteRegister<T> {
    pub closed spec fn spec_address(&self) -> u32 {
        self.offset
    }

    /// The read-write register at the address `offset`.
    pub fn new(offset: u32) -> (register: ReadWriteRegister<T>)
        ensures
            register.address() == offset,
    {
        ReadWriteRegister { offset, _marker: PhantomData }
    }

    /// The address of the register.
    #[verifier::when_used_as_spec(spec_address)]
    pub fn address(&self) -> (address: u32)
        ensures
            address == self.spec_address(),
    {
        self.offset
    }

    /// The load of the register's word.
    pub fn read(&self) -> (load: Load)
        ensures
            load == (Load { address: self.address() }),
    {
        Load { address: self.offset }
    }

    /// The value that `word`, loaded from the register, carries in a field.
    pub fn read_area(&self, area: T, word: u32) -> (value: u32)
        ensures
            value == field::spec_decode(area.spec_offset(), area.spec_size(), word),
    {
        area.extract(word)
    }

    /// The store of `value` to the register.
    pub fn write(&self, value: u32) -> (store: Store)
        ensures
            store == (Store { address: self.address(), word: value }),
    {
        Store { address: self.offset, word: value }
    }

    /// The second half of a read-modify-write of one field: the store of
    /// `word`, which was loaded from the register, with `value` in that
    /// field. Nothing makes load and store atomic; the pair is safe where a
    /// single thread of control runs without interrupts.
    pub fn write_area(&self, area: T, word: u32, value: u32) -> (store: Store)
        ensures
            store == (Store {
                address: self.address(),
                word: field::spec_merge(area.spec_offset(), area.spec_size(), word, value),
            }),
    {
        self.write((word & !area.mask()) | area.insert(value))
    }
}

/// Three registers for one set of bits: a store to the first sets bits, a
/// store to the second clears bits, and the third shows the bits. The
/// second lies 4 bytes and the third 8 bytes after the first.
pub struct SetResetStatusRegister<T: RegisterAreas> {
    pub set: WriteRegister<T>,
    pub reset: WriteRegister<T>,
    pub status: ReadRegister<T>,
}

impl<T: RegisterAreas> SetResetStatusRegister<T> {
    /// The three registers that start at the address `offset`.
    pub fn new(offset: u32) -> (group: SetResetStatusRegister<T>)
        requires
            offset + 8 <= u32::MAX,
        ensures
            group.set.address() == offset,
            group.reset.address() == offset + 4,
            group.status.address() == offset + 8,
    {
        SetResetStatusRegister {
            set: WriteRegister::new(offset),
            reset: WriteRegister::new(offset + 4),
            status: ReadRegister::new(offset + 8),
        }
    }

    /// The load of the status register's word.
    pub fn read(&self) -> (load: Load)
        ensures
            load == (Load { address: self.status.address() }),
    {
        self.status.read()
    }

    /// The value that `word`, loaded from the status register, carries in
    /// a field.
    pub fn read_area(&self, area: T, word: u32) -> (value: u32)
        ensures
            value == field::spec_decode(area.spec_offset(), area.spec_size(), word),
    {
        self.status.read_area(area, word)
    }

    /// The store that sets the bits of `bits`.
    pub fn set_bits(&self, bits: u32) -> (store: Store)
        ensures
            store == (Store { address: self.set.address(), word: bits }),
    {
        self.set.write(bits)
    }

    /// The store that sets the bits of `value` in one field.
    pub fn set_area(&self, area: T, value: u32) -> (store: Store)
        ensures
            store == (Store {
                address: self.set.address(),
                word: field::spec_encode(area.spec_offset(), area.spec_size(), value),
            }),
    {
        self.set.write(area.insert(value))
    }

    /// The store that clears the bits of `bits`.
    pub fn reset_bits(&self, bits: u32) -> (store: Store)
        ensures
            store == (Store { address: self.reset.address(), word: bits }),
    {
        self.reset.write(bits)
    }

    /// The store that clears the bits of `value` in one field.
    pub fn reset_area(&self, area: T, value: u32) -> (store: Store)
        ensures
            store == (Store {
                address: self.reset.address(),
                word: field::spec_encode(area.spec_offset(), area.spec_size(), value),
            }),
    {
        self.reset.write(area.insert(value))
    }

    /// The two stores that make the bits equal to `bits`, in the order in
    /// which they are to be issued: the store that sets the bits of `bits`,
    /// then the store that clears all others.
    pub fn write(&self, bits: u32) -> (stores: (Store, Store))
        ensures
            stores.0 == (Store { address: self.set.address(), word: bits }),
            stores.1 == (Store { address: self.reset.address(), word: !bits }),
    {
        (self.set.write(bits), self.reset.write(!bits))
    }

    /// The two stores that give one field the value `value`, in the order
    /// in which they are to be issued: the store that sets the bits of the
    /// encoded value, then the store that clears the field's other bits.
    /// Both are issued on every call, whatever the value is, and nothing
    /// makes the pair atomic.
    pub fn write_area(&self, area: T, value: u32) -> (stores: (Store, Store))
        ensures
            stores.0 == (Store {
                address: self.set.address(),
                word: field::spec_encode(area.spec_offset(), area.spec_size(), value)
                    & field::spec_mask(area.spec_offset(), area.spec_size()),
            }),
            stores.1 == (Store {
                address: self.reset.address(),
                word: field::spec_mask(area.spec_offset(), area.spec_size()) & !field::spec_encode(
                    area.spec_offset(),
                    area.spec_size(),
                    value,
                ),
            }),
            stores.0.word == field::spec_encode(area.spec_offset(), area.spec_size(), value),
    {
        proof {
            area.lemma_fits();
            field::lemma_encode_stays_in_mask(area.spec_offset(), area.spec_size(), value);
        }
        let bits = area.insert(value);
        let mask = area.mask();
        (self.set.write(bits & mask), self.reset.write(mask & !bits))
    }
}

/// The peripherals of the chip, each to be taken once by the part of the
/// program that drives it.
pub struct Peripherals {
    rtt: Option<rtt::Rtt>,
    pmc: Option<pmc::Pmc>,
    pio_a: Option<pio::Pio>,
    pio_b: Option<pio::Pio>,
    pio_c: Option<pio::Pio>,
    pio_d: Option<pio::Pio>,
}

impl Peripherals {
    #[verifier::type_invariant]
    spec fn holds_the_chips_peripherals(self) -> bool {
        &&& self.rtt.is_some() ==> self.rtt.unwrap().wf()
        &&& self.pmc.is_some() ==> self.pmc.unwrap().wf()
        &&& self.pio_a.is_some() ==> self.pio_a.unwrap().laid_out_at(0x400E_0E00)
        &&& self.pio_b.is_some() ==> self.pio_b.unwrap().laid_out_at(0x400E_1000)
        &&& self.pio_c.is_some() ==> self.pio_c.unwrap().laid_out_at(0x400E_1200)
        &&& self.pio_d.is_some() ==> self.pio_d.unwrap().laid_out_at(0x400E_1400)
    }

    /// Whether each peripheral is still there to be taken, in the order
    /// timer, power management controller, parallel I/O controllers A to D.
    pub closed spec fn left(&self) -> Seq<bool> {
        seq![
            self.rtt.is_some(),
            self.pmc.is_some(),
            self.pio_a.is_some(),
            self.pio_b.is_some(),
            self.pio_c.is_some(),
            self.pio_d.is_some(),
        ]
    }

    /// The peripherals of the chip, none of them taken.
    pub fn new() -> (all: Peripherals)
        ensures
            all.left() == seq![true, true, true, true, true, true],
    {
        Peripherals {
            rtt: Some(rtt::rtt()),
            pmc: Some(pmc::pmc()),
            pio_a: Some(pio::pio_a()),
            pio_b: Some(pio::pio_b()),
            pio_c: Some(pio::pio_c()),
            pio_d: Some(pio::pio_d()),
        }
    }

    /// Whether each peripheral is still there to be taken, in the order
    /// timer, power management controller, parallel I/O controllers A to D.
    pub fn available(&self) -> (left: [bool; 6])
        ensures
            left@ == self.left(),
    {
        [
            self.rtt.is_some(),
            self.pmc.is_some(),
            self.pio_a.is_some(),
            self.pio_b.is_some(),
            self.pio_c.is_some(),
            self.pio_d.is_some(),
        ]
    }

    /// Takes the real-time timer. It can be taken once.
    pub fn rtt(&mut self) -> (taken: rtt::Rtt)
        requires
            old(self).left()[0],
        ensures
            final(self).left() == old(self).left().update(0, false),
            taken.wf(),
    {
        proof {
            use_type_invariant(&*self);
        }
        let mut slot: Option<rtt::Rtt> = None;
        std::mem::swap(&mut self.rtt, &mut slot);
        slot.unwrap()
    }

    /// Takes the power management controller. It can be taken once.
    pub fn pmc(&mut self) -> (taken: pmc::Pmc)
        requires
            old(self).left()[1],
        ensures
            final(self).left() == old(self).left().update(1, false),
            taken.wf(),
    {
        proof {
            use_type_invariant(&*self);
        }
        let mut slot: Option<pmc::Pmc> = None;
        std::mem::swap(&mut self.pmc, &mut slot);
        slot.unwrap()
    }

    /// Takes the parallel I/O controller A. It can be taken once.
    pub fn pio_a(&mut self) -> (taken: pio::Pio)
        requires
            old(self).left()[2],
        ensures
            final(self).left() == old(self).left().update(2, false),
            taken.laid_out_at(0x400E_0E00),
    {
        proof {
            use_type_invariant(&*self);
        }
        let mut slot: Option<pio::Pio> = None;
        std::mem::swap(&mut self.pio_a, &mut slot);
        slot.unwrap()
    }

    /// Takes the parallel I/O controller B. It can be taken once.
    pub fn pio_b(&mut self) -> (taken: pio::Pio)
        requires
            old(self).left()[3],
        ensures
            final(self).left() == old(self).left().update(3, false),
            taken.laid_out_at(0x400E_1000),
    {
        proof {
            use_type_invariant(&*self);
        }
        let mut slot: Option<pio::Pio> = None;
        std::mem::swap(&mut self.pio_b, &mut slot);
        slot.unwrap()
    }

    /// Takes the parallel I/O controller C. It can be taken once.
    pub fn pio_c(&mut self) -> (taken: pio::Pio)
        requires
            old(self).left()[4],
        ensures
            final(self).left() == old(self).left().update(4, false),
            taken.laid_out_at(0x400E_1200),
    {
        proof {
            use_type_invariant(&*self);
        }
        let mut slot: Option<pio::Pio> = None;
        std::mem::swap(&mut self.pio_c, &mut slot);
        slot.unwrap()
    }

    /// Takes the parallel I/O controller D. It can be taken once.
    pub fn pio_d(&mut self) -> (taken: pio::Pio)
        requires
            old(self).left()[5],
        ensures
            final(self).left() == old(self).left().update(5, false),
            taken.laid_out_at(0x400E_1400),
    {
        proof {
            use_type_invariant(&*self);
        }
        let mut slot: Option<pio::Pio> = None;
        std::mem::swap(&mut self.pio_d, &mut slot);
        slot.unwrap()
    }
}

} // verus!
