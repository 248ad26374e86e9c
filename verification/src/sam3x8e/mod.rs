//! Typed access to the peripheral registers of the SAM3X8E.
//!
//! A register is known by its address and by a marker type that names its
//! layout. The fields of a register are values of `FieldOf`, which fix the
//! place of a field and the type of what it carries. Readers and writers
//! interpret and build register words; the accessors `Ro`, `Wo`, `Rw`, `Srs`
//! and `Sr` turn them into the stores that have to be issued.

use crate::bus::{Load, Store};
use crate::field;
use std::marker::PhantomData;
use vstd::prelude::*;
use vstd::std_specs::convert::FromSpecImpl;

pub mod pmc;
pub mod rtt;
pub mod special_ints;

verus! {

/// Marks a type that names the layout of one register.
pub trait RegisterType {

}

impl RegisterType for bool {

}

impl RegisterType for u32 {

}

/// A type of values that a field can carry, with its encoding.
pub trait RegisterField: Sized {
    /// The lowest bits of a word, as many as a value takes.
    const MASK: u32;

    /// The number of bits that a value takes.
    spec fn spec_width() -> u32;

    /// Whether the value is told apart from every other by its bit pattern.
    spec fn distinct(self) -> bool;

    /// The bit pattern of a value.
    spec fn spec_into_u32(self) -> u32;

    /// The value of a bit pattern, where the pattern is known.
    spec fn spec_from_u32(value: u32) -> Self;

    /// Whether a bit pattern stands for a value.
    spec fn known(value: u32) -> bool;

    /// A value takes between 1 and 32 bits, and `MASK` has that many.
    proof fn lemma_width()
        ensures
            1 <= Self::spec_width() <= 32,
            Self::MASK == field::spec_fill(Self::spec_width()),
    ;

    /// The pattern of a value fits the width, is known, and stands for
    /// that value.
    proof fn lemma_into_then_from(self)
        requires
            self.distinct(),
        ensures
            self.spec_into_u32() <= Self::MASK,
            Self::known(self.spec_into_u32()),
            Self::spec_from_u32(self.spec_into_u32()) == self,
    ;

    /// The bit pattern of the value.
    fn into_u32(self) -> (bits: u32)
        ensures
            bits == self.spec_into_u32(),
    ;

    /// The value that a bit pattern stands for. A pattern without a value
    /// shows that the register does not hold what its layout says, and
    /// nothing can be decoded from it.
    fn from_u32(value: u32) -> (decoded: Self)
        requires
            Self::known(value),
        ensures
            decoded == Self::spec_from_u32(value),
    ;

    /// Whether a bit pattern stands for a value.
    fn is_known(value: u32) -> (known: bool)
        ensures
            known == Self::known(value),
    ;
}

impl RegisterField for bool {
    const MASK: u32 = 1;

    open spec fn spec_width() -> u32 {
        1
    }

    open spec fn distinct(self) -> bool {
        true
    }

    open spec fn spec_into_u32(self) -> u32 {
        if self {
            1
        } else {
            0
        }
    }

    open spec fn spec_from_u32(value: u32) -> bool {
        value == 1
    }

    open spec fn known(value: u32) -> bool {
        true
    }

    proof fn lemma_width() {
        field::lemma_fill_values();
    }

    proof fn lemma_into_then_from(self) {
    }

    fn into_u32(self) -> (bits: u32) {
        if self {
            1
        } else {
            0
        }
    }

    fn from_u32(value: u32) -> (decoded: bool) {
        value == 1
    }

    fn is_known(value: u32) -> (known: bool) {
        true
    }
}

impl RegisterField for u16 {
    const MASK: u32 = 0xffff;

    open spec fn spec_width() -> u32 {
        16
    }

    open spec fn distinct(self) -> bool {
        true
    }

    open spec fn spec_into_u32(self) -> u32 {
        self as u32
    }

    open spec fn spec_from_u32(value: u32) -> u16 {
        (value & 0xffff) as u16
    }

    open spec fn known(value: u32) -> bool {
        true
    }

    proof fn lemma_width() {
        field::lemma_fill_values();
    }

    proof fn lemma_into_then_from(self) {
        field::lemma_fill_values();
        field::lemma_cut_keeps_small(self as u32, 16);
    }

    fn into_u32(self) -> (bits: u32) {
        self as u32
    }

    fn from_u32(value: u32) -> (decoded: u16) {
        proof {
            field::lemma_fill_values();
            field::lemma_cut_is_bounded(value, 16);
        }
        (value & 0xffff) as u16
    }

    fn is_known(value: u32) -> (known: bool) {
        true
    }
}

impl RegisterField for u8 {
    const MASK: u32 = 0xff;

    open spec fn spec_width() -> u32 {
        8
    }

    open spec fn distinct(self) -> bool {
        true
    }

    open spec fn spec_into_u32(self) -> u32 {
        self as u32
    }

    open spec fn spec_from_u32(value: u32) -> u8 {
        (value & 0xff) as u8
    }

    open spec fn known(value: u32) -> bool {
        true
    }

    proof fn lemma_width() {
        field::lemma_fill_values();
    }

    proof fn lemma_into_then_from(self) {
        field::lemma_fill_values();
        field::lemma_cut_keeps_small(self as u32, 8);
    }

    fn into_u32(self) -> (bits: u32) {
        self as u32
    }

    fn from_u32(value: u32) -> (decoded: u8) {
        proof {
            field::lemma_fill_values();
            field::lemma_cut_is_bounded(value, 8);
        }
        (value & 0xff) as u8
    }

    fn is_known(value: u32) -> (known: bool) {
        true
    }
}

/// The place of one field in the register `R`, and the type `V` of what
/// the field carries. The field starts at bit `offset` and is as wide as
/// `V` says.
pub struct FieldOf<R: RegisterType, V: RegisterField> {
    offset: u32,
    _register: PhantomData<R>,
    _value: PhantomData<V>,
}

impl<R: RegisterType, V: RegisterField> FieldOf<R, V> {
    #[verifier::type_invariant]
    spec fn lies_in_word(self) -> bool {
        self.offset + V::spec_width() <= 32
    }

    /// Index of the lowest bit of the field.
    pub closed spec fn spec_offset(self) -> u32 {
        self.offset
    }

    /// The number of bits of the field.
    pub open spec fn spec_width(self) -> u32 {
        V::spec_width()
    }

    /// The field lies inside one word.
    pub open spec fn wf(self) -> bool {
        self.spec_offset() + V::spec_width() <= 32
    }

    pub open spec fn spec_mask(self) -> u32 {
        field::spec_mask(self.spec_offset(), V::spec_width())
    }

    /// The value that `word` carries in this field.
    pub open spec fn spec_get(self, word: u32) -> V {
        V::spec_from_u32(field::spec_decode(self.spec_offset(), V::spec_width(), word))
    }

    /// The word that carries `value` in this field and zero elsewhere.
    pub open spec fn spec_encode(self, value: V) -> u32 {
        field::spec_encode(self.spec_offset(), V::spec_width(), value.spec_into_u32())
    }

    /// `word` with this field replaced by `value`.
    pub open spec fn spec_set(self, word: u32, value: V) -> u32 {
        field::spec_merge(self.spec_offset(), V::spec_width(), word, value.spec_into_u32())
    }

    /// Whether what `word` carries in this field stands for a value.
    pub open spec fn readable(self, word: u32) -> bool {
        V::known(field::spec_decode(self.spec_offset(), V::spec_width(), word))
    }

    /// The field that starts at bit `offset`.
    pub fn at(offset: u32) -> (place: Self)
        requires
            offset + V::spec_width() <= 32,
        ensures
            place.spec_offset() == offset,
            place.wf(),
    {
        FieldOf { offset, _register: PhantomData, _value: PhantomData }
    }

    /// The field that starts at bit `offset`, if it lies inside a word.
    pub fn new(offset: u32) -> (place: Option<Self>)
        ensures
            place.is_some() <==> offset + V::spec_width() <= 32,
            place.is_some() ==> place.unwrap().spec_offset() == offset,
    {
        proof {
            V::lemma_width();
        }
        if offset < 32 && field::fill(32 - offset) >= V::MASK {
            proof {
                field::lemma_fill_orders_widths((32 - offset) as u32, V::spec_width());
            }
            Some(FieldOf { offset, _register: PhantomData, _value: PhantomData })
        } else {
            proof {
                if offset < 32 {
                    field::lemma_fill_orders_widths((32 - offset) as u32, V::spec_width());
                }
            }
            None
        }
    }

    /// Index of the lowest bit of the field.
    pub fn offset(&self) -> (offset: u32)
        ensures
            offset == self.spec_offset(),
            self.wf(),
    {
        proof {
            use_type_invariant(self);
        }
        self.offset
    }

    /// The bits that the field occupies.
    pub fn mask(&self) -> (bits: u32)
        ensures
            bits == self.spec_mask(),
    {
        proof {
            use_type_invariant(self);
            V::lemma_width();
        }
        V::MASK << self.offset
    }

    /// The pattern that `word` carries in this field.
    pub fn extract(&self, word: u32) -> (bits: u32)
        ensures
            bits == field::spec_decode(self.spec_offset(), V::spec_width(), word),
            bits <= V::MASK,
    {
        proof {
            use_type_invariant(self);
            V::lemma_width();
            field::lemma_decode_is_bounded(self.offset, V::spec_width(), word);
        }
        (word >> self.offset) & V::MASK
    }

    /// The word that carries `value` in this field and zero elsewhere. Bits
    /// of the value's pattern above the field's width are dropped.
    pub fn encode(&self, value: V) -> (bits: u32)
        ensures
            bits == self.spec_encode(value),
    {
        proof {
            use_type_invariant(self);
            V::lemma_width();
        }
        (value.into_u32() & V::MASK) << self.offset
    }

    /// `word` with this field replaced by `value`. Bits of the value's
    /// pattern above the field's width are dropped.
    pub fn insert(&self, word: u32, value: V) -> (merged: u32)
        ensures
            merged == self.spec_set(word, value),
    {
        proof {
            use_type_invariant(self);
            V::lemma_width();
        }
        (word & !(V::MASK << self.offset)) | ((value.into_u32() & V::MASK) << self.offset)
    }
}

/// Whatever a field held, after `value` is set in it the field reads as
/// `value`.
pub proof fn lemma_set_then_get<R: RegisterType, V: RegisterField>(
    place: FieldOf<R, V>,
    word: u32,
    value: V,
)
    requires
        place.wf(),
        value.distinct(),
    ensures
        place.readable(place.spec_set(word, value)),
        place.spec_get(place.spec_set(word, value)) == value,
{
    V::lemma_width();
    value.lemma_into_then_from();
    let bits = value.spec_into_u32();
    field::lemma_merge_sets_field(place.spec_offset(), V::spec_width(), word, bits);
    field::lemma_cut_keeps_small(bits, V::spec_width());
}

/// Setting one field leaves every bit outside that field as it was.
pub proof fn lemma_set_keeps_rest<R: RegisterType, V: RegisterField>(
    place: FieldOf<R, V>,
    word: u32,
    value: V,
)
    requires
        place.wf(),
    ensures
        place.spec_set(word, value) & !place.spec_mask() == word & !place.spec_mask(),
{
    V::lemma_width();
    field::lemma_merge_keeps_rest(
        place.spec_offset(),
        V::spec_width(),
        word,
        value.spec_into_u32(),
    );
}

/// A register word that was loaded, to be read field by field.
pub struct RegisterReader<T: RegisterType> {
    pub value: u32,
    pub _type: PhantomData<T>,
}

impl<T: RegisterType> RegisterReader<T> {
    /// A reader of the word zero.
    pub fn new() -> (reader: RegisterReader<T>)
        ensures
            reader.value == 0,
    {
        RegisterReader { value: 0, _type: PhantomData }
    }

    /// The value that the word carries in a field. The field's bits have
    /// to stand for a value.
    pub fn field<V: RegisterField>(&self, place: &FieldOf<T, V>) -> (value: V)
        requires
            place.readable(self.value),
        ensures
            value == place.spec_get(self.value),
    {
        V::from_u32(place.extract(self.value))
    }

    /// The value that the word carries in a field, or nothing if the
    /// field's bits stand for no value.
    pub fn try_field<V: RegisterField>(&self, place: &FieldOf<T, V>) -> (value: Option<V>)
        ensures
            value.is_some() <==> place.readable(self.value),
            value.is_some() ==> value.unwrap() == place.spec_get(self.value),
    {
        let bits = place.extract(self.value);
        if V::is_known(bits) {
            Some(V::from_u32(bits))
        } else {
            None
        }
    }
}

impl<T: RegisterType> From<u32> for RegisterReader<T> {
    fn from(value: u32) -> (reader: RegisterReader<T>)
        ensures
            reader.value == value,
    {
        RegisterReader { value, _type: PhantomData }
    }
}

impl<T: RegisterType> FromSpecImpl<u32> for RegisterReader<T> {
    open spec fn obeys_from_spec() -> bool {
        true
    }

    open spec fn from_spec(value: u32) -> RegisterReader<T> {
        RegisterReader { value, _type: PhantomData }
    }
}

impl RegisterReader<bool> {
    /// Whether the register holds the word one.
    pub fn get(self) -> (set: bool)
        ensures
            set == (self.value == 1),
    {
        self.value == 1
    }
}

/// A register word that is being built, field by field.
pub struct RegisterWriter<T: RegisterType> {
    pub value: u32,
    pub _type: PhantomData<T>,
}

impl<T: RegisterType> RegisterWriter<T> {
    /// A writer that starts from `value`.
    pub fn new(value: u32) -> (writer: RegisterWriter<T>)
        ensures
            writer.value == value,
    {
        RegisterWriter { value, _type: PhantomData }
    }

    /// The writer's starting point, for contracts.
    pub open spec fn starting_at(value: u32) -> RegisterWriter<T> {
        RegisterWriter { value, _type: PhantomData }
    }

    /// A writer whose word has `value` in one field and is otherwise as
    /// this writer's.
    pub fn with<V: RegisterField>(&self, place: &FieldOf<T, V>, value: V) -> (writer:
        RegisterWriter<T>)
        ensures
            writer.value == place.spec_set(self.value, value),
    {
        RegisterWriter { value: place.insert(self.value, value), _type: PhantomData }
    }
}

impl<T: RegisterType> From<RegisterWriter<T>> for u32 {
    fn from(value: RegisterWriter<T>) -> (word: u32)
        ensures
            word == value.value,
    {
        value.value
    }
}

impl<T: RegisterType> FromSpecImpl<RegisterWriter<T>> for u32 {
    open spec fn obeys_from_spec() -> bool {
        true
    }

    open spec fn from_spec(value: RegisterWriter<T>) -> u32 {
        value.value
    }
}

impl RegisterWriter<bool> {
    /// A writer of the word one for `true`, of zero for `false`.
    pub fn set(self, value: bool) -> (writer: RegisterWriter<bool>)
        ensures
            writer.value == value.spec_into_u32(),
    {
        RegisterWriter { value: value.into_u32(), _type: PhantomData }
    }
}

/// A register word that is being built together with the set of bits that
/// were given a value.
pub struct MaskedRegisterWriter<T: RegisterType> {
    pub value: u32,
    pub mask: u32,
    pub _type: PhantomData<T>,
}

impl<T: RegisterType> MaskedRegisterWriter<T> {
    /// A writer that has given no bit a value.
    pub fn new() -> (writer: MaskedRegisterWriter<T>)
        ensures
            writer == Self::untouched(),
    {
        MaskedRegisterWriter { value: 0, mask: 0, _type: PhantomData }
    }

    /// The writer that has given no bit a value, for contracts.
    pub open spec fn untouched() -> MaskedRegisterWriter<T> {
        MaskedRegisterWriter { value: 0, mask: 0, _type: PhantomData }
    }

    /// A writer whose word has `value` in one field, and whose mask has
    /// that field's bits besides those it had.
    pub fn with<V: RegisterField>(&self, place: &FieldOf<T, V>, value: V) -> (writer:
        MaskedRegisterWriter<T>)
        ensures
            writer.value == place.spec_set(self.value, value),
            writer.mask == self.mask | place.spec_mask(),
    {
        MaskedRegisterWriter {
            value: place.insert(self.value, value),
            mask: self.mask | place.mask(),
            _type: PhantomData,
        }
    }
}

impl MaskedRegisterWriter<bool> {
    /// A writer of the word one for `true`, of zero for `false`, that has
    /// given bit 0 a value.
    pub fn set(self, value: bool) -> (writer: MaskedRegisterWriter<bool>)
        ensures
            writer.value == value.spec_into_u32(),
            writer.mask == 1,
    {
        MaskedRegisterWriter { value: value.into_u32(), mask: 1, _type: PhantomData }
    }
}

/// A stretch of the address space of a peripheral: a register, a group of
/// registers, or a gap.
pub trait Region {
    /// The address of the first byte.
    spec fn start(&self) -> u32;

    /// The number of bytes.
    spec fn size(&self) -> nat;
}

/// `next` begins at the byte after the last byte of `first`.
pub open spec fn follows<A: Region, B: Region>(first: &A, next: &B) -> bool {
    next.start() == first.start() + first.size()
}

/// A register that can only be read.
pub struct Ro<T: RegisterType> {
    address: u32,
    _type: PhantomData<T>,
}

impl<T: RegisterType> Region for Ro<T> {
    open spec fn start(&self) -> u32 {
        self.spec_address()
    }

    open spec fn size(&self) -> nat {
        4
    }
}

impl<T: RegisterType> Ro<T> {
    pub closed spec fn spec_address(&self) -> u32 {
        self.address
    }

    /// The read-only register at `address`.
    pub fn new(address: u32) -> (register: Ro<T>)
        ensures
            register.address() == address,
    {
        Ro { address, _type: PhantomData }
    }

    /// The address to load from.
    #[verifier::when_used_as_spec(spec_address)]
    pub fn address(&self) -> (address: u32)
        ensures
            address == self.spec_address(),
    {
        self.address
    }

    /// The load of this register's word.
    pub fn load(&self) -> (load: Load)
        ensures
            load == (Load { address: self.address() }),
    {
        Load { address: self.address }
    }

    /// A reader of `word`, which was loaded from this register.
    pub fn read(&self, word: u32) -> (reader: RegisterReader<T>)
        ensures
            reader.value == word,
    {
        RegisterReader { value: word, _type: PhantomData }
    }
}

/// A register that can only be written.
pub struct Wo<T: RegisterType> {
    address: u32,
    _type: PhantomData<T>,
}

impl<T: RegisterType> Region for Wo<T> {
    open spec fn start(&self) -> u32 {
        self.spec_address()
    }

    open spec fn size(&self) -> nat {
        4
    }
}

impl<T: RegisterType> Wo<T> {
    pub closed spec fn spec_address(&self) -> u32 {
        self.address
    }

    /// The write-only register at `address`.
    pub fn new(address: u32) -> (register: Wo<T>)
        ensures
            register.address() == address,
    {
        Wo { address, _type: PhantomData }
    }

    /// The address to store to.
    #[verifier::when_used_as_spec(spec_address)]
    pub fn address(&self) -> (address: u32)
        ensures
            address == self.spec_address(),
    {
        self.address
    }

    /// The store of `value` to this register.
    pub fn write(&self, value: u32) -> (store: Store)
        ensures
            store == (Store { address: self.address(), word: value }),
    {
        Store { address: self.address, word: value }
    }

    /// The store of the word that `function` builds from zero.
    pub fn write_with_zero<F>(&self, function: F) -> (store: Store) where
        F: FnOnce(RegisterWriter<T>) -> RegisterWriter<T>,

        requires
            call_requires(function, (RegisterWriter::<T>::starting_at(0),)),
        ensures
            store.address == self.address(),
            exists|built: RegisterWriter<T>|
                call_ensures(function, (RegisterWriter::<T>::starting_at(0),), built)
                    && store.word == built.value,
    {
        let built = function(RegisterWriter::new(0));
        self.write(built.value)
    }

    /// The store of the word that has `value` in one field and zero in
    /// every other.
    pub fn write_field<V: RegisterField>(&self, place: &FieldOf<T, V>, value: V) -> (store:
        Store)
        ensures
            store == (Store { address: self.address(), word: place.spec_encode(value) }),
    {
        self.write(place.encode(value))
    }
}

/// A register that can be read and written.
pub struct Rw<T: RegisterType> {
    address: u32,
    _type: PhantomData<T>,
}

impl<T: RegisterType> Region for Rw<T> {
    open spec fn start(&self) -> u32 {
        self.spec_address()
    }

    open spec fn size(&self) -> nat {
        4
    }
}

impl<T: RegisterType> Rw<T> {
    pub closed spec fn spec_address(&self) -> u32 {
        self.address
    }

    /// The read-write register at `address`.
    pub fn new(address: u32) -> (register: Rw<T>)
        ensures
            register.address() == address,
    {
        Rw { address, _type: PhantomData }
    }

    /// The address to load from and to store to.
    #[verifier::when_used_as_spec(spec_address)]
    pub fn address(&self) -> (address: u32)
        ensures
            address == self.spec_address(),
    {
        self.address
    }

    /// The store of `value` to this register.
    pub fn write(&self, value: u32) -> (store: Store)
        ensures
            store == (Store { address: self.address(), word: value }),
    {
        Store { address: self.address, word: value }
    }

    /// The store of the word that `function` builds from zero.
    pub fn write_with_zero<F>(&self, function: F) -> (store: Store) where
        F: FnOnce(RegisterWriter<T>) -> RegisterWriter<T>,

        requires
            call_requires(function, (RegisterWriter::<T>::starting_at(0),)),
        ensures
            store.address == self.address(),
            exists|built: RegisterWriter<T>|
                call_ensures(function, (RegisterWriter::<T>::starting_at(0),), built)
                    && store.word == built.value,
    {
        let built = function(RegisterWriter::new(0));
        self.write(built.value)
    }

    /// The load of this register's word.
    pub fn load(&self) -> (load: Load)
        ensures
            load == (Load { address: self.address() }),
    {
        Load { address: self.address }
    }

    /// A reader of `word`, which was loaded from this register.
    pub fn read(&self, word: u32) -> (reader: RegisterReader<T>)
        ensures
            reader.value == word,
    {
        RegisterReader { value: word, _type: PhantomData }
    }

    /// The second half of a read-modify-write: the store of the word that
    /// `function` builds from `current`, the word that was loaded from this
    /// register. Load and store are two transfers on the bus, and nothing
    /// makes the pair atomic. It is safe as long as nothing else touches the
    /// register between the two, which holds where a single thread of
    /// control runs without interrupts.
    pub fn set_fields<F>(&self, current: u32, function: F) -> (store: Store) where
        F: FnOnce(RegisterWriter<T>) -> RegisterWriter<T>,

        requires
            call_requires(function, (RegisterWriter::<T>::starting_at(current),)),
        ensures
            store.address == self.address(),
            exists|built: RegisterWriter<T>|
                call_ensures(function, (RegisterWriter::<T>::starting_at(current),), built)
                    && store.word == built.value,
    {
        let built = function(RegisterWriter::new(current));
        self.write(built.value)
    }

    /// The second half of a read-modify-write of one field: the store of
    /// `current` with `value` in that field.
    pub fn write_field<V: RegisterField>(
        &self,
        current: u32,
        place: &FieldOf<T, V>,
        value: V,
    ) -> (store: Store)
        ensures
            store == (Store { address: self.address(), word: place.spec_set(current, value) }),
    {
        self.write(place.insert(current, value))
    }
}

/// Three registers for one set of bits: a store to the first sets bits, a
/// store to the second clears bits, and the third shows the bits. The
/// second lies 4 bytes and the third 8 bytes after the first.
pub struct Srs<T: RegisterType> {
    pub set: Wo<T>,
    pub reset: Wo<T>,
    pub status: Ro<T>,
}

impl<T: RegisterType> Region for Srs<T> {
    open spec fn start(&self) -> u32 {
        self.set.address()
    }

    open spec fn size(&self) -> nat {
        12
    }
}

impl<T: RegisterType> Srs<T> {
    /// The three registers lie one after the other.
    pub open spec fn wf(&self) -> bool {
        &&& follows(&self.set, &self.reset)
        &&& follows(&self.reset, &self.status)
    }

    /// The group of three registers that starts at `address`.
    pub fn new(address: u32) -> (group: Srs<T>)
        requires
            address + 8 <= u32::MAX,
        ensures
            group.set.address() == address,
            group.reset.address() == address + 4,
            group.status.address() == address + 8,
            group.wf(),
    {
        Srs { set: Wo::new(address), reset: Wo::new(address + 4), status: Ro::new(address + 8) }
    }

    /// The store that sets the bits of `value`.
    pub fn set(&self, value: u32) -> (store: Store)
        ensures
            store == (Store { address: self.set.address(), word: value }),
    {
        self.set.write(value)
    }

    /// The store that clears the bits of `value`.
    pub fn reset(&self, value: u32) -> (store: Store)
        ensures
            store == (Store { address: self.reset.address(), word: value }),
    {
        self.reset.write(value)
    }

    /// The two stores that give the fields which `function` touches their
    /// values, in the order in which they are to be issued: first the store
    /// that sets the built word's bits, then the store that clears the bits
    /// which were given the value zero. Both are issued whatever the
    /// values are, and nothing makes the pair atomic.
    pub fn set_fields<F>(&self, function: F) -> (stores: (Store, Store)) where
        F: FnOnce(MaskedRegisterWriter<T>) -> MaskedRegisterWriter<T>,

        requires
            call_requires(function, (MaskedRegisterWriter::<T>::untouched(),)),
        ensures
            stores.0.address == self.set.address(),
            stores.1.address == self.reset.address(),
            exists|built: MaskedRegisterWriter<T>|
                call_ensures(function, (MaskedRegisterWriter::<T>::untouched(),), built)
                    && stores.0.word == built.value && stores.1.word == !built.value
                    & built.mask,
    {
        let value_and_mask = function(MaskedRegisterWriter::new());
        (
            self.set.write(value_and_mask.value),
            self.reset.write(!value_and_mask.value & value_and_mask.mask),
        )
    }

    /// The two stores that give one field a value, in the order in which
    /// they are to be issued: the store that sets the bits of the encoded
    /// value, then the store that clears the field's other bits. Both are
    /// issued whatever the value is.
    pub fn write_field<V: RegisterField>(&self, place: &FieldOf<T, V>, value: V) -> (stores: (
        Store,
        Store,
    ))
        ensures
            stores.0 == (Store {
                address: self.set.address(),
                word: place.spec_encode(value) & place.spec_mask(),
            }),
            stores.1 == (Store {
                address: self.reset.address(),
                word: place.spec_mask() & !place.spec_encode(value),
            }),
    {
        let bits = place.encode(value);
        let mask = place.mask();
        (self.set.write(bits & mask), self.reset.write(mask & !bits))
    }

    /// The load of the status register's word.
    pub fn load(&self) -> (load: Load)
        ensures
            load == (Load { address: self.status.address() }),
    {
        self.status.load()
    }

    /// A reader of `word`, which was loaded from the status register.
    pub fn read(&self, word: u32) -> (reader: RegisterReader<T>)
        ensures
            reader.value == word,
    {
        self.status.read(word)
    }
}

/// Two registers for one set of bits: a store to the first sets bits, a
/// store to the second, 4 bytes on, clears bits.
pub struct Sr<T: RegisterType> {
    pub set: Wo<T>,
    pub reset: Wo<T>,
}

impl<T: RegisterType> Region for Sr<T> {
    open spec fn start(&self) -> u32 {
        self.set.address()
    }

    open spec fn size(&self) -> nat {
        8
    }
}

impl<T: RegisterType> Sr<T> {
    /// The two registers lie one after the other.
    pub open spec fn wf(&self) -> bool {
        follows(&self.set, &self.reset)
    }

    /// The pair of registers that starts at `address`.
    pub fn new(address: u32) -> (pair: Sr<T>)
        requires
            address + 4 <= u32::MAX,
        ensures
            pair.set.address() == address,
            pair.reset.address() == address + 4,
            pair.wf(),
    {
        Sr { set: Wo::new(address), reset: Wo::new(address + 4) }
    }

    /// The store that sets the bits of `value`.
    pub fn set(&self, value: u32) -> (store: Store)
        ensures
            store == (Store { address: self.set.address(), word: value }),
    {
        self.set.write(value)
    }

    /// The store that clears the bits of `value`.
    pub fn reset(&self, value: u32) -> (store: Store)
        ensures
            store == (Store { address: self.reset.address(), word: value }),
    {
        self.reset.write(value)
    }

    /// The two stores that give the fields which `function` touches their
    /// values: first the store that sets the built word's bits, then the
    /// store that clears the bits which were given the value zero.
    pub fn set_fields<F>(&self, function: F) -> (stores: (Store, Store)) where
        F: FnOnce(MaskedRegisterWriter<T>) -> MaskedRegisterWriter<T>,

        requires
            call_requires(function, (MaskedRegisterWriter::<T>::untouched(),)),
        ensures
            stores.0.address == self.set.address(),
            stores.1.address == self.reset.address(),
            exists|built: MaskedRegisterWriter<T>|
                call_ensures(function, (MaskedRegisterWriter::<T>::untouched(),), built)
                    && stores.0.word == built.value && stores.1.word == !built.value
                    & built.mask,
    {
        let value_and_mask = function(MaskedRegisterWriter::new());
        (
            self.set.write(value_and_mask.value),
            self.reset.write(!value_and_mask.value & value_and_mask.mask),
        )
    }
}

/// The size of a gap between registers.
pub trait ReservedConfig: Sized {
    /// The number of bytes of the gap.
    const SIZE: u32;

    fn new() -> Self;
}

/// A gap of one word.
pub struct Byte4 {}

impl ReservedConfig for Byte4 {
    const SIZE: u32 = 4;

    fn new() -> Self {
        Byte4 {}
    }
}

/// A gap of two words.
pub struct Byte8 {}

impl ReservedConfig for Byte8 {
    const SIZE: u32 = 8;

    fn new() -> Self {
        Byte8 {}
    }
}

/// A gap of four words.
pub struct Byte16 {}

impl ReservedConfig for Byte16 {
    const SIZE: u32 = 16;

    fn new() -> Self {
        Byte16 {}
    }
}

/// A stretch of addresses between registers that holds no register.
pub struct Reserved<T: ReservedConfig> {
    address: u32,
    _reserved: T,
}

impl<T: ReservedConfig> Region for Reserved<T> {
    open spec fn start(&self) -> u32 {
        self.spec_address()
    }

    open spec fn size(&self) -> nat {
        T::SIZE as nat
    }
}

impl<T: ReservedConfig> Reserved<T> {
    pub closed spec fn spec_address(&self) -> u32 {
        self.address
    }

    /// The gap that starts at `address`.
    pub fn new(address: u32) -> (gap: Reserved<T>)
        ensures
            gap.address() == address,
    {
        Reserved { address, _reserved: T::new() }
    }

    /// The address of the first byte of the gap.
    #[verifier::when_used_as_spec(spec_address)]
    pub fn address(&self) -> (address: u32)
        ensures
            address == self.spec_address(),
    {
        self.address
    }
}

/// Lays the registers and gaps of a peripheral out one after the other,
/// from a base address upwards.
pub struct Layout {
    base: u32,
    used: u32,
}

impl Layout {
    #[verifier::type_invariant]
    spec fn stays_in_address_space(self) -> bool {
        self.base + self.used <= u32::MAX
    }

    /// The address at which the layout started.
    pub closed spec fn base(&self) -> u32 {
        self.base
    }

    /// The number of bytes laid out so far.
    pub closed spec fn used(&self) -> u32 {
        self.used
    }

    /// The address of the next region.
    pub open spec fn next(&self) -> int {
        self.base() + self.used()
    }

    /// A layout that starts at `base`.
    pub fn new(base: u32) -> (layout: Layout)
        ensures
            layout.base() == base,
            layout.used() == 0,
    {
        Layout { base, used: 0 }
    }

    /// Takes the next `size` bytes and gives the address of the first.
    fn take(&mut self, size: u32) -> (address: u32)
        requires
            old(self).next() + size <= u32::MAX,
        ensures
            address == old(self).next(),
            final(self).base() == old(self).base(),
            final(self).used() == old(self).used() + size,
    {
        proof {
            use_type_invariant(&*self);
        }
        let address = self.base + self.used;
        self.used = self.used + size;
        address
    }

    /// The next word as a read-only register.
    pub fn ro<T: RegisterType>(&mut self) -> (register: Ro<T>)
        requires
            old(self).next() + 4 <= u32::MAX,
        ensures
            register.start() == old(self).next(),
            final(self).next() == old(self).next() + register.size(),
            final(self).base() == old(self).base(),
    {
        Ro::new(self.take(4))
    }

    /// The next word as a write-only register.
    pub fn wo<T: RegisterType>(&mut self) -> (register: Wo<T>)
        requires
            old(self).next() + 4 <= u32::MAX,
        ensures
            register.start() == old(self).next(),
            final(self).next() == old(self).next() + register.size(),
            final(self).base() == old(self).base(),
    {
        Wo::new(self.take(4))
    }

    /// The next word as a read-write register.
    pub fn rw<T: RegisterType>(&mut self) -> (register: Rw<T>)
        requires
            old(self).next() + 4 <= u32::MAX,
        ensures
            register.start() == old(self).next(),
            final(self).next() == old(self).next() + register.size(),
            final(self).base() == old(self).base(),
    {
        Rw::new(self.take(4))
    }

    /// The next three words as a set register, a reset register and a
    /// status register.
    pub fn srs<T: RegisterType>(&mut self) -> (group: Srs<T>)
        requires
            old(self).next() + 12 <= u32::MAX,
        ensures
            group.start() == old(self).next(),
            group.wf(),
            final(self).next() == old(self).next() + group.size(),
            final(self).base() == old(self).base(),
    {
        Srs::new(self.take(12))
    }

    /// The next two words as a set register and a reset register.
    pub fn sr<T: RegisterType>(&mut self) -> (pair: Sr<T>)
        requires
            old(self).next() + 8 <= u32::MAX,
        ensures
            pair.start() == old(self).next(),
            pair.wf(),
            final(self).next() == old(self).next() + pair.size(),
            final(self).base() == old(self).base(),
    {
        Sr::new(self.take(8))
    }

    /// The next bytes as a gap.
    pub fn reserved<T: ReservedConfig>(&mut self) -> (gap: Reserved<T>)
        requires
            old(self).next() + T::SIZE <= u32::MAX,
        ensures
            gap.start() == old(self).next(),
            final(self).next() == old(self).next() + gap.size(),
            final(self).base() == old(self).base(),
    {
        Reserved::new(self.take(T::SIZE))
    }
}

/// The peripherals of the chip, each to be taken once.
pub struct Peripherals {
    rtt: Option<rtt::RealTimeTimer>,
}

impl Peripherals {
    #[verifier::type_invariant]
    spec fn holds_the_chips_timer(self) -> bool {
        self.rtt.is_some() ==> self.rtt.unwrap().wf()
    }

    /// Whether the timer is still there to be taken.
    pub closed spec fn spec_has_rtt(&self) -> bool {
        self.rtt.is_some()
    }

    /// Whether the timer is still there to be taken.
    #[verifier::when_used_as_spec(spec_has_rtt)]
    pub fn has_rtt(&self) -> (there: bool)
        ensures
            there == self.spec_has_rtt(),
    {
        self.rtt.is_some()
    }

    /// Takes the real-time timer. It can be taken once.
    pub fn rtt(&mut self) -> (timer: rtt::RealTimeTimer)
        requires
            old(self).has_rtt(),
        ensures
            !final(self).has_rtt(),
            timer.wf(),
    {
        proof {
            use_type_invariant(&*self);
        }
        let mut taken: Option<rtt::RealTimeTimer> = None;
        std::mem::swap(&mut self.rtt, &mut taken);
        taken.unwrap()
    }
}

/// The peripherals of the chip, none of them taken.
pub fn peripherals() -> (all: Peripherals)
    ensures
        all.has_rtt(),
{
    Peripherals { rtt: Some(rtt::RealTimeTimer::new()) }
}

} // verus!
