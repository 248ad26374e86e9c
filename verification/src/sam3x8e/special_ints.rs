//! Unsigned integers of the widths that register fields have and Rust has
//! no type for. A value of such a type always fits its width: a wider
//! number is cut to the width when it is converted.

use super::RegisterField;
use crate::field;
use vstd::prelude::*;
use vstd::std_specs::convert::FromSpecImpl;

verus! {

/// An unsigned integer of 4 bits.
#[derive(Clone, Copy, Debug, PartialEq, Eq, Structural)]
pub struct U4 {
    value: u8,
}

impl View for U4 {
    type V = u8;

    closed spec fn view(&self) -> u8 {
        self.value
    }
}

impl U4 {
    #[verifier::type_invariant]
    spec fn in_range(self) -> bool {
        self.value <= 0xf
    }

    /// The integer `value`, if it has no more than 4 bits.
    pub fn new(value: u8) -> (narrow: Option<U4>)
        ensures
            narrow.is_some() <==> value <= 0xf,
            narrow.is_some() ==> narrow.unwrap()@ == value,
    {
        if value <= 0xf {
            Some(U4 { value })
        } else {
            None
        }
    }

    /// The integer in the narrowest type of Rust that holds it.
    pub fn value(&self) -> (value: u8)
        ensures
            value == self@,
            value <= 0xf,
    {
        proof {
            use_type_invariant(self);
        }
        self.value
    }

    /// What the conversion from a word gives: its lowest 4 bits.
    pub proof fn lemma_from_u32(value: u32)
        ensures
            <U4 as RegisterField>::spec_from_u32(value)@ == value & 0xf,
            value & 0xf <= 0xf,
    {
        field::lemma_fill_values();
        field::lemma_cut_is_bounded(value, 4);
    }
}

impl From<u32> for U4 {
    /// The lowest 4 bits of `value`.
    fn from(value: u32) -> (cut: U4)
        ensures
            cut@ == value & 0xf,
    {
        proof {
            field::lemma_fill_values();
            field::lemma_cut_is_bounded(value, 4);
        }
        U4 { value: (value & 0xf) as u8 }
    }
}

impl FromSpecImpl<u32> for U4 {
    open spec fn obeys_from_spec() -> bool {
        true
    }

    closed spec fn from_spec(value: u32) -> U4 {
        U4 { value: (value & 0xf) as u8 }
    }
}

impl From<U4> for u32 {
    fn from(value: U4) -> (wide: u32)
        ensures
            wide == value@,
    {
        value.value as u32
    }
}

impl FromSpecImpl<U4> for u32 {
    open spec fn obeys_from_spec() -> bool {
        true
    }

    open spec fn from_spec(value: U4) -> u32 {
        value@ as u32
    }
}

impl RegisterField for U4 {
    const MASK: u32 = 0xf;

    open spec fn spec_width() -> u32 {
        4
    }

    open spec fn distinct(self) -> bool {
        self@ <= 0xf
    }

    open spec fn spec_into_u32(self) -> u32 {
        self@ as u32
    }

    open spec fn spec_from_u32(value: u32) -> U4 {
        <U4 as vstd::std_specs::convert::FromSpec<u32>>::from_spec(value)
    }

    open spec fn known(value: u32) -> bool {
        true
    }

    proof fn lemma_width() {
        field::lemma_fill_values();
    }

    proof fn lemma_into_then_from(self) {
        field::lemma_fill_values();
        field::lemma_cut_keeps_small(self@ as u32, 4);
    }

    fn into_u32(self) -> (bits: u32) {
        self.value as u32
    }

    fn from_u32(value: u32) -> (decoded: U4) {
        U4::from(value)
    }

    fn is_known(value: u32) -> (known: bool) {
        true
    }
}

/// An unsigned integer of 6 bits.
#[derive(Clone, Copy, Debug, PartialEq, Eq, Structural)]
pub struct U6 {
    value: u8,
}

impl View for U6 {
    type V = u8;

    closed spec fn view(&self) -> u8 {
        self.value
    }
}

impl U6 {
    #[verifier::type_invariant]
    spec fn in_range(self) -> bool {
        self.value <= 0x3f
    }

    /// The integer `value`, if it has no more than 6 bits.
    pub fn new(value: u8) -> (narrow: Option<U6>)
        ensures
            narrow.is_some() <==> value <= 0x3f,
            narrow.is_some() ==> narrow.unwrap()@ == value,
    {
        if value <= 0x3f {
            Some(U6 { value })
        } else {
            None
        }
    }

    /// The integer in the narrowest type of Rust that holds it.
    pub fn value(&self) -> (value: u8)
        ensures
            value == self@,
            value <= 0x3f,
    {
        proof {
            use_type_invariant(self);
        }
        self.value
    }

    /// What the conversion from a word gives: its lowest 6 bits.
    pub proof fn lemma_from_u32(value: u32)
        ensures
            <U6 as RegisterField>::spec_from_u32(value)@ == value & 0x3f,
            value & 0x3f <= 0x3f,
    {
        field::lemma_fill_values();
        field::lemma_cut_is_bounded(value, 6);
    }
}

impl From<u32> for U6 {
    /// The lowest 6 bits of `value`.
    fn from(value: u32) -> (cut: U6)
        ensures
            cut@ == value & 0x3f,
    {
        proof {
            field::lemma_fill_values();
            field::lemma_cut_is_bounded(value, 6);
        }
        U6 { value: (value & 0x3f) as u8 }
    }
}

impl FromSpecImpl<u32> for U6 {
    open spec fn obeys_from_spec() -> bool {
        true
    }

    closed spec fn from_spec(value: u32) -> U6 {
        U6 { value: (value & 0x3f) as u8 }
    }
}

impl From<U6> for u32 {
    fn from(value: U6) -> (wide: u32)
        ensures
            wide == value@,
    {
        value.value as u32
    }
}

impl FromSpecImpl<U6> for u32 {
    open spec fn obeys_from_spec() -> bool {
        true
    }

    open spec fn from_spec(value: U6) -> u32 {
        value@ as u32
    }
}

impl RegisterField for U6 {
    const MASK: u32 = 0x3f;

    open spec fn spec_width() -> u32 {
        6
    }

    open spec fn distinct(self) -> bool {
        self@ <= 0x3f
    }

    open spec fn spec_into_u32(self) -> u32 {
        self@ as u32
    }

    open spec fn spec_from_u32(value: u32) -> U6 {
        <U6 as vstd::std_specs::convert::FromSpec<u32>>::from_spec(value)
    }

    open spec fn known(value: u32) -> bool {
        true
    }

    proof fn lemma_width() {
        field::lemma_fill_values();
    }

    proof fn lemma_into_then_from(self) {
        field::lemma_fill_values();
        field::lemma_cut_keeps_small(self@ as u32, 6);
    }

    fn into_u32(self) -> (bits: u32) {
        self.value as u32
    }

    fn from_u32(value: u32) -> (decoded: U6) {
        U6::from(value)
    }

    fn is_known(value: u32) -> (known: bool) {
        true
    }
}

/// An unsigned integer of 11 bits.
#[derive(Clone, Copy, Debug, PartialEq, Eq, Structural)]
pub struct U11 {
    value: u16,
}

impl View for U11 {
    type V = u16;

    closed spec fn view(&self) -> u16 {
        self.value
    }
}

impl U11 {
    #[verifier::type_invariant]
    spec fn in_range(self) -> bool {
        self.value <= 0x7ff
    }

    /// The integer `value`, if it has no more than 11 bits.
    pub fn new(value: u16) -> (narrow: Option<U11>)
        ensures
            narrow.is_some() <==> value <= 0x7ff,
            narrow.is_some() ==> narrow.unwrap()@ == value,
    {
        if value <= 0x7ff {
            Some(U11 { value })
        } else {
            None
        }
    }

    /// The integer in the narrowest type of Rust that holds it.
    pub fn value(&self) -> (value: u16)
        ensures
            value == self@,
            value <= 0x7ff,
    {
        proof {
            use_type_invariant(self);
        }
        self.value
    }

    /// What the conversion from a word gives: its lowest 11 bits.
    pub proof fn lemma_from_u32(value: u32)
        ensures
            <U11 as RegisterField>::spec_from_u32(value)@ == value & 0x7ff,
            value & 0x7ff <= 0x7ff,
    {
        field::lemma_fill_values();
        field::lemma_cut_is_bounded(value, 11);
    }
}

impl From<u32> for U11 {
    /// The lowest 11 bits of `value`.
    fn from(value: u32) -> (cut: U11)
        ensures
            cut@ == value & 0x7ff,
    {
        proof {
            field::lemma_fill_values();
            field::lemma_cut_is_bounded(value, 11);
        }
        U11 { value: (value & 0x7ff) as u16 }
    }
}

impl FromSpecImpl<u32> for U11 {
    open spec fn obeys_from_spec() -> bool {
        true
    }

    closed spec fn from_spec(value: u32) -> U11 {
        U11 { value: (value & 0x7ff) as u16 }
    }
}

impl From<U11> for u32 {
    fn from(value: U11) -> (wide: u32)
        ensures
            wide == value@,
    {
        value.value as u32
    }
}

impl FromSpecImpl<U11> for u32 {
    open spec fn obeys_from_spec() -> bool {
        true
    }

    open spec fn from_spec(value: U11) -> u32 {
        value@ as u32
    }
}

impl RegisterField for U11 {
    const MASK: u32 = 0x7ff;

    open spec fn spec_width() -> u32 {
        11
    }

    open spec fn distinct(self) -> bool {
        self@ <= 0x7ff
    }

    open spec fn spec_into_u32(self) -> u32 {
        self@ as u32
    }

    open spec fn spec_from_u32(value: u32) -> U11 {
        <U11 as vstd::std_specs::convert::FromSpec<u32>>::from_spec(value)
    }

    open spec fn known(value: u32) -> bool {
        true
    }

    proof fn lemma_width() {
        field::lemma_fill_values();
    }

    proof fn lemma_into_then_from(self) {
        field::lemma_fill_values();
        field::lemma_cut_keeps_small(self@ as u32, 11);
    }

    fn into_u32(self) -> (bits: u32) {
        self.value as u32
    }

    fn from_u32(value: u32) -> (decoded: U11) {
        U11::from(value)
    }

    fn is_known(value: u32) -> (known: bool) {
        true
    }
}

/// An unsigned integer of 24 bits.
#[derive(Clone, Copy, Debug, PartialEq, Eq, Structural)]
pub struct U24 {
    value: u32,
}

impl View for U24 {
    type V = u32;

    closed spec fn view(&self) -> u32 {
        self.value
    }
}

impl U24 {
    #[verifier::type_invariant]
    spec fn in_range(self) -> bool {
        self.value <= 0xff_ffff
    }

    /// The integer `value`, if it has no more than 24 bits.
    pub fn new(value: u32) -> (narrow: Option<U24>)
        ensures
            narrow.is_some() <==> value <= 0xff_ffff,
            narrow.is_some() ==> narrow.unwrap()@ == value,
    {
        if value <= 0xff_ffff {
            Some(U24 { value })
        } else {
            None
        }
    }

    /// The integer in the narrowest type of Rust that holds it.
    pub fn value(&self) -> (value: u32)
        ensures
            value == self@,
            value <= 0xff_ffff,
    {
        proof {
            use_type_invariant(self);
        }
        self.value
    }

    /// What the conversion from a word gives: its lowest 24 bits.
    pub proof fn lemma_from_u32(value: u32)
        ensures
            <U24 as RegisterField>::spec_from_u32(value)@ == value & 0xff_ffff,
            value & 0xff_ffff <= 0xff_ffff,
    {
        field::lemma_fill_values();
        field::lemma_cut_is_bounded(value, 24);
    }
}

impl From<u32> for U24 {
    /// The lowest 24 bits of `value`.
    fn from(value: u32) -> (cut: U24)
        ensures
            cut@ == value & 0xff_ffff,
    {
        proof {
            field::lemma_fill_values();
            field::lemma_cut_is_bounded(value, 24);
        }
        U24 { value: value & 0xff_ffff }
    }
}

impl FromSpecImpl<u32> for U24 {
    open spec fn obeys_from_spec() -> bool {
        true
    }

    closed spec fn from_spec(value: u32) -> U24 {
        U24 { value: value & 0xff_ffff }
    }
}

impl From<U24> for u32 {
    fn from(value: U24) -> (wide: u32)
        ensures
            wide == value@,
    {
        value.value
    }
}

impl FromSpecImpl<U24> for u32 {
    open spec fn obeys_from_spec() -> bool {
        true
    }

    open spec fn from_spec(value: U24) -> u32 {
        value@ as u32
    }
}

impl RegisterField for U24 {
    const MASK: u32 = 0xff_ffff;

    open spec fn spec_width() -> u32 {
        24
    }

    open spec fn distinct(self) -> bool {
        self@ <= 0xff_ffff
    }

    open spec fn spec_into_u32(self) -> u32 {
        self@ as u32
    }

    open spec fn spec_from_u32(value: u32) -> U24 {
        <U24 as vstd::std_specs::convert::FromSpec<u32>>::from_spec(value)
    }

    open spec fn known(value: u32) -> bool {
        true
    }

    proof fn lemma_width() {
        field::lemma_fill_values();
    }

    proof fn lemma_into_then_from(self) {
        field::lemma_fill_values();
        field::lemma_cut_keeps_small(self@ as u32, 24);
    }

    fn into_u32(self) -> (bits: u32) {
        self.value
    }

    fn from_u32(value: u32) -> (decoded: U24) {
        U24::from(value)
    }

    fn is_known(value: u32) -> (known: bool) {
        true
    }
}

} // verus!
