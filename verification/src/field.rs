//! Bit fields of a 32-bit register word.
//!
//! A field is a run of `width` adjacent bits that starts at bit `offset`.
//! Encoding masks a value to the field's width and then shifts it into
//! place; decoding shifts the word down and then masks. A value that is
//! wider than its field loses its upper bits when it is encoded.

use vstd::arithmetic::power2::{
    lemma2_to64, lemma_pow2_adds, lemma_pow2_pos, lemma_pow2_strictly_increases, pow2,
};
use vstd::bits::{lemma_u32_pow2_no_overflow, lemma_u32_shl_is_mul};
use vstd::prelude::*;

verus! {

/// The word whose `amount` lowest bits are set: `2^amount - 1`.
pub open spec fn spec_fill(amount: u32) -> u32 {
    if amount >= 32 {
        0xffff_ffffu32
    } else {
        ((1u32 << amount) - 1) as u32
    }
}

/// Whether bit `index` of `word` is set.
pub open spec fn bit_is_set(word: u32, index: u32) -> bool {
    (word >> index) & 1 == 1
}

/// Whether a run of `width` bits that starts at bit `offset` lies inside a word.
pub open spec fn spec_fits(offset: u32, width: u32) -> bool {
    1 <= width && offset + width <= 32
}

/// The bits that a field occupies: `(2^width - 1) << offset`.
pub open spec fn spec_mask(offset: u32, width: u32) -> u32 {
    spec_fill(width) << offset
}

/// A value cut to `width` bits and moved to bit `offset`.
pub open spec fn spec_encode(offset: u32, width: u32, value: u32) -> u32 {
    (value & spec_fill(width)) << offset
}

/// The value that a word carries in a field.
pub open spec fn spec_decode(offset: u32, width: u32, word: u32) -> u32 {
    (word >> offset) & spec_fill(width)
}

/// A word in which one field is replaced by a value and all other bits stay.
pub open spec fn spec_merge(offset: u32, width: u32, word: u32, value: u32) -> u32 {
    (word & !spec_mask(offset, width)) | spec_encode(offset, width, value)
}

/// What a group of set, reset and status register shows after a store of
/// `set` to the set register and then a store of `reset` to the reset
/// register, if it showed `status` before: the bits of `set` are set, and
/// then the bits of `reset` are cleared.
pub open spec fn spec_after_set_reset(status: u32, set: u32, reset: u32) -> u32 {
    (status | set) & !reset
}

/// How many of the `upto` lowest bits of `word` are set.
pub open spec fn count_ones(word: u32, upto: nat) -> nat
    decreases upto,
{
    if upto == 0 {
        0
    } else {
        let rest = count_ones(word, (upto - 1) as nat);
        if bit_is_set(word, (upto - 1) as u32) {
            rest + 1
        } else {
            rest
        }
    }
}

/// A word with its `amount` lowest bits set. The full word is a case of its
/// own, since a 32-bit word cannot be shifted by 32.
pub fn fill(amount: u32) -> (bits: u32)
    requires
        amount <= 32,
    ensures
        bits == spec_fill(amount),
{
    if amount >= 32 {
        0xffff_ffffu32
    } else {
        assert((1u32 << amount) >= 1) by (bit_vector)
            requires
                amount < 32,
        ;
        (1u32 << amount) - 1
    }
}

/// A run of adjacent bits in a register word.
#[derive(Clone, Copy, Debug, PartialEq, Eq, Structural)]
pub struct Field {
    /// Index of the lowest bit of the field, 0 to 31.
    pub offset: u32,
    /// Number of bits, 1 to 32.
    pub width: u32,
}

impl Field {
    /// The field lies inside one word.
    pub open spec fn wf(self) -> bool {
        spec_fits(self.offset, self.width)
    }

    /// Whether `value` can be stored in the field without loss.
    pub open spec fn holds(self, value: u32) -> bool {
        value <= spec_fill(self.width)
    }

    pub open spec fn spec_mask(self) -> u32 {
        spec_mask(self.offset, self.width)
    }

    pub open spec fn spec_encode(self, value: u32) -> u32 {
        spec_encode(self.offset, self.width, value)
    }

    pub open spec fn spec_decode(self, word: u32) -> u32 {
        spec_decode(self.offset, self.width, word)
    }

    pub open spec fn spec_merge(self, word: u32, value: u32) -> u32 {
        spec_merge(self.offset, self.width, word, value)
    }

    /// The field of `width` bits at bit `offset`, if such a field lies inside
    /// a word.
    pub fn new(offset: u32, width: u32) -> (field: Option<Field>)
        ensures
            field.is_some() <==> spec_fits(offset, width),
            field.is_some() ==> field.unwrap() == (Field { offset, width }),
    {
        if 1 <= width && width <= 32 && offset <= 32 - width {
            Some(Field { offset, width })
        } else {
            None
        }
    }

    /// The bits that the field occupies.
    pub fn mask(&self) -> (bits: u32)
        requires
            self.wf(),
        ensures
            bits == self.spec_mask(),
    {
        fill(self.width) << self.offset
    }

    /// The word that carries `value` in this field and zero elsewhere. Bits of
    /// `value` above the field's width are dropped.
    pub fn encode(&self, value: u32) -> (bits: u32)
        requires
            self.wf(),
        ensures
            bits == self.spec_encode(value),
    {
        (value & fill(self.width)) << self.offset
    }

    /// The value that `word` carries in this field.
    pub fn decode(&self, word: u32) -> (value: u32)
        requires
            self.wf(),
        ensures
            value == self.spec_decode(word),
            self.holds(value),
    {
        proof {
            lemma_decode_is_bounded(self.offset, self.width, word);
        }
        (word >> self.offset) & fill(self.width)
    }

    /// `word` with this field replaced by `value`.
    pub fn merge(&self, word: u32, value: u32) -> (merged: u32)
        requires
            self.wf(),
        ensures
            merged == self.spec_merge(word, value),
    {
        (word & !self.mask()) | self.encode(value)
    }
}

/// The runs of low bits for the widths that the register maps use.
pub proof fn lemma_fill_values()
    by (bit_vector)
    ensures
        spec_fill(0) == 0,
        spec_fill(1) == 0x1,
        spec_fill(2) == 0x3,
        spec_fill(3) == 0x7,
        spec_fill(4) == 0xf,
        spec_fill(6) == 0x3f,
        spec_fill(8) == 0xff,
        spec_fill(11) == 0x7ff,
        spec_fill(16) == 0xffff,
        spec_fill(24) == 0xff_ffff,
        spec_fill(32) == 0xffff_ffff,
{
}

/// A value cut to `width` bits is at most the run of `width` low bits.
pub proof fn lemma_cut_is_bounded(value: u32, width: u32)
    by (bit_vector)
    ensures
        value & spec_fill(width) <= spec_fill(width),
{
}

/// Cutting a value to `width` bits changes nothing if the value has no
/// more bits than that.
pub proof fn lemma_cut_keeps_small(value: u32, width: u32)
    by (bit_vector)
    requires
        value <= spec_fill(width),
    ensures
        value & spec_fill(width) == value,
{
}

/// A wider run of low bits is the larger number.
pub proof fn lemma_fill_orders_widths(one: u32, other: u32)
    by (bit_vector)
    requires
        one <= 32,
        other <= 32,
    ensures
        spec_fill(one) >= spec_fill(other) <==> one >= other,
{
}

/// What a field decodes to is never wider than the field.
pub proof fn lemma_decode_is_bounded(offset: u32, width: u32, word: u32)
    by (bit_vector)
    ensures
        spec_decode(offset, width, word) <= spec_fill(width),
{
}

/// Decoding what was encoded gives the value back, for every value that
/// the field can hold.
pub proof fn lemma_encode_then_decode(offset: u32, width: u32, value: u32)
    by (bit_vector)
    requires
        spec_fits(offset, width),
        value <= spec_fill(width),
    ensures
        spec_decode(offset, width, spec_encode(offset, width, value)) == value,
{
}

/// Decoding what was encoded gives the value cut to the field's width.
pub proof fn lemma_encode_truncates(offset: u32, width: u32, value: u32)
    by (bit_vector)
    requires
        spec_fits(offset, width),
    ensures
        spec_decode(offset, width, spec_encode(offset, width, value)) == value & spec_fill(width),
{
}

/// An encoded value has no bit outside its field.
pub proof fn lemma_encode_stays_in_mask(offset: u32, width: u32, value: u32)
    by (bit_vector)
    requires
        spec_fits(offset, width),
    ensures
        spec_encode(offset, width, value) & spec_mask(offset, width) == spec_encode(
            offset,
            width,
            value,
        ),
        spec_encode(offset, width, value) & !spec_mask(offset, width) == 0,
{
}

/// A value merged into the word zero is the encoded value, and a mask
/// added to the empty mask is that mask.
pub proof fn lemma_merge_into_zero(offset: u32, width: u32, value: u32)
    by (bit_vector)
    requires
        spec_fits(offset, width),
    ensures
        spec_merge(offset, width, 0, value) == spec_encode(offset, width, value),
        0u32 | spec_mask(offset, width) == spec_mask(offset, width),
{
}

/// Zero encodes to no bit, and the largest value of a field to all bits
/// of the field.
pub proof fn lemma_encode_extremes(offset: u32, width: u32)
    by (bit_vector)
    requires
        spec_fits(offset, width),
    ensures
        spec_encode(offset, width, 0) == 0,
        spec_encode(offset, width, spec_fill(width)) == spec_mask(offset, width),
        !0u32 & spec_mask(offset, width) == spec_mask(offset, width),
        spec_mask(offset, width) & !0u32 == spec_mask(offset, width),
        !spec_mask(offset, width) & spec_mask(offset, width) == 0,
        spec_mask(offset, width) & !spec_mask(offset, width) == 0,
{
}

/// The field that is the whole word encodes and decodes a value as it is.
pub proof fn lemma_whole_word(value: u32)
    by (bit_vector)
    ensures
        spec_mask(0, 32) == 0xffff_ffffu32,
        spec_encode(0, 32, value) == value,
        spec_decode(0, 32, value) == value,
{
}

/// A field of one bit has the mask `1 << offset`, and the value one
/// encodes to that bit.
pub proof fn lemma_single_bit(offset: u32)
    by (bit_vector)
    requires
        offset < 32,
    ensures
        spec_mask(offset, 1) == 1u32 << offset,
        spec_encode(offset, 1, 1) == 1u32 << offset,
        spec_encode(offset, 1, 0) == 0,
{
}

/// The store of the encoded value, cut to the mask, to a set register and
/// the store of the rest of the mask to the reset register replace the
/// field by the value and leave all other bits as they were.
pub proof fn lemma_set_then_reset_merges(offset: u32, width: u32, status: u32, value: u32)
    by (bit_vector)
    requires
        spec_fits(offset, width),
    ensures
        spec_after_set_reset(
            status,
            spec_encode(offset, width, value) & spec_mask(offset, width),
            spec_mask(offset, width) & !spec_encode(offset, width, value),
        ) == spec_merge(offset, width, status, value),
{
}

/// Bit `index` of a field's mask is set exactly if the field covers it.
pub proof fn lemma_mask_bit(offset: u32, width: u32, index: u32)
    by (bit_vector)
    requires
        spec_fits(offset, width),
        index < 32,
    ensures
        bit_is_set(spec_mask(offset, width), index) <==> offset <= index < offset + width,
{
}

/// After a merge the field decodes to the merged value, cut to the field's
/// width.
pub proof fn lemma_merge_sets_field(offset: u32, width: u32, word: u32, value: u32)
    by (bit_vector)
    requires
        spec_fits(offset, width),
    ensures
        spec_decode(offset, width, spec_merge(offset, width, word, value)) == value & spec_fill(
            width,
        ),
{
}

/// A merge leaves every bit outside the field as it was.
pub proof fn lemma_merge_keeps_rest(offset: u32, width: u32, word: u32, value: u32)
    by (bit_vector)
    requires
        spec_fits(offset, width),
    ensures
        spec_merge(offset, width, word, value) & !spec_mask(offset, width) == word & !spec_mask(
            offset,
            width,
        ),
{
}

/// Two fields that share no bit position have masks that share no bit.
pub proof fn lemma_apart_masks(offset: u32, width: u32, other_offset: u32, other_width: u32)
    by (bit_vector)
    requires
        spec_fits(offset, width),
        spec_fits(other_offset, other_width),
        offset + width <= other_offset || other_offset + other_width <= offset,
    ensures
        spec_mask(offset, width) & spec_mask(other_offset, other_width) == 0,
{
}

/// A merge into one field does not change what another field decodes to,
/// if the two share no bit position.
pub proof fn lemma_merge_keeps_other_field(
    offset: u32,
    width: u32,
    other_offset: u32,
    other_width: u32,
    word: u32,
    value: u32,
)
    by (bit_vector)
    requires
        spec_fits(offset, width),
        spec_fits(other_offset, other_width),
        offset + width <= other_offset || other_offset + other_width <= offset,
    ensures
        spec_decode(other_offset, other_width, spec_merge(offset, width, word, value))
            == spec_decode(other_offset, other_width, word),
{
}

/// The run of `amount` low bits is the number `2^amount - 1`.
pub proof fn lemma_fill_is_power_less_one(amount: u32)
    requires
        amount <= 32,
    ensures
        spec_fill(amount) == pow2(amount as nat) - 1,
{
    if amount < 32 {
        lemma_u32_pow2_no_overflow(amount as nat);
        lemma_u32_shl_is_mul(1, amount);
    } else {
        lemma2_to64();
    }
}

/// A field's mask is the number `(2^width - 1) * 2^offset`.
pub proof fn lemma_mask_is_shifted_fill(offset: u32, width: u32)
    requires
        spec_fits(offset, width),
    ensures
        spec_mask(offset, width) == (pow2(width as nat) - 1) * pow2(offset as nat),
{
    lemma_fill_is_power_less_one(width);
    lemma_pow2_adds(width as nat, offset as nat);
    lemma_pow2_pos(offset as nat);
    if width + offset < 32 {
        lemma_pow2_strictly_increases((width + offset) as nat, 32);
    }
    lemma2_to64();
    let low = pow2(offset as nat) as int;
    let high = pow2(width as nat) as int;
    assert((high - 1) * low == high * low - low) by (nonlinear_arith);
    lemma_u32_shl_is_mul(spec_fill(width), offset);
}

/// Among the `upto` lowest bits of a field's mask, those are set that the
/// field covers.
proof fn lemma_count_mask(offset: u32, width: u32, upto: nat)
    requires
        spec_fits(offset, width),
        upto <= 32,
    ensures
        count_ones(spec_mask(offset, width), upto) == (if upto <= offset {
            0
        } else if upto <= offset + width {
            upto - offset
        } else {
            width as int
        }),
    decreases upto,
{
    if upto > 0 {
        lemma_count_mask(offset, width, (upto - 1) as nat);
        lemma_mask_bit(offset, width, (upto - 1) as u32);
    }
}

/// For every field of width `w` and every value from 0 to `2^w - 1`,
/// decoding the encoded value gives the value back.
pub proof fn lemma_round_trip(field: Field, value: u32)
    requires
        field.wf(),
        value <= pow2(field.width as nat) - 1,
    ensures
        field.holds(value),
        field.spec_decode(field.spec_encode(value)) == value,
{
    lemma_fill_is_power_less_one(field.width);
    lemma_encode_then_decode(field.offset, field.width, value);
}

/// A field's mask has exactly `width` set bits, and they are the bits
/// `offset`, `offset + 1`, ... `offset + width - 1`: one unbroken run that
/// starts at `offset`. As a number the mask is `(2^width - 1) * 2^offset`.
pub proof fn lemma_mask_is_run(field: Field)
    requires
        field.wf(),
    ensures
        forall|index: u32|
            index < 32 ==> (#[trigger] bit_is_set(field.spec_mask(), index) <==> field.offset
                <= index < field.offset + field.width),
        count_ones(field.spec_mask(), 32) == field.width,
        field.spec_mask() == (pow2(field.width as nat) - 1) * pow2(field.offset as nat),
{
    assert forall|index: u32| index < 32 implies (#[trigger] bit_is_set(field.spec_mask(), index)
        <==> field.offset <= index < field.offset + field.width) by {
        lemma_mask_bit(field.offset, field.width, index);
    }
    lemma_count_mask(field.offset, field.width, 32);
    lemma_mask_is_shifted_fill(field.offset, field.width);
}

} // verus!
