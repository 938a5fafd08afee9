//! Bit fields of 32-bit registers.
//!
//! A field is a run of adjacent bits. A value is placed in a field by masking
//! it to the field's width and shifting it to the field's position; the words
//! of several fields that do not overlap are joined with `|`.
use vstd::prelude::*;

verus! {

/// The word whose lowest `width` bits are set and no others.
pub open spec fn low_bits(width: u32) -> u32 {
    if width >= 32 {
        0xffff_ffffu32
    } else {
        ((1u32 << width) - 1) as u32
    }
}

/// A run of adjacent bits in a 32-bit register.
#[derive(PartialEq, Eq, Structural, Debug, Copy, Clone)]
pub struct Field {
    /// Position of the field's lowest bit.
    pub shift: u32,
    /// Number of bits in the field.
    pub width: u32,
}

impl Field {
    /// The field has at least one bit and lies inside a 32-bit word.
    pub open spec fn wf(self) -> bool {
        1 <= self.width && self.shift + self.width <= 32
    }

    /// The largest value the field can hold.
    pub open spec fn max_value(self) -> u32 {
        low_bits(self.width)
    }

    /// The word that holds `value` in this field and zero elsewhere. Bits of
    /// `value` that do not fit in the field are dropped.
    pub open spec fn place(self, value: u32) -> u32 {
        (value & low_bits(self.width)) << self.shift
    }

    /// The value that `word` holds in this field.
    pub open spec fn extract(self, word: u32) -> u32 {
        (word >> self.shift) & low_bits(self.width)
    }

    /// Two fields share no bit.
    pub open spec fn disjoint(self, other: Field) -> bool {
        self.shift + self.width <= other.shift || other.shift + other.width <= self.shift
    }

    /// The largest value the field can hold: `width` one bits.
    pub fn mask(&self) -> (mask: u32)
        requires
            self.wf(),
        ensures
            mask == self.max_value(),
    {
        if self.width >= 32 {
            0xffff_ffff
        } else {
            let width: u32 = self.width;
            assert((1u32 << width) >= 1) by (bit_vector)
                requires
                    width < 32,
            ;
            (1u32 << width) - 1
        }
    }

    /// The field holding `value`, ready to be joined with other fields.
    pub fn val(&self, value: u32) -> (word: u32)
        requires
            self.wf(),
        ensures
            word == self.place(value),
    {
        (value & self.mask()) << self.shift
    }

    /// Reads the field out of a register word.
    pub fn read(&self, word: u32) -> (value: u32)
        requires
            self.wf(),
        ensures
            value == self.extract(word),
    {
        (word >> self.shift) & self.mask()
    }

    /// Whether any bit of the field is set in `word`.
    pub fn is_set(&self, word: u32) -> (set: bool)
        requires
            self.wf(),
        ensures
            set == (self.extract(word) != 0),
    {
        self.read(word) != 0
    }

    /// Whether the field of `word` holds exactly `value`.
    pub fn matches_all(&self, word: u32, value: u32) -> (same: bool)
        requires
            self.wf(),
        ensures
            same == (self.extract(word) == value),
    {
        self.read(word) == value
    }
}

/// What is placed in a field is read back from it, cut to the field's width.
pub proof fn lemma_field_round_trip(field: Field, value: u32)
    requires
        field.wf(),
    ensures
        field.extract(field.place(value)) == value & field.max_value(),
        value <= field.max_value() ==> field.extract(field.place(value)) == value,
{
    let shift: u32 = field.shift;
    let width: u32 = field.width;
    let mask: u32 = low_bits(width);
    assert(width < 32 ==> mask == ((1u32 << width) - 1) as u32);
    assert(width >= 32 ==> mask == 0xffff_ffffu32);
    assert((((value & mask) << shift) >> shift) & mask == value & mask) by (bit_vector)
        requires
            shift + width <= 32,
            1 <= width,
            width < 32 ==> mask == ((1u32 << width) - 1) as u32,
            width >= 32 ==> mask == 0xffff_ffffu32,
    ;
    assert(value <= mask ==> value & mask == value) by (bit_vector)
        requires
            1 <= width <= 32,
            width < 32 ==> mask == ((1u32 << width) - 1) as u32,
            width >= 32 ==> mask == 0xffff_ffffu32,
    ;
}

/// Joining a word with a field that lies elsewhere does not change what the
/// first field holds.
pub proof fn lemma_field_join(field: Field, other: Field, word: u32, value: u32)
    requires
        field.wf(),
        other.wf(),
        field.disjoint(other),
    ensures
        field.extract(word | other.place(value)) == field.extract(word),
{
    let s: u32 = field.shift;
    let w: u32 = field.width;
    let m: u32 = low_bits(w);
    let t: u32 = other.shift;
    let v: u32 = other.width;
    let n: u32 = low_bits(v);
    assert(((word | ((value & n) << t)) >> s) & m == (word >> s) & m) by (bit_vector)
        requires
            1 <= w,
            1 <= v,
            s + w <= 32,
            t + v <= 32,
            s + w <= t || t + v <= s,
            w < 32 ==> m == ((1u32 << w) - 1) as u32,
            w >= 32 ==> m == 0xffff_ffffu32,
            v < 32 ==> n == ((1u32 << v) - 1) as u32,
            v >= 32 ==> n == 0xffff_ffffu32,
    ;
}

} // verus!
