//! One register of the parameter table: four bytes that are read either as a
//! signed integer or as the bit pattern of a 32-bit float.

use vstd::prelude::*;
use vstd::std_specs::convert::FromSpecImpl;

verus! {

/// The unsigned number whose 32 bits are those of `value` in two's complement.
pub open spec fn bits_of(value: i32) -> u32 {
    if value >= 0 {
        value as u32
    } else {
        (value + 0x1_0000_0000) as u32
    }
}

/// The signed number whose 32 bits in two's complement are those of `bits`.
pub open spec fn value_of(bits: u32) -> i32 {
    if bits < 0x8000_0000 {
        bits as i32
    } else {
        (bits - 0x1_0000_0000) as i32
    }
}

/// Reading a signed number as bits and the bits as a signed number gives the
/// number back, and the other way round: nothing is converted, only reread.
pub proof fn lemma_bits_round_trip(value: i32, bits: u32)
    ensures
        value_of(bits_of(value)) == value,
        bits_of(value_of(bits)) == bits,
{
}

/// A register. The cell is stored as its integer reading; the float reading is
/// the same 32 bits, handed out and taken in as an IEEE-754 bit pattern.
#[derive(Copy, Clone, Debug, PartialEq, Eq, Structural)]
pub struct SeamParamValue {
    /// The cell read as a signed integer.
    pub i32_val: i32,
}

impl SeamParamValue {
    /// The register that reads `value` as an integer.
    pub fn from_i32(value: i32) -> (r: Self)
        ensures
            r.i32_val == value,
    {
        SeamParamValue { i32_val: value }
    }

    /// The register that holds the float whose IEEE-754 bit pattern is `bits`.
    pub fn from_f32(bits: u32) -> (r: Self)
        ensures
            r.i32_val == value_of(bits),
            bits_of(r.i32_val) == bits,
    {
        assert(bits as i32 == value_of(bits)) by (bit_vector);
        SeamParamValue { i32_val: bits as i32 }
    }

    /// The IEEE-754 bit pattern of the cell read as a float.
    pub fn f32_bits(self) -> (r: u32)
        ensures
            r == bits_of(self.i32_val),
            value_of(r) == self.i32_val,
    {
        let value: i32 = self.i32_val;
        assert(value as u32 == bits_of(value)) by (bit_vector);
        value as u32
    }
}

impl Default for SeamParamValue {
    fn default() -> (r: Self)
        ensures
            r.i32_val == 0,
    {
        SeamParamValue { i32_val: 0 }
    }
}

impl From<i32> for SeamParamValue {
    fn from(value: i32) -> (r: Self) {
        SeamParamValue { i32_val: value }
    }
}

impl FromSpecImpl<i32> for SeamParamValue {
    open spec fn obeys_from_spec() -> bool {
        true
    }

    open spec fn from_spec(value: i32) -> Self {
        SeamParamValue { i32_val: value }
    }
}

impl From<SeamParamValue> for i32 {
    fn from(value: SeamParamValue) -> (r: i32) {
        value.i32_val
    }
}

impl FromSpecImpl<SeamParamValue> for i32 {
    open spec fn obeys_from_spec() -> bool {
        true
    }

    open spec fn from_spec(value: SeamParamValue) -> i32 {
        value.i32_val
    }
}

} // verus!
