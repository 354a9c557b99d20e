//! The parameter table of schema v0: 250 registers, addressed either in one
//! flat space or through six partitions that lie side by side in it.
//!
//! | partition | flat range   |
//! |-----------|--------------|
//! | XP        | `[0, 30)`    |
//! | KP        | `[30, 60)`   |
//! | OP        | `[60, 120)`  |
//! | VP        | `[120, 180)` |
//! | OC        | `[180, 240)` |
//! | SF        | `[240, 250)` |
//!
//! SF is the control partition. `SF[0]` holds the joint type in its low 16
//! bits and `SF[9]` the schema version; `SF[1]` and `SF[2]` are the enable
//! bitmaps of XP and KP; the pairs `SF[3..5]`, `SF[5..7]` and `SF[7..9]` are
//! the 60-bit enable bitmaps of OP, VP and OC.

use super::flat_id::SeamParamFlatId;
use super::param_value::{bits_of, value_of, SeamParamValue};
use super::part_id::{
    SeamParamKpId, SeamParamOcId, SeamParamOpId, SeamParamSfId, SeamParamVpId, SeamParamXpId,
};
use vstd::prelude::*;

verus! {

/// Number of registers in the table.
pub const PARAM_COUNT: usize = 250;

/// Flat index of the first XP register.
pub const XP_BASE: usize = 0;

/// Flat index of the first KP register.
pub const KP_BASE: usize = 30;

/// Flat index of the first OP register.
pub const OP_BASE: usize = 60;

/// Flat index of the first VP register.
pub const VP_BASE: usize = 120;

/// Flat index of the first OC register.
pub const OC_BASE: usize = 180;

/// Flat index of the first SF register.
pub const SF_BASE: usize = 240;

/// Flat index of the register that holds the joint type.
pub const SF_JOINT_TYPE: usize = 240;

/// Flat index of the enable bitmap of XP.
pub const SF_XP_EN: usize = 241;

/// Flat index of the enable bitmap of KP.
pub const SF_KP_EN: usize = 242;

/// Flat index of the low register of the enable bitmap of OP.
pub const SF_OP_EN: usize = 243;

/// Flat index of the low register of the enable bitmap of VP.
pub const SF_VP_EN: usize = 245;

/// Flat index of the low register of the enable bitmap of OC.
pub const SF_OC_EN: usize = 247;

/// Flat index of the register that holds the schema version.
pub const SF_VERSION: usize = 249;

/// Whether bit `k` of `reg` is set.
pub open spec fn bit_set(reg: i32, k: u32) -> bool {
    (reg >> k) & 1 == 1
}

/// The 60-bit enable bitmap that a register pair encodes: the high register
/// shifted left by 30, joined with the low 30 bits of the low register.
pub open spec fn enable_bits(lo: i32, hi: i32) -> i64 {
    ((hi as i64) << 30) | ((lo & 0x3FFF_FFFF) as i64)
}

/// Whether entry `k` of a 60-entry partition is enabled by the register pair
/// `(lo, hi)`: entries below 30 by bit `k` of `lo`, the others by bit `k - 30`
/// of `hi`.
pub open spec fn pair_enabled(lo: i32, hi: i32, k: u32) -> bool {
    if k < 30 {
        bit_set(lo, k)
    } else {
        bit_set(hi, (k - 30) as u32)
    }
}

/// What a read of register `i` of `table` gives: the register where `i` is in
/// the flat space, zero where it is not.
pub open spec fn read(table: Seq<i32>, i: int) -> i32 {
    if 0 <= i < 250 {
        table[i]
    } else {
        0
    }
}

/// What a read of entry `k` gives in the partition of `count` registers that
/// starts at `base`: the register where `k` is in the partition, zero where it
/// is not.
pub open spec fn read_part(table: Seq<i32>, base: int, count: int, k: int) -> i32 {
    if 0 <= k < count {
        table[base + k]
    } else {
        0
    }
}

/// The table after a write of `value` to register `i`: changed in that one
/// register where `i` is in the flat space, unchanged where it is not.
pub open spec fn written(table: Seq<i32>, i: int, value: i32) -> Seq<i32> {
    if 0 <= i < 250 {
        table.update(i, value)
    } else {
        table
    }
}

/// The joint type that `table` encodes: the low 16 bits of `SF[0]`.
pub open spec fn joint_type_of(table: Seq<i32>) -> i32 {
    table[240] & 0xffff
}

/// The schema version that `table` encodes: the low 16 bits of `SF[9]`.
pub open spec fn version_of(table: Seq<i32>) -> i32 {
    table[249] & 0xffff
}

/// What the `*_en` accessors of the 60-entry partitions return for entry `k`
/// of the partition whose bitmap starts at register `lo` of `table`.
pub open spec fn pair_en(table: Seq<i32>, lo: int, k: int) -> i32 {
    if 0 <= k < 60 && pair_enabled(table[lo], table[lo + 1], k as u32) {
        1
    } else {
        0
    }
}

/// The table that a list of integers fills: the first 250 of them in order,
/// zero where the list has ended.
pub open spec fn table_of(values: Seq<i32>) -> Seq<i32> {
    Seq::new(250, |i: int| if i < values.len() { values[i] } else { 0 })
}

/// Bit `k` of the bitmap that a pair encodes is the enable bit of entry `k`.
pub proof fn lemma_enable_bits_decode(lo: i32, hi: i32, k: u32)
    requires
        k < 60,
    ensures
        (enable_bits(lo, hi) & (1i64 << k) != 0) == pair_enabled(lo, hi, k),
{
    assert((((((hi as i64) << 30) | ((lo & 0x3FFF_FFFF) as i64)) & (1i64 << k)) != 0) == (if k
        < 30 {
        (lo >> k) & 1 == 1
    } else {
        (hi >> ((k - 30) as u32)) & 1 == 1
    })) by (bit_vector)
        requires
            k < 60,
    ;
}

/// Setting a bit of a register sets it and leaves every other bit as it was;
/// clearing does the same the other way.
pub proof fn lemma_bit_update(reg: i32, k: u32, j: u32)
    requires
        k < 30,
        j < 30,
    ensures
        bit_set(reg | (1i32 << k), k),
        !bit_set(reg & !(1i32 << k), k),
        j != k ==> bit_set(reg | (1i32 << k), j) == bit_set(reg, j),
        j != k ==> bit_set(reg & !(1i32 << k), j) == bit_set(reg, j),
{
    assert(((reg | (1i32 << k)) >> k) & 1 == 1) by (bit_vector)
        requires
            k < 30,
    ;
    assert(((reg & !(1i32 << k)) >> k) & 1 == 0) by (bit_vector)
        requires
            k < 30,
    ;
    assert(j != k ==> (((reg | (1i32 << k)) >> j) & 1) == ((reg >> j) & 1)) by (bit_vector)
        requires
            k < 30,
            j < 30,
    ;
    assert(j != k ==> (((reg & !(1i32 << k)) >> j) & 1) == ((reg >> j) & 1)) by (bit_vector)
        requires
            k < 30,
            j < 30,
    ;
}

/// A value written to a register of the flat space is read back unchanged, bit
/// for bit in either reading, and no other register changes.
pub proof fn lemma_write_then_read(table: Seq<i32>, i: int, value: i32, j: int)
    requires
        table.len() == 250,
        0 <= i < 250,
    ensures
        read(written(table, i, value), i) == value,
        value_of(bits_of(read(written(table, i, value), i))) == value,
        j != i ==> read(written(table, i, value), j) == read(table, j),
{
}

/// Outside the flat space every read gives zero, in either reading, and every
/// write leaves the table as it was. `Invalid`, which every number outside the
/// space is turned into, is such an index.
pub proof fn lemma_outside_flat_space(table: Seq<i32>, i: int, value: i32)
    requires
        !(0 <= i < 250),
    ensures
        read(table, i) == 0,
        bits_of(read(table, i)) == 0,
        written(table, i, value) == table,
        SeamParamFlatId::spec_from_index(i) == SeamParamFlatId::Invalid,
        read(table, SeamParamFlatId::Invalid.spec_index()) == 0,
        written(table, SeamParamFlatId::Invalid.spec_index(), value) == table,
{
}

/// The major and the minor joint type are the two bytes of the joint type,
/// whatever `SF[0]` holds.
pub proof fn lemma_joint_type_bytes(table: Seq<i32>)
    ensures
        0 <= joint_type_of(table) < 0x1_0000,
        0 <= joint_type_of(table) >> 8 < 256,
        0 <= joint_type_of(table) & 0xff < 256,
        ((joint_type_of(table) >> 8) << 8) | (joint_type_of(table) & 0xff) == joint_type_of(
            table,
        ),
{
    let sf0 = table[240];
    assert(0 <= sf0 & 0xffff < 0x1_0000) by (bit_vector);
    assert(0 <= (sf0 & 0xffff) >> 8 < 256) by (bit_vector);
    assert(0 <= (sf0 & 0xffff) & 0xff < 256) by (bit_vector);
    assert(((((sf0 & 0xffff) >> 8) << 8) | ((sf0 & 0xffff) & 0xff)) == sf0 & 0xffff)
        by (bit_vector);
}

/// The register of the pair at `lo` that holds the enable bit of entry `k`.
pub open spec fn enable_register(lo: int, k: int) -> int {
    if k < 30 {
        lo
    } else {
        lo + 1
    }
}

/// The mask of the enable bit of entry `k` within its register.
pub open spec fn enable_mask(k: int) -> i32 {
    if k < 30 {
        1i32 << (k as u32)
    } else {
        1i32 << ((k - 30) as u32)
    }
}

/// An entry of a 60-entry partition reads as enabled once its bit is set in
/// the register pair, and as disabled once the bit is cleared; this holds on
/// both sides of the split between the two registers (entries 29 and 30).
/// Neither write changes what any other entry reads.
pub proof fn lemma_pair_enable_write(table: Seq<i32>, lo: int, k: int, j: int)
    requires
        table.len() == 250,
        lo == 243 || lo == 245 || lo == 247,
        0 <= k < 60,
        0 <= j < 60,
    ensures
        pair_en(
            written(
                table,
                enable_register(lo, k),
                table[enable_register(lo, k)] | enable_mask(k),
            ),
            lo,
            k,
        ) == 1,
        pair_en(
            written(
                table,
                enable_register(lo, k),
                table[enable_register(lo, k)] & !enable_mask(k),
            ),
            lo,
            k,
        ) == 0,
        j != k ==> pair_en(
            written(
                table,
                enable_register(lo, k),
                table[enable_register(lo, k)] | enable_mask(k),
            ),
            lo,
            j,
        ) == pair_en(table, lo, j),
        j != k ==> pair_en(
            written(
                table,
                enable_register(lo, k),
                table[enable_register(lo, k)] & !enable_mask(k),
            ),
            lo,
            j,
        ) == pair_en(table, lo, j),
{
    let reg = table[enable_register(lo, k)];
    let kb: u32 = (if k < 30 {
        k
    } else {
        k - 30
    }) as u32;
    let jb: u32 = (if j < 30 {
        j
    } else {
        j - 30
    }) as u32;
    lemma_bit_update(reg, kb, jb);
}


/// The six partitions of a table, each as an array of its own.
#[derive(Copy, Clone, Debug)]
pub struct SeamParamsPartsV0 {
    pub xp: [SeamParamValue; 30],
    pub kp: [SeamParamValue; 30],
    pub op: [SeamParamValue; 60],
    pub vp: [SeamParamValue; 60],
    pub oc: [SeamParamValue; 60],
    pub sf: [SeamParamValue; 10],
}

impl SeamParamsPartsV0 {
    /// The partitions laid side by side in the order of the flat space.
    pub open spec fn flat(&self) -> Seq<SeamParamValue> {
        self.xp@ + self.kp@ + self.op@ + self.vp@ + self.oc@ + self.sf@
    }
}

impl Default for SeamParamsPartsV0 {
    fn default() -> (r: Self)
        ensures
            r.flat() == Seq::new(250, |i: int| SeamParamValue { i32_val: 0 }),
    {
        let zero = SeamParamValue { i32_val: 0 };
        let r = SeamParamsPartsV0 {
            xp: [zero;30],
            kp: [zero;30],
            op: [zero;60],
            vp: [zero;60],
            oc: [zero;60],
            sf: [zero;10],
        };
        assert(r.flat() =~= Seq::new(250, |i: int| SeamParamValue { i32_val: 0 }));
        r
    }
}

/// The parameter table. Its view is the sequence of the 250 registers read as
/// integers.
#[derive(Copy, Clone, Debug)]
pub struct SeamParamsV0 {
    /// The registers in flat order.
    pub values: [SeamParamValue; 250],
}

impl View for SeamParamsV0 {
    type V = Seq<i32>;

    open spec fn view(&self) -> Seq<i32> {
        Seq::new(250, |i: int| self.values@[i].i32_val)
    }
}

impl Default for SeamParamsV0 {
    fn default() -> (r: Self)
        ensures
            r@ == Seq::new(250, |i: int| 0i32),
    {
        let zero = SeamParamValue { i32_val: 0 };
        let mut r = SeamParamsV0 { values: [zero;250] };
        let mut i: usize = 0;
        while i < 250
            invariant
                i <= 250,
                zero.i32_val == 0,
                forall|k: int| 0 <= k < i ==> r.values@[k] == zero,
            decreases 250 - i,
        {
            r.values[i] = zero;
            i = i + 1;
        }
        assert(r@ =~= Seq::new(250, |i: int| 0i32));
        r
    }
}

impl SeamParamsV0 {
    fn cell(&self, i: usize) -> (r: i32)
        requires
            i < 250,
        ensures
            r == self@[i as int],
    {
        self.values[i].i32_val
    }

    fn put(&mut self, i: usize, value: i32)
        requires
            i < 250,
        ensures
            final(self)@ == old(self)@.update(i as int, value),
    {
        self.values[i] = SeamParamValue { i32_val: value };
        assert(self@ =~= old(self)@.update(i as int, value));
    }

    /// The joint type: the low 16 bits of `SF[0]`.
    pub fn joint_type(&self) -> (r: i32)
        ensures
            r == joint_type_of(self@),
            0 <= r <= 0xffff,
    {
        let sf0: i32 = self.cell(SF_JOINT_TYPE);
        assert(0 <= sf0 & 0xffff <= 0xffff) by (bit_vector);
        sf0 & 0xffff
    }

    /// The major joint type: the high byte of the joint type.
    pub fn joint_type_major(&self) -> (r: i32)
        ensures
            r == joint_type_of(self@) >> 8,
            r == joint_type_of(self@) / 256,
    {
        let jt: i32 = self.joint_type();
        assert(jt >> 8 == jt / 256) by (bit_vector)
            requires
                0 <= jt <= 0xffff,
        ;
        jt >> 8
    }

    /// The minor joint type: the low byte of the joint type.
    pub fn joint_type_minor(&self) -> (r: i32)
        ensures
            r == joint_type_of(self@) & 0xff,
            r == joint_type_of(self@) % 256,
    {
        let jt: i32 = self.joint_type();
        assert(jt & 0xff == jt % 256) by (bit_vector)
            requires
                0 <= jt <= 0xffff,
        ;
        jt & 0xff
    }

    /// The schema version: the low 16 bits of `SF[9]`.
    pub fn version(&self) -> (r: i32)
        ensures
            r == version_of(self@),
            0 <= r <= 0xffff,
    {
        let sf9: i32 = self.cell(SF_VERSION);
        assert(0 <= sf9 & 0xffff <= 0xffff) by (bit_vector);
        sf9 & 0xffff
    }

    /// The register at `index` read as a float, as its IEEE-754 bit pattern;
    /// the pattern of `0.0` for `Invalid`.
    pub fn value_f32(&self, index: SeamParamFlatId) -> (r: u32)
        ensures
            r == bits_of(read(self@, index.spec_index())),
    {
        if index.is_valid() {
            self.values[index.index()].f32_bits()
        } else {
            0
        }
    }

    /// Stores the float with bit pattern `bits` at `index`; does nothing for
    /// `Invalid`.
    pub fn set_value_f32(&mut self, index: SeamParamFlatId, bits: u32)
        ensures
            final(self)@ == written(old(self)@, index.spec_index(), value_of(bits)),
    {
        if index.is_valid() {
            let value = SeamParamValue::from_f32(bits);
            self.put(index.index(), value.i32_val);
        }
    }

    /// The register at `index` read as an integer; `0` for `Invalid`.
    pub fn value_i32(&self, index: SeamParamFlatId) -> (r: i32)
        ensures
            r == read(self@, index.spec_index()),
    {
        if index.is_valid() {
            self.cell(index.index())
        } else {
            0
        }
    }

    /// Stores `value` at `index`; does nothing for `Invalid`.
    pub fn set_value_i32(&mut self, index: SeamParamFlatId, value: i32)
        ensures
            final(self)@ == written(old(self)@, index.spec_index(), value),
    {
        if index.is_valid() {
            self.put(index.index(), value);
        }
    }

    /// `XP[index]` read as a float bit pattern; the pattern of `0.0` for `Invalid`.
    pub fn xp_f32(&self, index: SeamParamXpId) -> (r: u32)
        ensures
            r == bits_of(read_part(self@, 0, 30, index.spec_index())),
    {
        if index.is_valid() {
            self.values[XP_BASE + index.index()].f32_bits()
        } else {
            0
        }
    }

    /// `XP[index]` read as an integer; `0` for `Invalid`.
    pub fn xp_i32(&self, index: SeamParamXpId) -> (r: i32)
        ensures
            r == read_part(self@, 0, 30, index.spec_index()),
    {
        if index.is_valid() {
            self.cell(XP_BASE + index.index())
        } else {
            0
        }
    }

    /// `KP[index]` read as a float bit pattern; the pattern of `0.0` for `Invalid`.
    pub fn kp_f32(&self, index: SeamParamKpId) -> (r: u32)
        ensures
            r == bits_of(read_part(self@, 30, 30, index.spec_index())),
    {
        if index.is_valid() {
            self.values[KP_BASE + index.index()].f32_bits()
        } else {
            0
        }
    }

    /// `KP[index]` read as an integer; `0` for `Invalid`.
    pub fn kp_i32(&self, index: SeamParamKpId) -> (r: i32)
        ensures
            r == read_part(self@, 30, 30, index.spec_index()),
    {
        if index.is_valid() {
            self.cell(KP_BASE + index.index())
        } else {
            0
        }
    }

    /// `OP[index]` read as a float bit pattern; the pattern of `0.0` for `Invalid`.
    pub fn op_f32(&self, index: SeamParamOpId) -> (r: u32)
        ensures
            r == bits_of(read_part(self@, 60, 60, index.spec_index())),
    {
        if index.is_valid() {
            self.values[OP_BASE + index.index()].f32_bits()
        } else {
            0
        }
    }

    /// `OP[index]` read as an integer; `0` for `Invalid`.
    pub fn op_i32(&self, index: SeamParamOpId) -> (r: i32)
        ensures
            r == read_part(self@, 60, 60, index.spec_index()),
    {
        if index.is_valid() {
            self.cell(OP_BASE + index.index())
        } else {
            0
        }
    }

    /// `VP[index]` read as a float bit pattern; the pattern of `0.0` for `Invalid`.
    pub fn vp_f32(&self, index: SeamParamVpId) -> (r: u32)
        ensures
            r == bits_of(read_part(self@, 120, 60, index.spec_index())),
    {
        if index.is_valid() {
            self.values[VP_BASE + index.index()].f32_bits()
        } else {
            0
        }
    }

    /// `VP[index]` read as an integer; `0` for `Invalid`.
    pub fn vp_i32(&self, index: SeamParamVpId) -> (r: i32)
        ensures
            r == read_part(self@, 120, 60, index.spec_index()),
    {
        if index.is_valid() {
            self.cell(VP_BASE + index.index())
        } else {
            0
        }
    }

    /// `OC[index]` read as a float bit pattern; the pattern of `0.0` for `Invalid`.
    pub fn oc_f32(&self, index: SeamParamOcId) -> (r: u32)
        ensures
            r == bits_of(read_part(self@, 180, 60, index.spec_index())),
    {
        if index.is_valid() {
            self.values[OC_BASE + index.index()].f32_bits()
        } else {
            0
        }
    }

    /// `OC[index]` read as an integer; `0` for `Invalid`.
    pub fn oc_i32(&self, index: SeamParamOcId) -> (r: i32)
        ensures
            r == read_part(self@, 180, 60, index.spec_index()),
    {
        if index.is_valid() {
            self.cell(OC_BASE + index.index())
        } else {
            0
        }
    }

    /// `SF[index]` read as a float bit pattern; the pattern of `0.0` for `Invalid`.
    pub fn sf_f32(&self, index: SeamParamSfId) -> (r: u32)
        ensures
            r == bits_of(read_part(self@, 240, 10, index.spec_index())),
    {
        if index.is_valid() {
            self.values[SF_BASE + index.index()].f32_bits()
        } else {
            0
        }
    }

    /// `SF[index]` read as an integer; `0` for `Invalid`.
    pub fn sf_i32(&self, index: SeamParamSfId) -> (r: i32)
        ensures
            r == read_part(self@, 240, 10, index.spec_index()),
    {
        if index.is_valid() {
            self.cell(SF_BASE + index.index())
        } else {
            0
        }
    }

    /// The enable bit of `XP[index]`, left in its place in `SF[1]`: nonzero
    /// exactly when the entry is enabled; `0` for `Invalid`.
    pub fn xp_en(&self, index: SeamParamXpId) -> (r: i32)
        ensures
            index != SeamParamXpId::Invalid ==> r == self@[241] & (1i32 << (
            index.spec_index() as u32)),
            (r != 0) == (index != SeamParamXpId::Invalid && bit_set(
                self@[241],
                index.spec_index() as u32,
            )),
    {
        if index.is_valid() {
            let reg: i32 = self.cell(SF_XP_EN);
            let k: u32 = index.index() as u32;
            assert(((reg & (1i32 << k)) != 0) == ((reg >> k) & 1 == 1)) by (bit_vector)
                requires
                    k < 30,
            ;
            reg & (1i32 << k)
        } else {
            0
        }
    }

    /// The enable bit of `KP[index]`, left in its place in `SF[2]`: nonzero
    /// exactly when the entry is enabled; `0` for `Invalid`.
    pub fn kp_en(&self, index: SeamParamKpId) -> (r: i32)
        ensures
            index != SeamParamKpId::Invalid ==> r == self@[242] & (1i32 << (
            index.spec_index() as u32)),
            (r != 0) == (index != SeamParamKpId::Invalid && bit_set(
                self@[242],
                index.spec_index() as u32,
            )),
    {
        if index.is_valid() {
            let reg: i32 = self.cell(SF_KP_EN);
            let k: u32 = index.index() as u32;
            assert(((reg & (1i32 << k)) != 0) == ((reg >> k) & 1 == 1)) by (bit_vector)
                requires
                    k < 30,
            ;
            reg & (1i32 << k)
        } else {
            0
        }
    }

    fn pair_bits(&self, lo: usize) -> (r: i64)
        requires
            lo < 249,
        ensures
            r == enable_bits(self@[lo as int], self@[lo + 1]),
    {
        let low: i32 = self.cell(lo);
        let high: i32 = self.cell(lo + 1);
        ((high as i64) << 30) | ((low & 0x3FFF_FFFF) as i64)
    }

    fn pair_en(&self, lo: usize, k: usize) -> (r: i32)
        requires
            lo < 249,
            k < 60,
        ensures
            r == pair_en(self@, lo as int, k as int),
    {
        let bits: i64 = self.pair_bits(lo);
        let shift: u32 = k as u32;
        proof {
            lemma_enable_bits_decode(self@[lo as int], self@[lo + 1], shift);
        }
        if (bits & (1i64 << shift)) != 0 {
            1
        } else {
            0
        }
    }

    /// The 60-bit enable bitmap of OP, from `SF[3]` and `SF[4]`.
    pub fn op_en_bits(&self) -> (r: i64)
        ensures
            r == enable_bits(self@[243], self@[244]),
    {
        self.pair_bits(SF_OP_EN)
    }

    /// `1` if `OP[index]` is enabled, else `0`; `0` for `Invalid`.
    pub fn op_en(&self, index: SeamParamOpId) -> (r: i32)
        ensures
            r == pair_en(self@, 243 as int, index.spec_index()),
    {
        if index.is_valid() {
            self.pair_en(SF_OP_EN, index.index())
        } else {
            0
        }
    }

    /// The 60-bit enable bitmap of VP, from `SF[5]` and `SF[6]`.
    pub fn vp_en_bits(&self) -> (r: i64)
        ensures
            r == enable_bits(self@[245], self@[246]),
    {
        self.pair_bits(SF_VP_EN)
    }

    /// `1` if `VP[index]` is enabled, else `0`; `0` for `Invalid`.
    pub fn vp_en(&self, index: SeamParamVpId) -> (r: i32)
        ensures
            r == pair_en(self@, 245 as int, index.spec_index()),
    {
        if index.is_valid() {
            self.pair_en(SF_VP_EN, index.index())
        } else {
            0
        }
    }

    /// The 60-bit enable bitmap of OC, from `SF[7]` and `SF[8]`.
    pub fn oc_en_bits(&self) -> (r: i64)
        ensures
            r == enable_bits(self@[247], self@[248]),
    {
        self.pair_bits(SF_OC_EN)
    }

    /// `1` if `OC[index]` is enabled, else `0`; `0` for `Invalid`.
    pub fn oc_en(&self, index: SeamParamOcId) -> (r: i32)
        ensures
            r == pair_en(self@, 247 as int, index.spec_index()),
    {
        if index.is_valid() {
            self.pair_en(SF_OC_EN, index.index())
        } else {
            0
        }
    }

    /// Overwrites every register with the one of `other`.
    pub fn merge(&mut self, other: &Self)
        ensures
            final(self)@ == other@,
    {
        let mut i: usize = 0;
        while i < 250
            invariant
                i <= 250,
                forall|k: int| 0 <= k < i ==> self@[k] == other@[k],
            decreases 250 - i,
        {
            self.put(i, other.cell(i));
            i = i + 1;
        }
        assert(self@ =~= other@);
    }

    /// The table split into its six partitions.
    pub fn parts(&self) -> (r: SeamParamsPartsV0)
        ensures
            r.flat() == self.values@,
    {
        let mut r = SeamParamsPartsV0::default();
        let mut i: usize = 0;
        while i < 250
            invariant
                i <= 250,
                forall|k: int| 0 <= k < 30 && k < i ==> r.xp@[k] == self.values@[k],
                forall|k: int| 0 <= k < 30 && 30 + k < i ==> r.kp@[k] == self.values@[30 + k],
                forall|k: int| 0 <= k < 60 && 60 + k < i ==> r.op@[k] == self.values@[60 + k],
                forall|k: int| 0 <= k < 60 && 120 + k < i ==> r.vp@[k] == self.values@[120 + k],
                forall|k: int| 0 <= k < 60 && 180 + k < i ==> r.oc@[k] == self.values@[180 + k],
                forall|k: int| 0 <= k < 10 && 240 + k < i ==> r.sf@[k] == self.values@[240 + k],
            decreases 250 - i,
        {
            let value = self.values[i];
            if i < KP_BASE {
                r.xp[i - XP_BASE] = value;
            } else if i < OP_BASE {
                r.kp[i - KP_BASE] = value;
            } else if i < VP_BASE {
                r.op[i - OP_BASE] = value;
            } else if i < OC_BASE {
                r.vp[i - VP_BASE] = value;
            } else if i < SF_BASE {
                r.oc[i - OC_BASE] = value;
            } else {
                r.sf[i - SF_BASE] = value;
            }
            i = i + 1;
        }
        assert(r.flat() =~= self.values@);
        r
    }

    /// The table that holds the six partitions side by side.
    pub fn from_parts(parts: &SeamParamsPartsV0) -> (r: Self)
        ensures
            r.values@ == parts.flat(),
    {
        let mut r = SeamParamsV0::default();
        let mut i: usize = 0;
        while i < 250
            invariant
                i <= 250,
                forall|k: int| 0 <= k < i ==> r.values@[k] == parts.flat()[k],
            decreases 250 - i,
        {
            let value = if i < KP_BASE {
                parts.xp[i - XP_BASE]
            } else if i < OP_BASE {
                parts.kp[i - KP_BASE]
            } else if i < VP_BASE {
                parts.op[i - OP_BASE]
            } else if i < OC_BASE {
                parts.vp[i - VP_BASE]
            } else if i < SF_BASE {
                parts.oc[i - OC_BASE]
            } else {
                parts.sf[i - SF_BASE]
            };
            r.values[i] = value;
            i = i + 1;
        }
        assert(r.values@ =~= parts.flat());
        r
    }

    /// The table that `values` fills: its first 250 entries in order, zero
    /// where it is shorter.
    pub fn from_values(values: &[i32]) -> (r: Self)
        ensures
            r@ == table_of(values@),
    {
        let mut r = SeamParamsV0::default();
        let n: usize = if values.len() < 250 {
            values.len()
        } else {
            250
        };
        let mut i: usize = 0;
        while i < n
            invariant
                i <= n <= 250,
                n <= values.len(),
                forall|k: int| 0 <= k < i ==> r@[k] == values@[k],
                forall|k: int| i <= k < 250 ==> r@[k] == 0,
            decreases n - i,
        {
            r.put(i, values[i]);
            i = i + 1;
        }
        assert(r@ =~= table_of(values@));
        r
    }

    /// The 250 registers in flat order, read as integers.
    pub fn to_values(&self) -> (r: Vec<i32>)
        ensures
            r@ == self@,
    {
        let mut r: Vec<i32> = Vec::with_capacity(250);
        let mut i: usize = 0;
        while i < 250
            invariant
                i <= 250,
                r@.len() == i,
                forall|k: int| 0 <= k < i ==> r@[k] == self@[k],
            decreases 250 - i,
        {
            r.push(self.cell(i));
            i = i + 1;
        }
        assert(r@ =~= self@);
        r
    }
}

} // verus!
