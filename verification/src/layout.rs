//! The fields of the x86-64 System V variadic-argument cursor and the bytes
//! that hold them in memory.

use vstd::prelude::*;
use crate::little_endian::{
    le_bytes, le_value, lemma_le_bytes_len, lemma_le_bytes_of_value, lemma_le_value_bound,
    lemma_le_value_of_bytes, pow256, push_le, read_le,
};

verus! {

/// Number of bytes that the cursor occupies in memory.
pub const EXT_VA_LIST_SIZE: usize = 24;

/// Alignment, in bytes, that the cursor's storage must have.
pub const EXT_VA_LIST_ALIGN: usize = 8;

/// Where `gp_offset` starts within the cursor's bytes.
pub const GP_OFFSET_AT: usize = 0;

/// Where `fp_offset` starts within the cursor's bytes.
pub const FP_OFFSET_AT: usize = 4;

/// Where `overflow_arg_area` starts within the cursor's bytes.
pub const OVERFLOW_ARG_AREA_AT: usize = 8;

/// Where `reg_save_area` starts within the cursor's bytes.
pub const REG_SAVE_AREA_AT: usize = 16;

/// The four fields of the cursor, in the order in which the calling
/// convention stores them. Addresses are held as plain 64-bit numbers.
#[derive(Debug, Clone, Copy, PartialEq, Eq, Structural)]
pub struct ExtVaListInner {
    /// Bytes of the register-save area already consumed by general-purpose
    /// register arguments.
    pub gp_offset: i32,
    /// Bytes of the register-save area already consumed by floating-point
    /// register arguments.
    pub fp_offset: i32,
    /// Address of the next unread argument in the overflow area.
    pub overflow_arg_area: u64,
    /// Address of the register-save area.
    pub reg_save_area: u64,
}

/// The value of `x` read as an unsigned 32-bit number with the same bits.
pub open spec fn twos_complement(x: i32) -> nat {
    if x >= 0 {
        x as nat
    } else {
        (x + 0x1_0000_0000) as nat
    }
}

/// The signed number whose 32-bit two's-complement pattern is `bits`.
pub open spec fn from_twos_complement(bits: nat) -> i32 {
    if bits < 0x8000_0000 {
        bits as i32
    } else {
        (bits - 0x1_0000_0000) as i32
    }
}

/// The 32-bit two's-complement pattern of `x`.
pub fn i32_to_bits(x: i32) -> (bits: u32)
    ensures
        bits as nat == twos_complement(x),
{
    if x >= 0 {
        x as u32
    } else {
        (x as i64 + 0x1_0000_0000i64) as u32
    }
}

/// The signed number whose 32-bit two's-complement pattern is `bits`.
pub fn i32_from_bits(bits: u32) -> (x: i32)
    ensures
        x == from_twos_complement(bits as nat),
{
    if bits < 0x8000_0000u32 {
        bits as i32
    } else {
        (bits as i64 - 0x1_0000_0000i64) as i32
    }
}

impl ExtVaListInner {
    /// The 24 bytes that hold these fields in memory: each field in
    /// little-endian order at its offset, with no padding between them.
    pub open spec fn image(self) -> Seq<u8> {
        le_bytes(twos_complement(self.gp_offset), 4) + le_bytes(
            twos_complement(self.fp_offset),
            4,
        ) + le_bytes(self.overflow_arg_area as nat, 8) + le_bytes(self.reg_save_area as nat, 8)
    }

    /// The fields that the 24 bytes of `image` hold.
    pub open spec fn of_image(image: Seq<u8>) -> ExtVaListInner {
        ExtVaListInner {
            gp_offset: from_twos_complement(
                le_value(image.subrange(GP_OFFSET_AT as int, GP_OFFSET_AT + 4)),
            ),
            fp_offset: from_twos_complement(
                le_value(image.subrange(FP_OFFSET_AT as int, FP_OFFSET_AT + 4)),
            ),
            overflow_arg_area: le_value(
                image.subrange(OVERFLOW_ARG_AREA_AT as int, OVERFLOW_ARG_AREA_AT + 8),
            ) as u64,
            reg_save_area: le_value(
                image.subrange(REG_SAVE_AREA_AT as int, REG_SAVE_AREA_AT + 8),
            ) as u64,
        }
    }

    /// Reads the fields out of the bytes of a cursor.
    pub fn from_image(image: &[u8]) -> (inner: ExtVaListInner)
        requires
            image@.len() == EXT_VA_LIST_SIZE,
        ensures
            inner == Self::of_image(image@),
    {
        proof {
            lemma_le_value_bound(image@.subrange(GP_OFFSET_AT as int, GP_OFFSET_AT + 4));
            lemma_le_value_bound(image@.subrange(FP_OFFSET_AT as int, FP_OFFSET_AT + 4));
            lemma_pow256_values();
        }
        let gp: u64 = read_le(image, GP_OFFSET_AT, 4);
        let fp: u64 = read_le(image, FP_OFFSET_AT, 4);
        ExtVaListInner {
            gp_offset: i32_from_bits(gp as u32),
            fp_offset: i32_from_bits(fp as u32),
            overflow_arg_area: read_le(image, OVERFLOW_ARG_AREA_AT, 8),
            reg_save_area: read_le(image, REG_SAVE_AREA_AT, 8),
        }
    }

    /// Writes the fields out as the bytes of a cursor.
    pub fn to_image(&self) -> (image: Vec<u8>)
        ensures
            image@ == self.image(),
            image@.len() == EXT_VA_LIST_SIZE,
    {
        let mut image: Vec<u8> = Vec::new();
        push_le(&mut image, i32_to_bits(self.gp_offset) as u64, 4);
        push_le(&mut image, i32_to_bits(self.fp_offset) as u64, 4);
        push_le(&mut image, self.overflow_arg_area, 8);
        push_le(&mut image, self.reg_save_area, 8);
        proof {
            lemma_image_len(*self);
            assert(image@ =~= self.image());
        }
        image
    }
}

/// `256^4` is `2^32` and `256^8` is `2^64`.
pub proof fn lemma_pow256_values()
    ensures
        pow256(4) == 0x1_0000_0000,
        pow256(8) == 0x1_0000_0000_0000_0000,
{
    reveal_with_fuel(pow256, 9);
}

/// The fields fill exactly `EXT_VA_LIST_SIZE` bytes.
pub proof fn lemma_image_len(inner: ExtVaListInner)
    ensures
        inner.image().len() == EXT_VA_LIST_SIZE,
{
    lemma_le_bytes_len(twos_complement(inner.gp_offset), 4);
    lemma_le_bytes_len(twos_complement(inner.fp_offset), 4);
    lemma_le_bytes_len(inner.overflow_arg_area as nat, 8);
    lemma_le_bytes_len(inner.reg_save_area as nat, 8);
}

/// Reading the fields out of 24 bytes and writing them back gives the same
/// 24 bytes: every bit of the cursor belongs to one of the four fields.
pub proof fn lemma_image_round_trip(image: Seq<u8>)
    requires
        image.len() == EXT_VA_LIST_SIZE,
    ensures
        ExtVaListInner::of_image(image).image() == image,
{
    let gp = image.subrange(GP_OFFSET_AT as int, GP_OFFSET_AT + 4);
    let fp = image.subrange(FP_OFFSET_AT as int, FP_OFFSET_AT + 4);
    let overflow = image.subrange(OVERFLOW_ARG_AREA_AT as int, OVERFLOW_ARG_AREA_AT + 8);
    let reg_save = image.subrange(REG_SAVE_AREA_AT as int, REG_SAVE_AREA_AT + 8);
    lemma_pow256_values();
    lemma_le_value_bound(gp);
    lemma_le_value_bound(fp);
    lemma_le_value_bound(overflow);
    lemma_le_value_bound(reg_save);
    lemma_le_bytes_of_value(gp);
    lemma_le_bytes_of_value(fp);
    lemma_le_bytes_of_value(overflow);
    lemma_le_bytes_of_value(reg_save);
    assert(gp + fp + overflow + reg_save =~= image);
}

/// Writing the fields out and reading them back gives the same fields.
pub proof fn lemma_fields_round_trip(inner: ExtVaListInner)
    ensures
        ExtVaListInner::of_image(inner.image()) == inner,
{
    let gp = le_bytes(twos_complement(inner.gp_offset), 4);
    let fp = le_bytes(twos_complement(inner.fp_offset), 4);
    let overflow = le_bytes(inner.overflow_arg_area as nat, 8);
    let reg_save = le_bytes(inner.reg_save_area as nat, 8);
    let image = inner.image();
    lemma_le_bytes_len(twos_complement(inner.gp_offset), 4);
    lemma_le_bytes_len(twos_complement(inner.fp_offset), 4);
    lemma_le_bytes_len(inner.overflow_arg_area as nat, 8);
    lemma_le_bytes_len(inner.reg_save_area as nat, 8);
    lemma_pow256_values();
    lemma_le_value_of_bytes(twos_complement(inner.gp_offset), 4);
    lemma_le_value_of_bytes(twos_complement(inner.fp_offset), 4);
    lemma_le_value_of_bytes(inner.overflow_arg_area as nat, 8);
    lemma_le_value_of_bytes(inner.reg_save_area as nat, 8);
    assert(image.subrange(GP_OFFSET_AT as int, GP_OFFSET_AT + 4) =~= gp);
    assert(image.subrange(FP_OFFSET_AT as int, FP_OFFSET_AT + 4) =~= fp);
    assert(image.subrange(OVERFLOW_ARG_AREA_AT as int, OVERFLOW_ARG_AREA_AT + 8) =~= overflow);
    assert(image.subrange(REG_SAVE_AREA_AT as int, REG_SAVE_AREA_AT + 8) =~= reg_save);
}

/// The address of the next overflow argument occupies bytes 8 to 16 of the
/// cursor and no others: two cursors that agree on the other three fields
/// have the same bytes everywhere else.
pub proof fn lemma_overflow_pointer_bytes(a: ExtVaListInner, b: ExtVaListInner)
    requires
        a.gp_offset == b.gp_offset,
        a.fp_offset == b.fp_offset,
        a.reg_save_area == b.reg_save_area,
    ensures
        a.image().subrange(0, OVERFLOW_ARG_AREA_AT as int) == b.image().subrange(
            0,
            OVERFLOW_ARG_AREA_AT as int,
        ),
        a.image().subrange(REG_SAVE_AREA_AT as int, EXT_VA_LIST_SIZE as int) == b.image().subrange(
            REG_SAVE_AREA_AT as int,
            EXT_VA_LIST_SIZE as int,
        ),
        a.image().subrange(OVERFLOW_ARG_AREA_AT as int, REG_SAVE_AREA_AT as int) == le_bytes(
            a.overflow_arg_area as nat,
            8,
        ),
{
    lemma_le_bytes_len(twos_complement(a.gp_offset), 4);
    lemma_le_bytes_len(twos_complement(a.fp_offset), 4);
    lemma_le_bytes_len(a.overflow_arg_area as nat, 8);
    lemma_le_bytes_len(b.overflow_arg_area as nat, 8);
    lemma_le_bytes_len(a.reg_save_area as nat, 8);
    assert(a.image().subrange(0, OVERFLOW_ARG_AREA_AT as int) =~= b.image().subrange(
        0,
        OVERFLOW_ARG_AREA_AT as int,
    ));
    assert(a.image().subrange(REG_SAVE_AREA_AT as int, EXT_VA_LIST_SIZE as int)
        =~= b.image().subrange(REG_SAVE_AREA_AT as int, EXT_VA_LIST_SIZE as int));
    assert(a.image().subrange(OVERFLOW_ARG_AREA_AT as int, REG_SAVE_AREA_AT as int) =~= le_bytes(
        a.overflow_arg_area as nat,
        8,
    ));
}

} // verus!
