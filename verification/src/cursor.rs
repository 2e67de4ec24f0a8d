//! The host's opaque cursor, the extended cursor that reads it as four
//! fields, and the passage from one to the other.

use vstd::prelude::*;
use crate::layout::{
    lemma_fields_round_trip, lemma_image_len, lemma_image_round_trip, ExtVaListInner,
    EXT_VA_LIST_ALIGN, EXT_VA_LIST_SIZE,
};
use crate::overflow_area::{OverflowArea, OverflowAreaView};

verus! {

/// What a host cursor is to a proof.
pub struct VaListView {
    /// The alignment of the host's cursor type.
    pub align: nat,
    /// The bytes of the cursor; their number is the size of the host's type.
    pub image: Seq<u8>,
    /// The overflow area that the cursor walks.
    pub area: OverflowAreaView,
}

/// What an extended cursor is to a proof.
pub struct ExtVaListView {
    /// The four fields.
    pub inner: ExtVaListInner,
    /// The overflow area that the cursor walks.
    pub area: OverflowAreaView,
}

impl VaListView {
    /// Whether the host's cursor type has the size and the alignment of the
    /// extended cursor. Only then may its bytes be read as the four fields.
    pub open spec fn matches_layout(self) -> bool {
        self.image.len() == EXT_VA_LIST_SIZE && self.align == EXT_VA_LIST_ALIGN
    }

    /// The extended cursor that these bytes are, relabelled.
    pub open spec fn reinterpret(self) -> ExtVaListView {
        ExtVaListView { inner: ExtVaListInner::of_image(self.image), area: self.area }
    }
}

impl ExtVaListView {
    /// The host cursor that these fields are, relabelled.
    pub open spec fn restore(self) -> VaListView {
        VaListView {
            align: EXT_VA_LIST_ALIGN as nat,
            image: self.inner.image(),
            area: self.area,
        }
    }

    /// How far into the overflow area the cursor stands.
    pub open spec fn offset(self) -> int {
        self.inner.overflow_arg_area - self.area.base
    }

    /// Whether the next `len` bytes at the cursor lie in the overflow area.
    pub open spec fn has_bytes(self, len: nat) -> bool {
        self.area.holds(self.inner.overflow_arg_area as nat, len)
    }
}

/// The host's cursor over a variadic argument list: opaque bytes of the
/// host's size and alignment, together with the overflow area of the call
/// that it belongs to.
#[derive(Debug)]
pub struct VaList<'a> {
    image: Vec<u8>,
    align: usize,
    area: OverflowArea<'a>,
}

impl<'a> View for VaList<'a> {
    type V = VaListView;

    closed spec fn view(&self) -> VaListView {
        VaListView { align: self.align as nat, image: self.image@, area: self.area@ }
    }
}

/// An extended cursor: the host's cursor with its four fields laid open, so
/// that raw bytes can be taken from the overflow area.
#[derive(Debug)]
pub struct ExtVaList<'a> {
    inner: ExtVaListInner,
    area: OverflowArea<'a>,
}

impl<'a> View for ExtVaList<'a> {
    type V = ExtVaListView;

    closed spec fn view(&self) -> ExtVaListView {
        ExtVaListView { inner: self.inner, area: self.area@ }
    }
}

impl<'a> VaList<'a> {
    /// The host cursor with the bytes `image`, whose type has the alignment
    /// `align`, over the overflow area `area`.
    pub fn new(image: Vec<u8>, align: usize, area: OverflowArea<'a>) -> (va: Self)
        ensures
            va@ == (VaListView { align: align as nat, image: image@, area: area@ }),
    {
        VaList { image, align, area }
    }

    /// The size of the host's cursor type, in bytes.
    pub fn size(&self) -> (size: usize)
        ensures
            size == self@.image.len(),
    {
        self.image.len()
    }

    /// The alignment of the host's cursor type, in bytes.
    pub fn align(&self) -> (align: usize)
        ensures
            align == self@.align,
    {
        self.align
    }

    /// The bytes of the cursor.
    pub fn image(&self) -> (image: &[u8])
        ensures
            image@ == self@.image,
    {
        self.image.as_slice()
    }

    /// The overflow area that the cursor walks.
    pub fn area(&self) -> (area: OverflowArea<'a>)
        ensures
            area@ == self@.area,
    {
        self.area
    }

    /// Whether the host's cursor type has the size and the alignment of the
    /// extended cursor.
    pub fn matches_layout(&self) -> (ok: bool)
        ensures
            ok == self@.matches_layout(),
    {
        self.image.len() == EXT_VA_LIST_SIZE && self.align == EXT_VA_LIST_ALIGN
    }
}

impl<'a> Clone for VaList<'a> {
    /// A second host cursor at the same position of the same argument list.
    fn clone(&self) -> (dup: Self)
        ensures
            dup@ == self@,
    {
        VaList { image: self.image.clone(), align: self.align, area: self.area }
    }
}

impl<'a> ExtVaList<'a> {
    /// Relabels a host cursor as an extended cursor. The host cursor is
    /// consumed. Its type must have the size and the alignment of the
    /// extended cursor.
    pub fn from_va_list(va: VaList<'a>) -> (ext: Self)
        requires
            va@.matches_layout(),
        ensures
            ext@ == va@.reinterpret(),
    {
        ExtVaList { inner: ExtVaListInner::from_image(va.image.as_slice()), area: va.area }
    }

    /// Relabels the extended cursor as a host cursor again.
    pub fn into_va_list(self) -> (va: VaList<'a>)
        ensures
            va@ == self@.restore(),
            va@.matches_layout(),
    {
        VaList { image: self.inner.to_image(), align: EXT_VA_LIST_ALIGN, area: self.area }
    }

    /// Takes the 16 bytes of an extended-precision floating-point argument
    /// from the overflow area and steps past them. The caller must know that
    /// such an argument is next: the cursor carries no types.
    pub fn get_long_double_bits(&mut self) -> (bits: [u8; 16])
        requires
            old(self)@.has_bytes(16),
        ensures
            bits@ == old(self)@.area.bytes.subrange(
                old(self)@.offset(),
                old(self)@.offset() + 16,
            ),
            final(self)@.offset() == old(self)@.offset() + 16,
            final(self)@.inner.gp_offset == old(self)@.inner.gp_offset,
            final(self)@.inner.fp_offset == old(self)@.inner.fp_offset,
            final(self)@.inner.reg_save_area == old(self)@.inner.reg_save_area,
            final(self)@.area == old(self)@.area,
    {
        let bits = self.area.read_16(self.inner.overflow_arg_area);
        self.inner.overflow_arg_area = self.inner.overflow_arg_area + 16;
        bits
    }

    /// Whether the next `len` bytes at the cursor lie in the overflow area.
    pub fn has_bytes(&self, len: usize) -> (inside: bool)
        ensures
            inside == self@.has_bytes(len as nat),
    {
        self.area.holds(self.inner.overflow_arg_area, len)
    }

    /// The four fields as they stand.
    pub fn inner(&self) -> (inner: ExtVaListInner)
        ensures
            inner == self@.inner,
    {
        self.inner
    }

    /// The overflow area that the cursor walks.
    pub fn area(&self) -> (area: OverflowArea<'a>)
        ensures
            area@ == self@.area,
    {
        self.area
    }
}

impl<'a> Clone for ExtVaList<'a> {
    /// A second cursor at the same position of the same argument list. The
    /// two are advanced independently of each other.
    fn clone(&self) -> (dup: Self)
        ensures
            dup@ == self@,
    {
        ExtVaList { inner: self.inner, area: self.area }
    }
}

/// Relabelling a host cursor as an extended cursor and back changes no bit
/// of it.
pub proof fn lemma_round_trip(va: VaListView)
    requires
        va.matches_layout(),
    ensures
        va.reinterpret().restore() == va,
{
    lemma_image_round_trip(va.image);
}

/// An extended cursor relabelled as a host cursor has the layout that
/// relabelling it back asks for, and comes back with the same fields.
pub proof fn lemma_restore_reinterpret(ext: ExtVaListView)
    ensures
        ext.restore().matches_layout(),
        ext.restore().reinterpret() == ext,
{
    lemma_image_len(ext.inner);
    lemma_fields_round_trip(ext.inner);
}

} // verus!
