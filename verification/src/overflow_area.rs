//! The overflow area: the stretch of the caller's stack that holds the
//! variadic arguments which were not passed in registers.

use vstd::prelude::*;

verus! {

/// What an overflow area is to a proof: the address of its first byte and
/// the bytes it holds.
pub struct OverflowAreaView {
    pub base: nat,
    pub bytes: Seq<u8>,
}

impl OverflowAreaView {
    /// The address just past the last byte.
    pub open spec fn end(self) -> nat {
        self.base + self.bytes.len()
    }

    /// Whether the `len` bytes starting at address `addr` all lie in the area.
    pub open spec fn holds(self, addr: nat, len: nat) -> bool {
        self.base <= addr && addr + len <= self.end()
    }

    /// The `len` bytes starting at address `addr`.
    pub open spec fn bytes_at(self, addr: nat, len: nat) -> Seq<u8>
        recommends
            self.holds(addr, len),
    {
        self.bytes.subrange(addr - self.base, addr - self.base + len)
    }
}

/// A borrowed overflow area. It belongs to the call frame that passed the
/// arguments; a cursor only reads it. Every address in it, and the address
/// just past it, fits in 64 bits.
#[derive(Debug, Clone, Copy)]
pub struct OverflowArea<'a> {
    base: u64,
    bytes: &'a [u8],
}

impl<'a> View for OverflowArea<'a> {
    type V = OverflowAreaView;

    closed spec fn view(&self) -> OverflowAreaView {
        OverflowAreaView { base: self.base as nat, bytes: self.bytes@ }
    }
}

impl<'a> OverflowArea<'a> {
    #[verifier::type_invariant]
    spec fn fits_address_space(self) -> bool {
        self.base + self.bytes@.len() <= u64::MAX
    }

    /// The area made of `bytes`, placed at address `base`. There is no such
    /// area when its end would lie beyond the 64-bit address space.
    pub fn new(base: u64, bytes: &'a [u8]) -> (area: Option<Self>)
        ensures
            area is Some <==> base + bytes@.len() <= u64::MAX,
            area matches Some(a) ==> a@ == (OverflowAreaView { base: base as nat, bytes: bytes@ }),
    {
        let len: usize = bytes.len();
        if len as u64 <= u64::MAX - base {
            Some(OverflowArea { base, bytes })
        } else {
            None
        }
    }

    /// The address of the first byte.
    pub fn base(&self) -> (base: u64)
        ensures
            base == self@.base,
    {
        self.base
    }

    /// The number of bytes in the area.
    pub fn len(&self) -> (len: usize)
        ensures
            len == self@.bytes.len(),
    {
        self.bytes.len()
    }

    /// Whether the `len` bytes starting at address `addr` all lie in the area.
    pub fn holds(&self, addr: u64, len: usize) -> (inside: bool)
        ensures
            inside == self@.holds(addr as nat, len as nat),
    {
        proof {
            use_type_invariant(self);
        }
        let size: usize = self.bytes.len();
        self.base <= addr && addr - self.base <= size as u64 && len as u64 <= size as u64 - (addr
            - self.base)
    }

    /// The 16 bytes starting at address `addr`. The address just past them
    /// fits in 64 bits, as every address of the area does.
    pub fn read_16(&self, addr: u64) -> (bytes: [u8; 16])
        requires
            self@.holds(addr as nat, 16),
        ensures
            bytes@ == self@.bytes_at(addr as nat, 16),
            addr + 16 <= u64::MAX,
    {
        proof {
            use_type_invariant(self);
        }
        let size: usize = self.bytes.len();
        let start: usize = (addr - self.base) as usize;
        let mut bytes: [u8; 16] = [0u8; 16];
        let mut i: usize = 0;
        while i < 16
            invariant
                i <= 16,
                start + 16 <= size == self.bytes@.len(),
                forall|j: int| 0 <= j < i ==> bytes@[j] == self.bytes@[start + j],
            decreases 16 - i,
        {
            bytes[i] = self.bytes[start + i];
            i = i + 1;
        }
        proof {
            assert(bytes@ =~= self@.bytes_at(addr as nat, 16));
        }
        bytes
    }
}

} // verus!
