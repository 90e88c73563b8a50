//! The virtual machine's arena: a fixed 65,536-byte flat buffer with
//! bounds-checked 8/16/32-bit access and a segment-validation primitive.
//! Multi-byte accesses use little-endian layout and may be unaligned.

use vstd::prelude::*;

verus! {

/// Number of bytes in the arena: the full 16-bit address space.
pub const MEM_SIZE: usize = 65536;

pub type Address = u16;

/// An inclusive range of arena addresses.
#[derive(Clone, Copy, PartialEq, Eq, Structural, Debug)]
pub struct AddressRange {
    pub start: Address,
    pub end: Address,
}

impl AddressRange {
    /// True when `a` lies inside this (inclusive) range.
    pub open spec fn contains(self, a: int) -> bool {
        self.start <= a <= self.end
    }

    /// True when every address of `self` lies inside `seg` and `self` is not inverted.
    pub open spec fn within(self, seg: AddressRange) -> bool {
        self.start <= self.end && seg.start <= self.start && self.end <= seg.end
    }
}

/// The error produced by every rejected arena access: the range that was
/// asked for and the segment that was allowed.
#[derive(Clone, Copy, PartialEq, Eq, Structural, Debug)]
pub struct MemoryAccessError {
    pub access_range: AddressRange,
    pub segment: AddressRange,
}

/// 16-bit wrapping addition on addresses, as a spec-level helper.
pub open spec fn wadd16(a: u16, b: u16) -> u16 {
    if a + b <= 0xFFFF {
        (a + b) as u16
    } else {
        (a + b - 0x10000) as u16
    }
}

/// 16-bit wrapping subtraction on addresses, as a spec-level helper.
pub open spec fn wsub16(a: u16, b: u16) -> u16 {
    if a >= b {
        (a - b) as u16
    } else {
        (a + 0x10000 - b) as u16
    }
}

/// 16-bit wrapping multiplication, as a spec-level helper.
pub open spec fn wmul16(a: u16, b: u16) -> u16 {
    ((a * b) % 0x10000) as u16
}

/// The 16-bit value stored little-endian at offset `a` of `m`.
pub open spec fn mem_read16(m: Seq<u8>, a: int) -> u16
    recommends
        0 <= a,
        a + 1 < m.len(),
{
    (m[a] + m[a + 1] * 0x100) as u16
}

/// The 32-bit value stored little-endian at offset `a` of `m`.
pub open spec fn mem_read32(m: Seq<u8>, a: int) -> u32
    recommends
        0 <= a,
        a + 3 < m.len(),
{
    (m[a] + m[a + 1] * 0x100 + m[a + 2] * 0x10000 + m[a + 3] * 0x1000000) as u32
}

/// `m` with the 16-bit value `v` stored little-endian at offset `a`.
pub open spec fn mem_write16(m: Seq<u8>, a: int, v: u16) -> Seq<u8>
    recommends
        0 <= a,
        a + 1 < m.len(),
{
    m.update(a, (v % 0x100) as u8).update(a + 1, (v / 0x100) as u8)
}

/// `m` with the 32-bit value `v` stored little-endian at offset `a`.
pub open spec fn mem_write32(m: Seq<u8>, a: int, v: u32) -> Seq<u8>
    recommends
        0 <= a,
        a + 3 < m.len(),
{
    m.update(a, (v % 0x100) as u8).update(a + 1, ((v / 0x100) % 0x100) as u8).update(
        a + 2,
        ((v / 0x10000) % 0x100) as u8,
    ).update(a + 3, ((v / 0x1000000) % 0x100) as u8)
}

/// A piece of memory that allows access to random fragments of it, of
/// different sizes.
#[derive(Clone)]
pub struct Mem {
    content: Vec<u8>,
}

impl View for Mem {
    type V = Seq<u8>;

    closed spec fn view(&self) -> Seq<u8> {
        self.content@
    }
}

impl Default for Mem {
    /// A fresh arena: every byte zero.
    fn default() -> (r: Mem)
        ensures
            r@ == Seq::new(MEM_SIZE as nat, |i: int| 0u8),
    {
        Mem { content: vec![0u8; MEM_SIZE] }
    }
}

impl Mem {
    /// Every `Mem` ever built has exactly `MEM_SIZE` bytes.
    pub open spec fn wf(&self) -> bool {
        self@.len() == MEM_SIZE
    }

    /// The full range of valid addresses.
    pub fn address_range(&self) -> (r: AddressRange)
        ensures
            r == (AddressRange { start: 0, end: 0xFFFF }),
    {
        AddressRange { start: 0, end: Address::MAX }
    }

    /// Checks that `address_range` is not inverted and lies inside `segment`;
    /// fails with the offending pair otherwise.
    pub fn validate_access(&self, address_range: AddressRange, segment: AddressRange) -> (r: Result<
        (),
        MemoryAccessError,
    >)
        ensures
            r is Ok <==> address_range.within(segment),
            r is Err ==> r == Err::<(), MemoryAccessError>(
                MemoryAccessError { access_range: address_range, segment },
            ),
    {
        if address_range.start > address_range.end || address_range.start < segment.start
            || address_range.end > segment.end {
            return Err(MemoryAccessError { access_range: address_range, segment });
        }

        Ok(())
    }

    pub fn read_u8(&self, offset: Address) -> (r: u8)
        requires
            self.wf(),
        ensures
            r == self@[offset as int],
    {
        self.content[offset as usize]
    }

    pub fn write_u8(&mut self, offset: Address, value: u8)
        requires
            old(self).wf(),
        ensures
            final(self)@ == old(self)@.update(offset as int, value),
    {
        self.content.set(offset as usize, value);
    }

    /// Little-endian 16-bit read of two consecutive bytes.
    pub fn read_u16(&self, offset: Address) -> (r: u16)
        requires
            self.wf(),
            offset < 0xFFFF,
        ensures
            r == mem_read16(self@, offset as int),
    {
        let lo = self.read_u8(offset);
        let hi = self.read_u8(offset + 1);
        lo as u16 + hi as u16 * 0x100
    }

    /// Little-endian 16-bit write of two consecutive bytes.
    pub fn write_u16(&mut self, offset: Address, value: u16)
        requires
            old(self).wf(),
            offset < 0xFFFF,
        ensures
            final(self)@ == mem_write16(old(self)@, offset as int, value),
    {
        self.write_u8(offset, (value % 0x100) as u8);
        self.write_u8(offset + 1, (value / 0x100) as u8);
    }

    /// Little-endian 32-bit read of four consecutive bytes.
    pub fn read_u32(&self, offset: Address) -> (r: u32)
        requires
            self.wf(),
            offset < 0xFFFD,
        ensures
            r == mem_read32(self@, offset as int),
    {
        let b0 = self.read_u8(offset);
        let b1 = self.read_u8(offset + 1);
        let b2 = self.read_u8(offset + 2);
        let b3 = self.read_u8(offset + 3);
        b0 as u32 + b1 as u32 * 0x100 + b2 as u32 * 0x10000 + b3 as u32 * 0x1000000
    }

    /// Little-endian 32-bit write of four consecutive bytes.
    pub fn write_u32(&mut self, offset: Address, value: u32)
        requires
            old(self).wf(),
            offset < 0xFFFD,
        ensures
            final(self)@ == mem_write32(old(self)@, offset as int, value),
    {
        self.write_u8(offset, (value % 0x100) as u8);
        self.write_u8(offset + 1, ((value / 0x100) % 0x100) as u8);
        self.write_u8(offset + 2, ((value / 0x10000) % 0x100) as u8);
        self.write_u8(offset + 3, ((value / 0x1000000) % 0x100) as u8);
    }

    /// A view of the bytes in `[start, start + length)`.
    pub fn slice(&self, start: usize, length: usize) -> (r: &[u8])
        requires
            self.wf(),
            start + length <= MEM_SIZE,
        ensures
            r@ == self@.subrange(start as int, start as int + length as int),
    {
        slice_range(self.content.as_slice(), start, length)
    }

    /// A view of the `length` bytes starting at address `start`.
    pub fn address_slice(&self, start: Address, length: usize) -> (r: &[u8])
        requires
            self.wf(),
            start + length <= MEM_SIZE,
        ensures
            r@ == self@.subrange(start as int, start as int + length as int),
    {
        self.slice(start as usize, length)
    }
}

/// A view of the bytes of `s` in `[start, start + length)`.
fn slice_range(s: &[u8], start: usize, length: usize) -> (r: &[u8])
    requires
        start + length <= s@.len(),
    ensures
        r@ == s@.subrange(start as int, start as int + length as int),
{
    let n: usize = s.len();
    let r = &s[start..start + length];
    r
}

} // verus!
