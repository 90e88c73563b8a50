//! Counted strings inside the arena: a 1-byte length followed by that many
//! content bytes. A reader view validates in two phases (header byte, then
//! content range); a writer fills a capped region and commits the length last.

use vstd::prelude::*;

use crate::mem::{wadd16, Address, AddressRange, Mem, MemoryAccessError, MEM_SIZE};

verus! {

/// Length byte of the sized string at `addr`.
pub open spec fn sized_str_len(m: Seq<u8>, addr: u16) -> u8
    recommends
        m.len() == MEM_SIZE,
{
    m[addr as int]
}

/// The content range of the sized string at `addr`, as the (possibly
/// wrapping) inclusive range the validation checks.
pub open spec fn sized_str_content_range(m: Seq<u8>, addr: u16) -> AddressRange
    recommends
        m.len() == MEM_SIZE,
        sized_str_len(m, addr) > 0,
{
    let content = wadd16(addr, 1);
    AddressRange { start: content, end: wadd16(content, (sized_str_len(m, addr) - 1) as u16) }
}

/// The sized string at `addr` lies wholly inside `seg`: its header byte and,
/// when non-empty, its content range.
pub open spec fn sized_str_valid(m: Seq<u8>, addr: u16, seg: AddressRange) -> bool
    recommends
        m.len() == MEM_SIZE,
{
    seg.contains(addr as int) && (sized_str_len(m, addr) > 0 ==> sized_str_content_range(
        m,
        addr,
    ).within(seg))
}

/// The sized string at `addr` does not wrap around the top of the arena,
/// so its bytes form one contiguous slice.
pub open spec fn sized_str_no_wrap(m: Seq<u8>, addr: u16) -> bool
    recommends
        m.len() == MEM_SIZE,
{
    addr + 1 + sized_str_len(m, addr) <= MEM_SIZE
}

/// The content bytes of the sized string at `addr`.
pub open spec fn sized_str_bytes(m: Seq<u8>, addr: u16) -> Seq<u8>
    recommends
        m.len() == MEM_SIZE,
        sized_str_no_wrap(m, addr),
{
    m.subrange(addr + 1, addr + 1 + sized_str_len(m, addr))
}

/// The content bytes of the sized string at `addr`, read with wrapping
/// address arithmetic for the content start (total, unlike
/// `sized_str_bytes`, which assumes the string does not wrap).
pub open spec fn sized_str_content_bytes(m: Seq<u8>, addr: u16) -> Seq<u8>
    recommends
        m.len() == MEM_SIZE,
{
    Seq::new(sized_str_len(m, addr) as nat, |i: int| m[wadd16(addr, 1) + i])
}

/// When a sized string does not wrap, its two byte readings agree.
pub proof fn lemma_content_bytes_eq(m: Seq<u8>, addr: u16)
    requires
        m.len() == MEM_SIZE,
        sized_str_no_wrap(m, addr),
    ensures
        sized_str_bytes(m, addr) == sized_str_content_bytes(m, addr),
{
    assert(sized_str_bytes(m, addr) =~= sized_str_content_bytes(m, addr));
}

/// Compares two byte slices for equality.
pub fn bytes_equal(a: &[u8], b: &[u8]) -> (r: bool)
    ensures
        r == (a@ == b@),
{
    let a_len: usize = a.len();
    let b_len: usize = b.len();
    if a_len != b_len {
        proof {
            assert(a@.len() != b@.len());
        }
        return false;
    }

    let mut i: usize = 0;
    while i < a_len
        invariant
            0 <= i <= a_len,
            a_len == a@.len(),
            a_len == b@.len(),
            forall|j: int| 0 <= j < i ==> a@[j] == b@[j],
        decreases a_len - i,
    {
        if a[i] != b[i] {
            return false;
        }
        i = i + 1;
    }

    proof {
        assert(a@ =~= b@);
    }
    true
}

/// A validated read-only view of a sized string stored in the arena.
pub struct ReadableSizedString<'m> {
    memory: &'m Mem,
    address: Address,
}

impl<'m> ReadableSizedString<'m> {
    /// The arena this view reads from.
    pub closed spec fn mem(self) -> Mem {
        *self.memory
    }

    /// The address of the length byte.
    pub closed spec fn addr(self) -> Address {
        self.address
    }

    pub open spec fn wf(self) -> bool {
        self.mem().wf()
    }

    /// Validates the header byte inside `safe_address_range`, then the
    /// content range; succeeds exactly when the string lies in the range.
    pub fn new(memory: &'m Mem, address: Address, safe_address_range: AddressRange) -> (r: Result<
        ReadableSizedString<'m>,
        MemoryAccessError,
    >)
        requires
            memory.wf(),
        ensures
            r is Ok <==> sized_str_valid(memory@, address, safe_address_range),
            r is Ok ==> r->Ok_0.mem() == *memory && r->Ok_0.addr() == address,
    {
        memory.validate_access(
            AddressRange { start: address, end: address },
            safe_address_range,
        )?;

        let sz_str = ReadableSizedString::new_unchecked(memory, address);

        sz_str.validate_content(safe_address_range)?;

        Ok(sz_str)
    }

    /// Builds the view without any validation; reads through it are then
    /// answerable only where the string is separately known to be in bounds.
    pub fn new_unchecked(memory: &'m Mem, address: Address) -> (r: ReadableSizedString<'m>)
        requires
            memory.wf(),
        ensures
            r.mem() == *memory && r.addr() == address,
    {
        ReadableSizedString { memory, address }
    }

    pub fn read_length(&self) -> (r: u8)
        requires
            self.wf(),
        ensures
            r == sized_str_len(self.mem()@, self.addr()),
    {
        self.memory.read_u8(self.address)
    }

    /// Address of the first content byte.
    pub fn content_address(&self) -> (r: Address)
        ensures
            r == wadd16(self.addr(), 1),
    {
        self.address.wrapping_add(1)
    }

    /// Checks that the content bytes lie inside `safe_address_range`
    /// (nothing to check for an empty string).
    pub fn validate_content(&self, safe_address_range: AddressRange) -> (r: Result<
        (),
        MemoryAccessError,
    >)
        requires
            self.wf(),
        ensures
            r is Ok <==> (sized_str_len(self.mem()@, self.addr()) > 0 ==> sized_str_content_range(
                self.mem()@,
                self.addr(),
            ).within(safe_address_range)),
            r is Err ==> r == Err::<(), MemoryAccessError>(
                MemoryAccessError {
                    access_range: sized_str_content_range(self.mem()@, self.addr()),
                    segment: safe_address_range,
                },
            ),
    {
        let length = self.read_length() as u16;
        let content_address = self.content_address();

        if length > 0 {
            self.memory.validate_access(
                AddressRange {
                    start: content_address,
                    end: content_address.wrapping_add(length - 1),
                },
                safe_address_range,
            )?;
        }

        Ok(())
    }

    /// The inclusive range `[addr, addr + length]` holding the length byte
    /// and the content.
    pub fn full_range(&self) -> (r: AddressRange)
        requires
            self.wf(),
        ensures
            r == (AddressRange {
                start: self.addr(),
                end: wadd16(self.addr(), sized_str_len(self.mem()@, self.addr()) as u16),
            }),
    {
        AddressRange {
            start: self.address,
            end: self.address.wrapping_add(self.read_length() as u16),
        }
    }

    /// The content bytes as a slice of the arena.
    pub fn as_bytes(&self) -> (r: &'m [u8])
        requires
            self.wf(),
            sized_str_no_wrap(self.mem()@, self.addr()),
        ensures
            r@ == sized_str_bytes(self.mem()@, self.addr()),
    {
        let length = self.read_length() as usize;

        self.memory.slice(self.address as usize + 1, length)
    }
}

/// Writes a sized string into a caller-chosen region, with a hard cap on the
/// length. The length is kept in a local counter and committed to the header
/// byte only by `finish`.
pub struct SizedStringWriter {
    address: Address,
    len: u8,
    max_len: u8,
}

impl SizedStringWriter {
    pub closed spec fn addr(self) -> Address {
        self.address
    }

    pub closed spec fn len(self) -> u8 {
        self.len
    }

    pub closed spec fn max_len(self) -> u8 {
        self.max_len
    }

    /// The writer's region stays inside the arena without wrapping.
    pub open spec fn wf(self) -> bool {
        self.addr() + 1 + self.max_len() <= MEM_SIZE && self.len() <= self.max_len()
    }

    /// The content bytes written so far, in `m`.
    pub open spec fn bytes(self, m: Seq<u8>) -> Seq<u8>
        recommends
            m.len() == MEM_SIZE,
    {
        m.subrange(self.addr() + 1, self.addr() + 1 + self.len())
    }

    /// Validates the whole region `[address, address + max_len]` against
    /// `safe_range` and returns an empty writer over it.
    pub fn new(memory: &Mem, address: Address, max_len: u8, safe_range: AddressRange) -> (r: Result<
        SizedStringWriter,
        MemoryAccessError,
    >)
        requires
            memory.wf(),
        ensures
            r is Ok <==> (AddressRange {
                start: address,
                end: wadd16(address, max_len as u16),
            }).within(safe_range),
            r is Ok ==> r->Ok_0.addr() == address && r->Ok_0.len() == 0 && r->Ok_0.max_len()
                == max_len && r->Ok_0.wf(),
    {
        memory.validate_access(
            AddressRange { start: address, end: address.wrapping_add(max_len as u16) },
            safe_range,
        )?;

        Ok(SizedStringWriter { address, len: 0, max_len })
    }

    /// The region this writer may touch.
    pub fn writeable_range(&self) -> (r: AddressRange)
        ensures
            r == (AddressRange {
                start: self.addr(),
                end: wadd16(self.addr(), self.max_len() as u16),
            }),
    {
        AddressRange { start: self.address, end: self.address.wrapping_add(self.max_len as u16) }
    }

    /// Appends one byte, failing (and changing nothing) when the cap is
    /// already reached.
    pub fn append_u8(&mut self, memory: &mut Mem, value: u8) -> (r: Result<(), MemoryAccessError>)
        requires
            old(self).wf(),
            old(memory).wf(),
        ensures
            final(self).wf(),
            final(self).addr() == old(self).addr() && final(self).max_len() == old(
                self,
            ).max_len(),
            r is Ok <==> old(self).len() < old(self).max_len(),
            r is Ok ==> final(self).len() == old(self).len() + 1 && final(memory)@ == old(
                memory,
            )@.update(old(self).addr() + 1 + old(self).len(), value),
            r is Err ==> *final(self) == *old(self) && *final(memory) == *old(memory),
    {
        if self.len >= self.max_len {
            return Err(
                MemoryAccessError {
                    access_range: AddressRange {
                        start: self.address,
                        end: self.address.wrapping_add(self.len as u16).wrapping_add(1),
                    },
                    segment: self.writeable_range(),
                },
            );
        }

        self.len = self.len + 1;
        memory.write_u8(self.address.wrapping_add(self.len as u16), value);

        Ok(())
    }

    /// Appends a whole slice, failing (and changing nothing) when it would
    /// pass the cap.
    pub fn append_slice(&mut self, memory: &mut Mem, value: &[u8]) -> (r: Result<
        (),
        MemoryAccessError,
    >)
        requires
            old(self).wf(),
            old(memory).wf(),
        ensures
            final(self).wf(),
            final(self).addr() == old(self).addr() && final(self).max_len() == old(
                self,
            ).max_len(),
            r is Ok <==> old(self).len() + value@.len() <= old(self).max_len(),
            r is Ok ==> final(self).len() == old(self).len() + value@.len() && final(memory)@.len()
                == MEM_SIZE && final(self).bytes(final(memory)@) == old(self).bytes(
                old(memory)@,
            ) + value@ && (forall|i: int|
                0 <= i < MEM_SIZE && !(old(self).addr() + 1 + old(self).len() <= i < old(
                    self,
                ).addr() + 1 + old(self).len() + value@.len()) ==> final(memory)@[i] == old(
                    memory,
                )@[i]),
            r is Err ==> *final(self) == *old(self) && *final(memory) == *old(memory),
    {
        let value_len: usize = value.len();

        if value_len > (self.max_len - self.len) as usize {
            return Err(
                MemoryAccessError {
                    access_range: AddressRange {
                        start: self.address,
                        end: self.address.wrapping_add(self.len as u16).wrapping_add(
                            value_len as u16,
                        ),
                    },
                    segment: self.writeable_range(),
                },
            );
        }

        let ghost s0 = *self;
        let ghost m0 = *memory;

        let mut i: usize = 0;
        while i < value_len
            invariant
                0 <= i <= value_len,
                value_len == value@.len(),
                self.addr() == s0.addr(),
                self.max_len() == s0.max_len(),
                self.len() == s0.len() + i,
                s0.len() + value_len <= s0.max_len(),
                s0.wf(),
                memory@.len() == MEM_SIZE,
                forall|j: int|
                    0 <= j < i ==> memory@[s0.addr() + 1 + s0.len() + j] == value@[j],
                forall|j: int|
                    0 <= j < MEM_SIZE && !(s0.addr() + 1 + s0.len() <= j < s0.addr() + 1 + s0.len()
                        + i) ==> memory@[j] == m0@[j],
            decreases value_len - i,
        {
            let b = value[i];
            let res = self.append_u8(memory, b);
            proof {
                assert(res is Ok);
            }
            i = i + 1;
        }

        proof {
            assert(self.bytes(memory@) =~= s0.bytes(m0@) + value@);
        }

        Ok(())
    }

    /// Commits the length to the header byte; the sized string is then
    /// readable at the writer's address.
    pub fn finish(self, memory: &mut Mem) -> (r: ReadableSizedString<'_>)
        requires
            self.wf(),
            old(memory).wf(),
        ensures
            final(memory)@ == old(memory)@.update(self.addr() as int, self.len()),
            r.mem() == *final(memory) && r.addr() == self.addr(),
            sized_str_no_wrap(final(memory)@, self.addr()),
            sized_str_bytes(final(memory)@, self.addr()) == self.bytes(old(memory)@),
    {
        memory.write_u8(self.address, self.len);

        proof {
            assert(sized_str_bytes(memory@, self.addr()) =~= self.bytes(old(memory)@));
        }

        ReadableSizedString::new_unchecked(memory, self.address)
    }
}

} // verus!
