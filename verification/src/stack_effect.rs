//! The stack-effect discipline every opcode follows: a typed view over a
//! fragment of the data stack whose bounds are checked once, up front. If
//! the validation fails nothing is mutated; the stack pointer moves only
//! when the effect is committed.

use vstd::prelude::*;

use crate::mem::{
    mem_read16, mem_read32, mem_write16, mem_write32, wadd16, wmul16, wsub16, Address,
    AddressRange, Mem, MemoryAccessError,
};

verus! {

/// Address of the highest byte touched by an effect consuming `in_words`
/// 16-bit words at stack pointer `base`.
pub open spec fn effect_max_ptr(in_words: u16, base: u16) -> u16 {
    wadd16(base, wsub16(wmul16(in_words, 2), 1))
}

/// The stack pointer after an effect is applied.
pub open spec fn effect_resulting_ptr(in_words: u16, out_words: u16, base: u16) -> u16 {
    wadd16(wsub16(effect_max_ptr(in_words, base), wmul16(out_words, 2)), 1)
}

/// Address of the lowest byte touched by an effect.
pub open spec fn effect_min_ptr(in_words: u16, out_words: u16, base: u16) -> u16 {
    if in_words > out_words {
        base
    } else {
        effect_resulting_ptr(in_words, out_words, base)
    }
}

/// The byte range an effect touches.
pub open spec fn effect_range(in_words: u16, out_words: u16, base: u16) -> AddressRange {
    AddressRange {
        start: effect_min_ptr(in_words, out_words, base),
        end: effect_max_ptr(in_words, base),
    }
}

/// A stack effect: how many 16-bit words it pops and pushes. The address
/// arithmetic and the all-or-nothing validation are shared by every
/// implementation.
pub trait StackEffect: Sized {
    /// Size of data popped from the stack, in 16-bit words.
    spec fn in_words_spec(&self) -> u16;

    /// Size of data pushed to the stack, in 16-bit words.
    spec fn out_words_spec(&self) -> u16;

    fn in_words(&self) -> (r: u16)
        ensures
            r == self.in_words_spec(),
    ;

    fn out_words(&self) -> (r: u16)
        ensures
            r == self.out_words_spec(),
    ;

    /// Address of the highest byte touched by this effect at stack pointer
    /// `base`.
    fn max_ptr(&self, base: Address) -> (r: Address)
        ensures
            r == effect_max_ptr(self.in_words_spec(), base),
    {
        base.wrapping_add(self.in_words().wrapping_mul(2).wrapping_sub(1))
    }

    /// Value of the stack pointer after this effect is applied.
    fn resulting_ptr(&self, base: Address) -> (r: Address)
        ensures
            r == effect_resulting_ptr(self.in_words_spec(), self.out_words_spec(), base),
    {
        self.max_ptr(base).wrapping_sub(self.out_words().wrapping_mul(2)).wrapping_add(1)
    }

    /// Address of the lowest byte touched by this effect at stack pointer
    /// `base`.
    fn min_ptr(&self, base: Address) -> (r: Address)
        ensures
            r == effect_min_ptr(self.in_words_spec(), self.out_words_spec(), base),
    {
        if self.in_words() > self.out_words() {
            base
        } else {
            self.resulting_ptr(base)
        }
    }

    /// Checks the whole byte range this effect touches against `segment`,
    /// before anything is read or written.
    fn validate_access(&self, mem: &Mem, ptr: Address, segment: AddressRange) -> (r: Result<
        (),
        MemoryAccessError,
    >)
        ensures
            r is Ok <==> effect_range(self.in_words_spec(), self.out_words_spec(), ptr).within(
                segment,
            ),
    {
        mem.validate_access(
            AddressRange { start: self.min_ptr(ptr), end: self.max_ptr(ptr) },
            segment,
        )
    }
}

/// A plain stack effect given by its two word counts.
pub struct EffectShape {
    pub input_words: u16,
    pub output_words: u16,
}

impl StackEffect for EffectShape {
    open spec fn in_words_spec(&self) -> u16 {
        self.input_words
    }

    open spec fn out_words_spec(&self) -> u16 {
        self.output_words
    }

    fn in_words(&self) -> u16 {
        self.input_words
    }

    fn out_words(&self) -> u16 {
        self.output_words
    }
}

/// A value that can live on the data stack in one or two 16-bit cells.
pub trait Stackable: Sized {
    /// The number of 16-bit words the value occupies.
    spec fn size_words_spec() -> u16;

    /// The value stored little-endian at `addr` of `m`.
    spec fn read_spec(m: Seq<u8>, addr: u16) -> Self;

    /// `m` with this value stored little-endian at `addr`.
    spec fn write_spec(self, m: Seq<u8>, addr: u16) -> Seq<u8>;

    fn size_words() -> (r: u16)
        ensures
            r == Self::size_words_spec(),
    ;

    fn read(memory: &Mem, address: Address) -> (r: Self)
        requires
            memory.wf(),
            address + 2 * Self::size_words_spec() <= 0x10000,
        ensures
            r == Self::read_spec(memory@, address),
    ;

    fn write(&self, memory: &mut Mem, address: Address)
        requires
            old(memory).wf(),
            address + 2 * Self::size_words_spec() <= 0x10000,
        ensures
            final(memory)@ == self.write_spec(old(memory)@, address),
    ;
}

impl Stackable for u16 {
    open spec fn size_words_spec() -> u16 {
        1
    }

    open spec fn read_spec(m: Seq<u8>, addr: u16) -> u16 {
        mem_read16(m, addr as int)
    }

    open spec fn write_spec(self, m: Seq<u8>, addr: u16) -> Seq<u8> {
        mem_write16(m, addr as int, self)
    }

    fn size_words() -> u16 {
        1
    }

    fn read(memory: &Mem, address: Address) -> u16 {
        memory.read_u16(address)
    }

    fn write(&self, memory: &mut Mem, address: Address) {
        memory.write_u16(address, *self)
    }
}

impl Stackable for u32 {
    open spec fn size_words_spec() -> u16 {
        2
    }

    open spec fn read_spec(m: Seq<u8>, addr: u16) -> u32 {
        mem_read32(m, addr as int)
    }

    open spec fn write_spec(self, m: Seq<u8>, addr: u16) -> Seq<u8> {
        mem_write32(m, addr as int, self)
    }

    fn size_words() -> u16 {
        2
    }

    fn read(memory: &Mem, address: Address) -> u32 {
        memory.read_u32(address)
    }

    fn write(&self, memory: &mut Mem, address: Address) {
        memory.write_u32(address, *self)
    }
}

} // verus!
