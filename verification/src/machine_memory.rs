//! The machine's memory layout over the arena: an append-only dictionary at
//! low addresses, a data stack and a call stack growing downward from a fixed
//! split, and a reserved-variable region at the top. Every access is
//! validated against the segment of its subject before anything is written.

use vstd::prelude::*;

use crate::input::{read_word, Input, InputError};
use crate::machine_state::MachineState;
use crate::readable_article::{
    article_name_addr, article_prev, article_name_bytes, article_valid, lookup_chain, ReadableArticle,
    ReadableArticlesIterator,
};
use crate::sized_string::ReadableSizedString;
use crate::opcodes::OpCode;
use crate::mem::{
    mem_read16, mem_write16, mem_write32, wadd16, wsub16, Address, AddressRange, Mem,
    MemoryAccessError, MEM_SIZE,
};

verus! {

#[derive(Copy, Clone)]
pub struct MemoryLayoutConfig {
    pub max_call_stack_depth: u16,
}

impl Default for MemoryLayoutConfig {
    fn default() -> (r: Self)
        ensures
            r.max_call_stack_depth == 128,
    {
        MemoryLayoutConfig { max_call_stack_depth: 128 }
    }
}

/// Named offsets inside the reserved region at the top of the arena.
#[derive(Clone, Copy, PartialEq, Eq, Structural, Debug)]
pub enum ReservedAddresses {
    /// Address of first free byte of data space.
    HereVar,
    /// Address of header of currently compiled article.
    CurrentDefVar,
    /// Current machine state: 0 in interpreter state, nonzero in compiler state.
    StateVar,
    /// Radix used when parsing and formatting numbers.
    BaseVar,
    /// A buffer used to keep parsed words (as counted strings).
    WordBuffer,
    PadBuffer,
    PnoBuffer,
    /// Maximal offset available in reserved space.
    Max,
}

impl ReservedAddresses {
    /// The offset this name stands for.
    pub open spec fn offset_spec(self) -> u16 {
        match self {
            ReservedAddresses::HereVar => 0,
            ReservedAddresses::CurrentDefVar => 2,
            ReservedAddresses::StateVar => 4,
            ReservedAddresses::BaseVar => 10,
            ReservedAddresses::WordBuffer => 256,
            ReservedAddresses::PadBuffer => 512,
            ReservedAddresses::PnoBuffer => 640,
            ReservedAddresses::Max => 767,
        }
    }

    pub fn int_value(self) -> (r: u16)
        ensures
            r == self.offset_spec(),
    {
        match self {
            ReservedAddresses::HereVar => 0,
            ReservedAddresses::CurrentDefVar => 2,
            ReservedAddresses::StateVar => 4,
            ReservedAddresses::BaseVar => 10,
            ReservedAddresses::WordBuffer => 256,
            ReservedAddresses::PadBuffer => 512,
            ReservedAddresses::PnoBuffer => 640,
            ReservedAddresses::Max => 767,
        }
    }
}

/// Start of the reserved region: `0xFFFF` minus the maximal reserved offset.
pub const RESERVED_START: u16 = 0xFD00;

/// A virtual machine's memory along with "registers" representing the
/// current layout and usage of the memory.
#[derive(Clone)]
pub struct MachineMemory {
    pub last_article_ptr: Option<Address>,
    /// Address of the last pushed word on the data stack, or the address
    /// immediately after the data stack when it is empty.
    pub data_stack_ptr: Address,
    /// Lowest address available for the call stack.
    pub stacks_border: Address,
    /// Address of the most recent word on the call stack, or the address
    /// immediately after the call stack when it is empty.
    pub call_stack_ptr: Address,
    /// Lowest address reserved for built-in variables.
    pub reserved_space_start: Address,
    pub raw_memory: Mem,
}

impl MachineMemory {
    pub open spec fn border(self) -> Address {
        self.stacks_border
    }

    pub open spec fn reserved(self) -> Address {
        self.reserved_space_start
    }

    /// The structural well-formedness every operation preserves: the arena
    /// has its full size, and the stack pointers lie inside their segments.
    pub open spec fn wf(self) -> bool {
        &&& self.raw_memory.wf()
        &&& self.reserved() == RESERVED_START
        &&& 1 <= self.border() <= RESERVED_START
        &&& self.data_stack_ptr <= self.border()
        &&& self.border() <= self.call_stack_ptr <= self.reserved()
    }

    /// The dictionary append pointer, kept in the reserved `HERE` variable.
    pub open spec fn here(self) -> u16
        recommends
            self.wf(),
    {
        mem_read16(self.raw_memory@, RESERVED_START as int)
    }

    /// The raw value of the reserved `CURRENT_DEF` variable.
    pub open spec fn current_def_raw(self) -> u16
        recommends
            self.wf(),
    {
        mem_read16(self.raw_memory@, RESERVED_START + 2)
    }

    /// The raw value of the reserved `STATE` variable.
    pub open spec fn state_raw(self) -> u16
        recommends
            self.wf(),
    {
        mem_read16(self.raw_memory@, RESERVED_START + 4)
    }

    /// The machine state encoded by the `STATE` variable.
    pub open spec fn state(self) -> MachineState
        recommends
            self.wf(),
    {
        if self.state_raw() == 0 {
            MachineState::Interpreter
        } else {
            MachineState::Compiler
        }
    }

    /// The radix kept in the reserved `BASE` variable.
    pub open spec fn base(self) -> u16
        recommends
            self.wf(),
    {
        mem_read16(self.raw_memory@, RESERVED_START + 10)
    }

    /// The segment available to the call stack.
    pub open spec fn call_segment(self) -> AddressRange
        recommends
            self.wf(),
    {
        AddressRange { start: self.border(), end: (self.reserved() - 1) as u16 }
    }

    /// The segment currently available to the data stack; its lower bound
    /// moves as `HERE` advances.
    pub open spec fn data_segment(self) -> AddressRange
        recommends
            self.wf(),
    {
        AddressRange { start: self.here(), end: (self.border() - 1) as u16 }
    }

    /// The free-data segment: not yet used by the dictionary nor covered by
    /// the data stack.
    pub open spec fn free_segment(self) -> AddressRange
        recommends
            self.wf(),
    {
        AddressRange { start: self.here(), end: wsub16(self.data_stack_ptr, 1) }
    }

    /// The segment used by the dictionary so far.
    pub open spec fn dict_segment(self) -> AddressRange
        recommends
            self.wf(),
    {
        AddressRange {
            start: 0,
            end: if self.here() >= 1 {
                (self.here() - 1) as u16
            } else {
                0
            },
        }
    }

    /// Layout registers that no memory operation changes.
    pub open spec fn same_layout(self, other: MachineMemory) -> bool {
        self.border() == other.border() && self.reserved() == other.reserved()
    }

    /// All registers other than the arena itself are unchanged.
    pub open spec fn same_regs(self, other: MachineMemory) -> bool {
        &&& self.same_layout(other)
        &&& self.last_article_ptr == other.last_article_ptr
        &&& self.data_stack_ptr == other.data_stack_ptr
        &&& self.call_stack_ptr == other.call_stack_ptr
    }

    pub fn new(memory: Mem, config: MemoryLayoutConfig) -> (r: MachineMemory)
        requires
            memory.wf(),
            2 * config.max_call_stack_depth < RESERVED_START,
        ensures
            r.wf(),
            r.border() == RESERVED_START - 2 * config.max_call_stack_depth,
            r.last_article_ptr is None,
            r.data_stack_ptr == r.border(),
            r.call_stack_ptr == RESERVED_START,
            r.raw_memory@ == builtin_vars_reset(memory@),
            r.here() == 0 && r.state_raw() == 0 && r.base() == 10 && r.current_def_raw() == 0xFFFF,
    {
        let reserved_space_start = 0xFFFFu16 - ReservedAddresses::Max.int_value();
        let stacks_border = reserved_space_start - 2 * config.max_call_stack_depth;

        let mut mm = MachineMemory {
            last_article_ptr: None,
            reserved_space_start,
            call_stack_ptr: reserved_space_start,
            stacks_border,
            data_stack_ptr: stacks_border,
            raw_memory: memory,
        };

        mm.reset_builtin_vars();

        proof {
            reveal(builtin_vars_reset);
            lemma_reserved_vars(mm.raw_memory@);
        }

        mm
    }

    fn reset_builtin_vars(&mut self)
        requires
            old(self).wf() || (old(self).raw_memory.wf() && old(self).reserved()
                == RESERVED_START),
        ensures
            final(self).raw_memory@ == builtin_vars_reset(old(self).raw_memory@),
            final(self).same_regs(*old(self)),
    {
        proof {
            reveal(builtin_vars_reset);
        }
        self.raw_memory.write_u16(
            self.reserved_space_start + ReservedAddresses::BaseVar.int_value(),
            10,
        );
        self.raw_memory.write_u16(
            self.reserved_space_start + ReservedAddresses::HereVar.int_value(),
            0,
        );
        self.raw_memory.write_u16(
            self.reserved_space_start + ReservedAddresses::StateVar.int_value(),
            0,
        );
        self.raw_memory.write_u16(
            self.reserved_space_start + ReservedAddresses::CurrentDefVar.int_value(),
            Address::MAX,
        );
    }

    /// Reset mutable pointers and some reserved variables to initial values.
    /// Dictionary bytes are not zeroed but become unreachable.
    pub fn reset(&mut self)
        requires
            old(self).wf(),
        ensures
            final(self).wf(),
            final(self).last_article_ptr is None,
            final(self).data_stack_ptr == old(self).border(),
            final(self).call_stack_ptr == old(self).reserved(),
            final(self).same_layout(*old(self)),
            final(self).raw_memory@ == builtin_vars_reset(old(self).raw_memory@),
            final(self).here() == 0 && final(self).state_raw() == 0 && final(self).base() == 10
                && final(self).current_def_raw() == 0xFFFF,
    {
        self.last_article_ptr = None;
        self.call_stack_ptr = self.reserved_space_start;
        self.data_stack_ptr = self.stacks_border;

        self.reset_builtin_vars();

        proof {
            reveal(builtin_vars_reset);
            lemma_reserved_vars(self.raw_memory@);
        }
    }

    /// Current depth of the call stack in 16-bit words.
    pub fn call_stack_depth(&self) -> (r: u16)
        requires
            self.wf(),
        ensures
            r == (self.reserved() - self.call_stack_ptr) / 2,
    {
        (self.reserved_space_start - self.call_stack_ptr) / 2
    }

    /// Current depth of the data stack in 16-bit words.
    pub fn data_stack_depth(&self) -> (r: u16)
        requires
            self.wf(),
        ensures
            r == (self.border() - self.data_stack_ptr) / 2,
    {
        (self.stacks_border - self.data_stack_ptr) / 2
    }

    /// Current size of the dictionary in bytes.
    pub fn dictionary_size(&self) -> (r: u16)
        requires
            self.wf(),
        ensures
            r == self.here(),
    {
        self.get_dict_ptr()
    }

    /// The arena address of the given reserved variable or buffer.
    pub fn get_reserved_address(&self, address: ReservedAddresses) -> (r: Address)
        requires
            self.wf(),
        ensures
            r == RESERVED_START + address.offset_spec(),
    {
        self.reserved_space_start + address.int_value()
    }

    /// Range of addresses available for use by the call stack.
    pub fn get_call_stack_segment(&self) -> (r: AddressRange)
        requires
            self.wf(),
        ensures
            r == self.call_segment(),
    {
        AddressRange { start: self.stacks_border, end: self.reserved_space_start - 1 }
    }

    /// Range of addresses currently available for use by the data stack.
    /// May change with writes to the dictionary.
    pub fn get_data_stack_segment(&self) -> (r: AddressRange)
        requires
            self.wf(),
        ensures
            r == self.data_segment(),
    {
        AddressRange { start: self.get_dict_ptr(), end: self.stacks_border - 1 }
    }

    /// Range of data-space addresses used by neither the dictionary nor the
    /// data stack.
    pub fn get_free_data_segment(&self) -> (r: AddressRange)
        requires
            self.wf(),
        ensures
            r == self.free_segment(),
    {
        AddressRange { start: self.get_dict_ptr(), end: self.data_stack_ptr.wrapping_sub(1) }
    }

    /// Range of addresses currently used by the dictionary.
    pub fn get_used_dict_segment(&self) -> (r: AddressRange)
        requires
            self.wf(),
        ensures
            r == self.dict_segment(),
    {
        AddressRange { start: 0, end: self.get_dict_ptr().saturating_sub(1) }
    }

    pub fn get_dict_ptr(&self) -> (r: Address)
        requires
            self.wf(),
        ensures
            r == self.here(),
    {
        self.raw_memory.read_u16(self.reserved_space_start)
    }

    pub fn set_dict_ptr(&mut self, address: Address)
        requires
            old(self).wf(),
            address <= old(self).data_stack_ptr,
        ensures
            final(self).wf(),
            final(self).same_regs(*old(self)),
            final(self).raw_memory@ == mem_write16(
                old(self).raw_memory@,
                RESERVED_START as int,
                address,
            ),
            final(self).here() == address,
    {
        self.raw_memory.write_u16(self.reserved_space_start, address);
        proof {
            lemma_write16_read16(old(self).raw_memory@, RESERVED_START as int, address);
        }
    }
}

/// A 16-bit push with stack pointer `sp` fits the segment `seg`.
pub open spec fn push16_ok(sp: u16, seg: AddressRange) -> bool {
    (AddressRange { start: wsub16(sp, 2), end: wadd16(wsub16(sp, 2), 1) }).within(seg)
}

/// A 16-bit read at stack pointer `sp` fits the segment `seg`.
pub open spec fn get16_ok(sp: u16, seg: AddressRange) -> bool {
    (AddressRange { start: sp, end: wadd16(sp, 1) }).within(seg)
}

/// A 32-bit push with stack pointer `sp` fits the segment `seg`.
pub open spec fn push32_ok(sp: u16, seg: AddressRange) -> bool {
    (AddressRange { start: wsub16(sp, 4), end: wadd16(wsub16(sp, 4), 3) }).within(seg)
}

/// A 32-bit read at stack pointer `sp` fits the segment `seg`.
pub open spec fn get32_ok(sp: u16, seg: AddressRange) -> bool {
    (AddressRange { start: sp, end: wadd16(sp, 3) }).within(seg)
}

impl MachineMemory {
    /// Everything but the arena's stack regions and the two stack pointers
    /// is unchanged: the layout, the article list and the reserved
    /// variables.
    pub open spec fn mem_op_frame(self, pre: MachineMemory) -> bool {
        &&& self.wf()
        &&& self.same_layout(pre)
        &&& self.last_article_ptr == pre.last_article_ptr
        &&& self.here() == pre.here()
        &&& self.current_def_raw() == pre.current_def_raw()
        &&& self.state_raw() == pre.state_raw()
        &&& self.base() == pre.base()
    }

    /// Registers other than the data-stack pointer are unchanged, and so are
    /// the reserved variables.
    pub open spec fn data_op_frame(self, pre: MachineMemory) -> bool {
        &&& self.wf()
        &&& self.same_layout(pre)
        &&& self.last_article_ptr == pre.last_article_ptr
        &&& self.call_stack_ptr == pre.call_stack_ptr
        &&& self.here() == pre.here()
        &&& self.current_def_raw() == pre.current_def_raw()
        &&& self.state_raw() == pre.state_raw()
        &&& self.base() == pre.base()
    }

    /// Registers other than the call-stack pointer are unchanged, and so are
    /// the reserved variables.
    pub open spec fn call_op_frame(self, pre: MachineMemory) -> bool {
        &&& self.wf()
        &&& self.same_layout(pre)
        &&& self.last_article_ptr == pre.last_article_ptr
        &&& self.data_stack_ptr == pre.data_stack_ptr
        &&& self.here() == pre.here()
        &&& self.current_def_raw() == pre.current_def_raw()
        &&& self.state_raw() == pre.state_raw()
        &&& self.base() == pre.base()
    }

    fn push_u16(memory: &mut Mem, sp: &mut Address, safe_range: AddressRange, value: u16) -> (r:
        Result<(), MemoryAccessError>)
        requires
            old(memory).wf(),
        ensures
            final(memory).wf(),
            r is Ok <==> push16_ok(*old(sp), safe_range),
            r is Ok ==> *final(sp) == wsub16(*old(sp), 2) && final(memory)@ == mem_write16(
                old(memory)@,
                wsub16(*old(sp), 2) as int,
                value,
            ),
            r is Err ==> *final(sp) == *old(sp) && *final(memory) == *old(memory) && r == Err::<
                (),
                _,
            >(
                MemoryAccessError {
                    access_range: AddressRange {
                        start: wsub16(*old(sp), 2),
                        end: wadd16(wsub16(*old(sp), 2), 1),
                    },
                    segment: safe_range,
                },
            ),
    {
        let next_sp = (*sp).wrapping_sub(2);

        memory.validate_access(
            AddressRange { start: next_sp, end: next_sp.wrapping_add(1) },
            safe_range,
        )?;

        memory.write_u16(next_sp, value);

        *sp = next_sp;

        Ok(())
    }

    fn get_u16(memory: &Mem, sp: Address, safe_range: AddressRange) -> (r: Result<
        u16,
        MemoryAccessError,
    >)
        requires
            memory.wf(),
        ensures
            r is Ok <==> get16_ok(sp, safe_range),
            r is Ok ==> r == Ok::<_, MemoryAccessError>(mem_read16(memory@, sp as int)),
            r is Err ==> r == Err::<u16, _>(
                MemoryAccessError {
                    access_range: AddressRange { start: sp, end: wadd16(sp, 1) },
                    segment: safe_range,
                },
            ),
    {
        memory.validate_access(
            AddressRange { start: sp, end: sp.wrapping_add(1) },
            safe_range,
        )?;

        Ok(memory.read_u16(sp))
    }

    fn pop_u16(memory: &mut Mem, sp: &mut Address, safe_range: AddressRange) -> (r: Result<
        u16,
        MemoryAccessError,
    >)
        requires
            old(memory).wf(),
        ensures
            *final(memory) == *old(memory),
            r is Ok <==> get16_ok(*old(sp), safe_range),
            r is Ok ==> r == Ok::<_, MemoryAccessError>(mem_read16(old(memory)@, *old(sp) as int))
                && *final(sp) == wadd16(*old(sp), 2),
            r is Err ==> *final(sp) == *old(sp) && r == Err::<u16, _>(
                MemoryAccessError {
                    access_range: AddressRange { start: *old(sp), end: wadd16(*old(sp), 1) },
                    segment: safe_range,
                },
            ),
    {
        let value = MachineMemory::get_u16(memory, *sp, safe_range)?;
        *sp = sp.wrapping_add(2);

        Ok(value)
    }

    fn push_u32(memory: &mut Mem, sp: &mut Address, safe_range: AddressRange, value: u32) -> (r:
        Result<(), MemoryAccessError>)
        requires
            old(memory).wf(),
        ensures
            final(memory).wf(),
            r is Ok <==> push32_ok(*old(sp), safe_range),
            r is Ok ==> *final(sp) == wsub16(*old(sp), 4) && final(memory)@ == mem_write32(
                old(memory)@,
                wsub16(*old(sp), 4) as int,
                value,
            ),
            r is Err ==> *final(sp) == *old(sp) && *final(memory) == *old(memory) && r == Err::<
                (),
                _,
            >(
                MemoryAccessError {
                    access_range: AddressRange {
                        start: wsub16(*old(sp), 4),
                        end: wadd16(wsub16(*old(sp), 4), 3),
                    },
                    segment: safe_range,
                },
            ),
    {
        let next_sp = (*sp).wrapping_sub(4);

        memory.validate_access(
            AddressRange { start: next_sp, end: next_sp.wrapping_add(3) },
            safe_range,
        )?;

        memory.write_u32(next_sp, value);

        *sp = next_sp;

        Ok(())
    }

    fn get_u32(memory: &Mem, sp: Address, safe_range: AddressRange) -> (r: Result<
        u32,
        MemoryAccessError,
    >)
        requires
            memory.wf(),
        ensures
            r is Ok <==> get32_ok(sp, safe_range),
            r is Ok ==> r == Ok::<_, MemoryAccessError>(crate::mem::mem_read32(memory@, sp as int)),
            r is Err ==> r == Err::<u32, _>(
                MemoryAccessError {
                    access_range: AddressRange { start: sp, end: wadd16(sp, 3) },
                    segment: safe_range,
                },
            ),
    {
        memory.validate_access(
            AddressRange { start: sp, end: sp.wrapping_add(3) },
            safe_range,
        )?;

        Ok(memory.read_u32(sp))
    }

    fn pop_u32(memory: &mut Mem, sp: &mut Address, safe_range: AddressRange) -> (r: Result<
        u32,
        MemoryAccessError,
    >)
        requires
            old(memory).wf(),
        ensures
            *final(memory) == *old(memory),
            r is Ok <==> get32_ok(*old(sp), safe_range),
            r is Ok ==> r == Ok::<_, MemoryAccessError>(
                crate::mem::mem_read32(old(memory)@, *old(sp) as int),
            ) && *final(sp) == wadd16(*old(sp), 4),
            r is Err ==> *final(sp) == *old(sp) && r == Err::<u32, _>(
                MemoryAccessError {
                    access_range: AddressRange { start: *old(sp), end: wadd16(*old(sp), 3) },
                    segment: safe_range,
                },
            ),
    {
        let value = MachineMemory::get_u32(memory, *sp, safe_range)?;
        *sp = sp.wrapping_add(4);

        Ok(value)
    }

    /// Pushes one cell onto the data stack; fails, changing nothing, when
    /// the cell would not fit the data-stack segment.
    pub fn data_push_u16(&mut self, value: u16) -> (r: Result<(), MemoryAccessError>)
        requires
            old(self).wf(),
        ensures
            final(self).wf(),
            r is Ok <==> push16_ok(old(self).data_stack_ptr, old(self).data_segment()),
            r is Ok ==> final(self).data_op_frame(*old(self)) && final(self).data_stack_ptr
                == wsub16(old(self).data_stack_ptr, 2) && final(self).raw_memory@ == mem_write16(
                old(self).raw_memory@,
                wsub16(old(self).data_stack_ptr, 2) as int,
                value,
            ),
            r is Err ==> *final(self) == *old(self) && r == Err::<(), _>(
                MemoryAccessError {
                    access_range: AddressRange {
                        start: wsub16(old(self).data_stack_ptr, 2),
                        end: wadd16(wsub16(old(self).data_stack_ptr, 2), 1),
                    },
                    segment: old(self).data_segment(),
                },
            ),
    {
        let segment = self.get_data_stack_segment();
        MachineMemory::push_u16(&mut self.raw_memory, &mut self.data_stack_ptr, segment, value)
    }

    /// Pops one cell from the data stack; fails, changing nothing, on
    /// underflow.
    pub fn data_pop_u16(&mut self) -> (r: Result<u16, MemoryAccessError>)
        requires
            old(self).wf(),
        ensures
            final(self).wf(),
            final(self).raw_memory == old(self).raw_memory,
            r is Ok <==> get16_ok(old(self).data_stack_ptr, old(self).data_segment()),
            r is Ok ==> final(self).data_op_frame(*old(self)) && final(self).data_stack_ptr
                == wadd16(old(self).data_stack_ptr, 2) && r == Ok::<_, MemoryAccessError>(
                mem_read16(old(self).raw_memory@, old(self).data_stack_ptr as int),
            ),
            r is Err ==> *final(self) == *old(self) && r == Err::<u16, _>(
                MemoryAccessError {
                    access_range: AddressRange {
                        start: old(self).data_stack_ptr,
                        end: wadd16(old(self).data_stack_ptr, 1),
                    },
                    segment: old(self).data_segment(),
                },
            ),
    {
        let segment = self.get_data_stack_segment();
        MachineMemory::pop_u16(&mut self.raw_memory, &mut self.data_stack_ptr, segment)
    }

    /// Pushes one double cell onto the data stack; fails, changing nothing,
    /// when it would not fit the data-stack segment.
    pub fn data_push_u32(&mut self, value: u32) -> (r: Result<(), MemoryAccessError>)
        requires
            old(self).wf(),
        ensures
            final(self).wf(),
            r is Ok <==> push32_ok(old(self).data_stack_ptr, old(self).data_segment()),
            r is Ok ==> final(self).data_op_frame(*old(self)) && final(self).data_stack_ptr
                == wsub16(old(self).data_stack_ptr, 4) && final(self).raw_memory@ == mem_write32(
                old(self).raw_memory@,
                wsub16(old(self).data_stack_ptr, 4) as int,
                value,
            ),
            r is Err ==> *final(self) == *old(self),
    {
        let segment = self.get_data_stack_segment();
        MachineMemory::push_u32(&mut self.raw_memory, &mut self.data_stack_ptr, segment, value)
    }

    /// Pops one double cell from the data stack; fails, changing nothing, on
    /// underflow.
    pub fn data_pop_u32(&mut self) -> (r: Result<u32, MemoryAccessError>)
        requires
            old(self).wf(),
        ensures
            final(self).wf(),
            final(self).raw_memory == old(self).raw_memory,
            r is Ok <==> get32_ok(old(self).data_stack_ptr, old(self).data_segment()),
            r is Ok ==> final(self).data_op_frame(*old(self)) && final(self).data_stack_ptr
                == wadd16(old(self).data_stack_ptr, 4) && r == Ok::<_, MemoryAccessError>(
                crate::mem::mem_read32(old(self).raw_memory@, old(self).data_stack_ptr as int),
            ),
            r is Err ==> *final(self) == *old(self),
    {
        let segment = self.get_data_stack_segment();
        MachineMemory::pop_u32(&mut self.raw_memory, &mut self.data_stack_ptr, segment)
    }

    /// Pushes one cell onto the call stack; fails, changing nothing, on
    /// overflow.
    pub fn call_push_u16(&mut self, value: u16) -> (r: Result<(), MemoryAccessError>)
        requires
            old(self).wf(),
        ensures
            final(self).wf(),
            r is Ok <==> push16_ok(old(self).call_stack_ptr, old(self).call_segment()),
            r is Ok ==> final(self).call_op_frame(*old(self)) && final(self).call_stack_ptr
                == wsub16(old(self).call_stack_ptr, 2) && final(self).raw_memory@ == mem_write16(
                old(self).raw_memory@,
                wsub16(old(self).call_stack_ptr, 2) as int,
                value,
            ),
            r is Err ==> *final(self) == *old(self),
    {
        let segment = self.get_call_stack_segment();
        MachineMemory::push_u16(&mut self.raw_memory, &mut self.call_stack_ptr, segment, value)
    }

    /// Pushes one double cell onto the call stack; fails, changing nothing,
    /// on overflow.
    pub fn call_push_u32(&mut self, value: u32) -> (r: Result<(), MemoryAccessError>)
        requires
            old(self).wf(),
        ensures
            final(self).wf(),
            r is Ok <==> push32_ok(old(self).call_stack_ptr, old(self).call_segment()),
            r is Ok ==> final(self).call_op_frame(*old(self)) && final(self).call_stack_ptr
                == wsub16(old(self).call_stack_ptr, 4) && final(self).raw_memory@ == mem_write32(
                old(self).raw_memory@,
                wsub16(old(self).call_stack_ptr, 4) as int,
                value,
            ),
            r is Err ==> *final(self) == *old(self),
    {
        let segment = self.get_call_stack_segment();
        MachineMemory::push_u32(&mut self.raw_memory, &mut self.call_stack_ptr, segment, value)
    }

    /// Pops one cell from the call stack; fails, changing nothing, on
    /// underflow.
    pub fn call_pop_u16(&mut self) -> (r: Result<u16, MemoryAccessError>)
        requires
            old(self).wf(),
        ensures
            final(self).wf(),
            final(self).raw_memory == old(self).raw_memory,
            r is Ok <==> get16_ok(old(self).call_stack_ptr, old(self).call_segment()),
            r is Ok ==> final(self).call_op_frame(*old(self)) && final(self).call_stack_ptr
                == wadd16(old(self).call_stack_ptr, 2) && r == Ok::<_, MemoryAccessError>(
                mem_read16(old(self).raw_memory@, old(self).call_stack_ptr as int),
            ),
            r is Err ==> *final(self) == *old(self),
    {
        let segment = self.get_call_stack_segment();
        MachineMemory::pop_u16(&mut self.raw_memory, &mut self.call_stack_ptr, segment)
    }

    /// Non-destructive peek of the call-stack top cell.
    pub fn call_get_u16(&self) -> (r: Result<u16, MemoryAccessError>)
        requires
            self.wf(),
        ensures
            r is Ok <==> get16_ok(self.call_stack_ptr, self.call_segment()),
            r is Ok ==> r == Ok::<_, MemoryAccessError>(
                mem_read16(self.raw_memory@, self.call_stack_ptr as int),
            ),
    {
        let segment = self.get_call_stack_segment();
        MachineMemory::get_u16(&self.raw_memory, self.call_stack_ptr, segment)
    }

    /// Pops one double cell from the call stack; fails, changing nothing, on
    /// underflow.
    pub fn call_pop_u32(&mut self) -> (r: Result<u32, MemoryAccessError>)
        requires
            old(self).wf(),
        ensures
            final(self).wf(),
            final(self).raw_memory == old(self).raw_memory,
            r is Ok <==> get32_ok(old(self).call_stack_ptr, old(self).call_segment()),
            r is Ok ==> final(self).call_op_frame(*old(self)) && final(self).call_stack_ptr
                == wadd16(old(self).call_stack_ptr, 4) && r == Ok::<_, MemoryAccessError>(
                crate::mem::mem_read32(old(self).raw_memory@, old(self).call_stack_ptr as int),
            ),
            r is Err ==> *final(self) == *old(self),
    {
        let segment = self.get_call_stack_segment();
        MachineMemory::pop_u32(&mut self.raw_memory, &mut self.call_stack_ptr, segment)
    }

    /// Non-destructive peek of the call-stack top double cell.
    pub fn call_get_u32(&self) -> (r: Result<u32, MemoryAccessError>)
        requires
            self.wf(),
        ensures
            r is Ok <==> get32_ok(self.call_stack_ptr, self.call_segment()),
            r is Ok ==> r == Ok::<_, MemoryAccessError>(
                crate::mem::mem_read32(self.raw_memory@, self.call_stack_ptr as int),
            ),
    {
        let segment = self.get_call_stack_segment();
        MachineMemory::get_u32(&self.raw_memory, self.call_stack_ptr, segment)
    }
}

impl MachineMemory {
    /// A one-byte dictionary write fits the free-data segment.
    pub open spec fn dict_write8_ok(self) -> bool {
        self.here() + 1 <= self.data_stack_ptr
    }

    /// A two-byte dictionary write fits the free-data segment.
    pub open spec fn dict_write16_ok(self) -> bool {
        self.here() + 2 <= self.data_stack_ptr
    }

    /// A four-byte dictionary write fits the free-data segment.
    pub open spec fn dict_write32_ok(self) -> bool {
        self.here() + 4 <= self.data_stack_ptr
    }

    /// Registers and reserved variables other than `HERE` are unchanged by a
    /// dictionary write.
    pub open spec fn dict_op_frame(self, pre: MachineMemory) -> bool {
        &&& self.wf()
        &&& self.same_regs(pre)
        &&& self.current_def_raw() == pre.current_def_raw()
        &&& self.state_raw() == pre.state_raw()
        &&& self.base() == pre.base()
    }

    /// Appends one byte at `HERE`, advancing `HERE` by 1; fails, changing
    /// nothing, when the byte would not fit the free-data segment.
    pub fn dict_write_u8(&mut self, value: u8) -> (r: Result<(), MemoryAccessError>)
        requires
            old(self).wf(),
        ensures
            final(self).wf(),
            r is Ok <==> old(self).dict_write8_ok(),
            r is Ok ==> final(self).dict_op_frame(*old(self)) && final(self).here() == old(self).here() + 1 && final(self).raw_memory@ == mem_write16(
                old(self).raw_memory@.update(old(self).here() as int, value),
                RESERVED_START as int,
                (old(self).here() + 1) as u16,
            ),
            r is Err ==> *final(self) == *old(self) && r == Err::<(), _>(
                MemoryAccessError {
                    access_range: AddressRange { start: old(self).here(), end: old(self).here() },
                    segment: old(self).free_segment(),
                },
            ),
    {
        let dict_ptr = self.get_dict_ptr();
        let segment = self.get_free_data_segment();

        if self.data_stack_ptr == 0 {
            return Err(
                MemoryAccessError {
                    access_range: AddressRange { start: dict_ptr, end: dict_ptr },
                    segment,
                },
            );
        }

        self.raw_memory.validate_access(
            AddressRange { start: dict_ptr, end: dict_ptr },
            segment,
        )?;

        self.raw_memory.write_u8(dict_ptr, value);
        self.set_dict_ptr(dict_ptr.wrapping_add(1));

        Ok(())
    }

    /// Appends the byte of an opcode at `HERE`.
    pub fn dict_write_opcode(&mut self, value: OpCode) -> (r: Result<(), MemoryAccessError>)
        requires
            old(self).wf(),
        ensures
            final(self).wf(),
            r is Ok <==> old(self).dict_write8_ok(),
            r is Ok ==> final(self).dict_op_frame(*old(self)) && final(self).here() == old(self).here() + 1 && final(self).raw_memory@ == mem_write16(
                old(self).raw_memory@.update(old(self).here() as int, value.code_spec()),
                RESERVED_START as int,
                (old(self).here() + 1) as u16,
            ),
            r is Err ==> *final(self) == *old(self),
    {
        self.dict_write_u8(value.int_value())
    }

    /// Appends a 16-bit value at `HERE`, advancing `HERE` by 2; fails,
    /// changing nothing, when it would not fit the free-data segment.
    pub fn dict_write_u16(&mut self, value: u16) -> (r: Result<(), MemoryAccessError>)
        requires
            old(self).wf(),
        ensures
            final(self).wf(),
            r is Ok <==> old(self).dict_write16_ok(),
            r is Ok ==> final(self).dict_op_frame(*old(self)) && final(self).here() == old(self).here() + 2 && final(self).raw_memory@ == mem_write16(
                mem_write16(old(self).raw_memory@, old(self).here() as int, value),
                RESERVED_START as int,
                (old(self).here() + 2) as u16,
            ),
            r is Err ==> *final(self) == *old(self) && r == Err::<(), _>(
                MemoryAccessError {
                    access_range: AddressRange {
                        start: old(self).here(),
                        end: wadd16(old(self).here(), 1),
                    },
                    segment: old(self).free_segment(),
                },
            ),
    {
        let dict_ptr = self.get_dict_ptr();
        let segment = self.get_free_data_segment();

        if self.data_stack_ptr == 0 {
            return Err(
                MemoryAccessError {
                    access_range: AddressRange {
                        start: dict_ptr,
                        end: dict_ptr.wrapping_add(1),
                    },
                    segment,
                },
            );
        }

        self.raw_memory.validate_access(
            AddressRange { start: dict_ptr, end: dict_ptr.wrapping_add(1) },
            segment,
        )?;

        self.raw_memory.write_u16(dict_ptr, value);
        self.set_dict_ptr(dict_ptr.wrapping_add(2));

        Ok(())
    }

    /// Appends a 32-bit value at `HERE`, advancing `HERE` by 4; fails,
    /// changing nothing, when it would not fit the free-data segment.
    pub fn dict_write_u32(&mut self, value: u32) -> (r: Result<(), MemoryAccessError>)
        requires
            old(self).wf(),
        ensures
            final(self).wf(),
            r is Ok <==> old(self).dict_write32_ok(),
            r is Ok ==> final(self).dict_op_frame(*old(self)) && final(self).here() == old(self).here() + 4 && final(self).raw_memory@ == mem_write16(
                mem_write32(old(self).raw_memory@, old(self).here() as int, value),
                RESERVED_START as int,
                (old(self).here() + 4) as u16,
            ),
            r is Err ==> *final(self) == *old(self),
    {
        let dict_ptr = self.get_dict_ptr();
        let segment = self.get_free_data_segment();

        if self.data_stack_ptr == 0 {
            return Err(
                MemoryAccessError {
                    access_range: AddressRange {
                        start: dict_ptr,
                        end: dict_ptr.wrapping_add(3),
                    },
                    segment,
                },
            );
        }

        self.raw_memory.validate_access(
            AddressRange { start: dict_ptr, end: dict_ptr.wrapping_add(3) },
            segment,
        )?;

        self.raw_memory.write_u32(dict_ptr, value);
        self.set_dict_ptr(dict_ptr.wrapping_add(4));

        Ok(())
    }

    /// Writes a placeholder operand at `HERE` and returns the address of the
    /// slot, to be resolved later.
    pub fn create_forward_reference(&mut self) -> (r: Result<Address, MemoryAccessError>)
        requires
            old(self).wf(),
        ensures
            final(self).wf(),
            r is Ok <==> old(self).dict_write16_ok(),
            r is Ok ==> r == Ok::<_, MemoryAccessError>(old(self).here()) && final(self).dict_op_frame(*old(self)) && final(self).here() == old(self).here() + 2 && final(self).raw_memory@ == mem_write16(
                mem_write16(old(self).raw_memory@, old(self).here() as int, 0xDEAD),
                RESERVED_START as int,
                (old(self).here() + 2) as u16,
            ),
            r is Err ==> *final(self) == *old(self),
    {
        let addr = self.get_dict_ptr();

        self.dict_write_u16(0xDEAD)?;

        Ok(addr)
    }

    /// Writes the current `HERE` into a forward-reference slot, after
    /// validating that the slot lies inside the used dictionary.
    pub fn resolve_forward_reference(&mut self, reference_address: Address) -> (r: Result<
        (),
        MemoryAccessError,
    >)
        requires
            old(self).wf(),
        ensures
            final(self).wf(),
            r is Ok <==> (AddressRange {
                start: reference_address,
                end: wadd16(reference_address, 1),
            }).within(old(self).dict_segment()),
            r is Ok ==> final(self).same_regs(*old(self)) && final(self).raw_memory@ == mem_write16(
                old(self).raw_memory@,
                reference_address as int,
                old(self).here(),
            ),
            r is Err ==> *final(self) == *old(self) && r == Err::<(), _>(
                MemoryAccessError {
                    access_range: AddressRange {
                        start: reference_address,
                        end: wadd16(reference_address, 1),
                    },
                    segment: old(self).dict_segment(),
                },
            ),
    {
        let segment = self.get_used_dict_segment();
        self.raw_memory.validate_access(
            AddressRange { start: reference_address, end: reference_address.wrapping_add(1) },
            segment,
        )?;

        let here = self.get_dict_ptr();
        self.raw_memory.write_u16(reference_address, here);

        Ok(())
    }

    /// Header address of the colon definition currently being compiled;
    /// a stored value at or past `HERE` means none.
    pub fn get_current_word(&self) -> (r: Option<Address>)
        requires
            self.wf(),
        ensures
            r == if self.current_def_raw() >= self.here() {
                Option::<Address>::None
            } else {
                Option::<Address>::Some(self.current_def_raw())
            },
    {
        let addr = self.raw_memory.read_u16(
            self.reserved_space_start + ReservedAddresses::CurrentDefVar.int_value(),
        );

        if addr >= self.get_dict_ptr() {
            return None;
        }

        Some(addr)
    }

    /// Stores the header address of the colon definition being compiled;
    /// `None` is kept as the sentinel `0xFFFF`.
    pub fn set_current_word(&mut self, header_address: Option<Address>)
        requires
            old(self).wf(),
        ensures
            final(self).wf(),
            final(self).same_regs(*old(self)),
            final(self).raw_memory@ == mem_write16(
                old(self).raw_memory@,
                RESERVED_START + 2,
                match header_address {
                    Option::None => 0xFFFF,
                    Option::Some(addr) => addr,
                },
            ),
            final(self).here() == old(self).here() && final(self).state_raw() == old(self).state_raw() && final(self).base() == old(self).base(),
            final(self).current_def_raw() == match header_address {
                Option::None => 0xFFFF,
                Option::Some(addr) => addr,
            },
    {
        let value = match header_address {
            None => 0xFFFFu16,
            Some(addr) => addr,
        };
        self.raw_memory.write_u16(
            self.reserved_space_start + ReservedAddresses::CurrentDefVar.int_value(),
            value,
        );
        proof {
            lemma_write16_read16(old(self).raw_memory@, RESERVED_START + 2, value);
        }
    }

    /// The radix for literal parsing and formatting, from the reserved
    /// `BASE` variable.
    pub fn get_base(&self) -> (r: u16)
        requires
            self.wf(),
        ensures
            r == self.base(),
    {
        self.raw_memory.read_u16(
            self.reserved_space_start + ReservedAddresses::BaseVar.int_value(),
        )
    }

    /// The machine state, from the reserved `STATE` variable: zero means
    /// interpreter, anything else compiler.
    pub fn get_state(&self) -> (r: MachineState)
        requires
            self.wf(),
        ensures
            r == self.state(),
    {
        let raw_value = self.raw_memory.read_u16(
            self.reserved_space_start + ReservedAddresses::StateVar.int_value(),
        );

        if raw_value == 0 {
            MachineState::Interpreter
        } else {
            MachineState::Compiler
        }
    }

    /// Stores the machine state in the reserved `STATE` variable.
    pub fn set_state(&mut self, state: MachineState)
        requires
            old(self).wf(),
        ensures
            final(self).wf(),
            final(self).same_regs(*old(self)),
            final(self).raw_memory@ == mem_write16(
                old(self).raw_memory@,
                RESERVED_START + 4,
                if state is Interpreter {
                    0
                } else {
                    0xFFFF
                },
            ),
            final(self).state() == state,
            final(self).here() == old(self).here() && final(self).base() == old(self).base()
                && final(self).current_def_raw() == old(self).current_def_raw(),
    {
        let raw_value: u16 = match state {
            MachineState::Interpreter => 0,
            MachineState::Compiler => 0xFFFF,
        };

        self.raw_memory.write_u16(
            self.reserved_space_start + ReservedAddresses::StateVar.int_value(),
            raw_value,
        );
        proof {
            lemma_write16_read16(old(self).raw_memory@, RESERVED_START + 4, raw_value);
        }
    }
}

/// Address of the reserved word buffer, which receives parsed input words
/// as sized strings.
pub const WORD_BUFFER_ADDR: u16 = 0xFE00;

impl MachineMemory {
    /// Walks the linked article list from `last_article_ptr`; the first
    /// name match wins. Walking validates each article against the used
    /// dictionary segment.
    pub fn lookup_article(&self, name: &[u8]) -> (r: Result<
        Option<ReadableArticle<'_>>,
        MemoryAccessError,
    >)
        requires
            self.wf(),
        ensures
            match self.last_article_ptr {
                Option::None => r is Ok && r->Ok_0 is None,
                Option::Some(la) => match lookup_chain(
                    self.raw_memory@,
                    la,
                    self.dict_segment(),
                    name@,
                ) {
                    Ok(found) => match found {
                        Option::Some(a) => r is Ok && r->Ok_0 is Some && r->Ok_0->0.addr() == a
                            && r->Ok_0->0.mem() == self.raw_memory && article_valid(
                            self.raw_memory@,
                            a,
                            self.dict_segment(),
                        ) && article_name_bytes(self.raw_memory@, a) == name@,
                        Option::None => r is Ok && r->Ok_0 is None,
                    },
                    Err(_) => r is Err,
                },
            },
    {
        let seg = self.get_used_dict_segment();
        let ghost root: u16 = self.last_article_ptr->0;

        let mut current_article = match self.last_article_ptr {
            None => {
                return Ok(None);
            },
            Some(addr) => match ReadableArticle::new(&self.raw_memory, addr, seg) {
                Ok(a) => a,
                Err(e) => {
                    return Err(e);
                },
            },
        };

        loop
            invariant
                self.wf(),
                current_article.mem() == self.raw_memory,
                article_valid(self.raw_memory@, current_article.addr(), seg),
                seg == self.dict_segment(),
                self.last_article_ptr == Some(root),
                lookup_chain(self.raw_memory@, current_article.addr(), seg, name@) == lookup_chain(
                    self.raw_memory@,
                    root,
                    seg,
                    name@,
                ),
            decreases current_article.addr(),
        {
            proof {
                lemma_article_name_no_wrap(self.raw_memory@, current_article.addr(), seg);
                crate::sized_string::lemma_content_bytes_eq(
                    self.raw_memory@,
                    article_name_addr(current_article.addr()),
                );
            }

            if crate::sized_string::bytes_equal(current_article.name().as_bytes(), name) {
                return Ok(Some(current_article));
            }

            let ghost cur = current_article.addr();
            current_article = match current_article.previous_article(seg) {
                Ok(Some(article)) => article,
                Ok(None) => {
                    return Ok(None);
                },
                Err(e) => {
                    proof {
                        let m = self.raw_memory@;
                        let prev = article_prev(m, cur);
                        assert(prev < cur && !article_valid(m, prev, seg));
                        assert(lookup_chain(m, prev, seg, name@) == Err::<Option<u16>, ()>(()));
                    }
                    return Err(e);
                },
            };
        }
    }

    /// Looks up an article by the name stored as a sized string at
    /// `name_address`.
    pub fn lookup_article_name_buf(&self, name_address: Address) -> (r: Result<
        Option<ReadableArticle<'_>>,
        MemoryAccessError,
    >)
        requires
            self.wf(),
            crate::sized_string::sized_str_no_wrap(self.raw_memory@, name_address),
        ensures
            match self.last_article_ptr {
                Option::None => r is Ok && r->Ok_0 is None,
                Option::Some(la) => match lookup_chain(
                    self.raw_memory@,
                    la,
                    self.dict_segment(),
                    crate::sized_string::sized_str_bytes(self.raw_memory@, name_address),
                ) {
                    Ok(found) => match found {
                        Option::Some(a) => r is Ok && r->Ok_0 is Some && r->Ok_0->0.addr() == a
                            && r->Ok_0->0.mem() == self.raw_memory && article_valid(
                            self.raw_memory@,
                            a,
                            self.dict_segment(),
                        ) && article_name_bytes(self.raw_memory@, a)
                            == crate::sized_string::sized_str_bytes(
                            self.raw_memory@,
                            name_address,
                        ),
                        Option::None => r is Ok && r->Ok_0 is None,
                    },
                    Err(_) => r is Err,
                },
            },
    {
        let s = match ReadableSizedString::new(
            &self.raw_memory,
            name_address,
            self.raw_memory.address_range(),
        ) {
            Ok(s) => s,
            Err(e) => {
                return Err(e);
            },
        };

        self.lookup_article(s.as_bytes())
    }

    /// Walks the dictionary's articles, most recent first.
    pub fn articles(&self) -> (r: ReadableArticlesIterator<'_>)
        requires
            self.wf(),
        ensures
            r.wf(),
            !r.has_started(),
            r.range() == self.dict_segment(),
            r.current() is Some <==> (self.last_article_ptr matches Some(addr) && article_valid(
                self.raw_memory@,
                addr,
                self.dict_segment(),
            )),
            r.current() matches Some(a) ==> a.mem() == self.raw_memory && Some(a.addr())
                == self.last_article_ptr,
    {
        ReadableArticlesIterator::new(
            &self.raw_memory,
            self.last_article_ptr,
            self.get_used_dict_segment(),
        )
    }

    /// Reads the next whitespace-delimited word from `input` into the
    /// reserved word buffer as a sized string; `Some(buffer_address)` when
    /// the word is non-empty, `None` at end of input. Nothing is changed on
    /// an input error.
    pub fn read_input_word<I: Input>(&mut self, input: &mut I, fuel: &mut u64) -> (r: Result<
        Option<Address>,
        InputError,
    >)
        requires
            old(self).wf(),
        ensures
            final(self).wf(),
            *final(fuel) <= *old(fuel),
            r is Err ==> *final(self) == *old(self),
            r is Ok ==> {
                let m = final(self).raw_memory@;
                let len = crate::sized_string::sized_str_len(m, WORD_BUFFER_ADDR);
                &&& final(self).same_regs(*old(self))
                &&& final(self).here() == old(self).here()
                &&& final(self).state_raw() == old(self).state_raw()
                &&& final(self).base() == old(self).base()
                &&& final(self).current_def_raw() == old(self).current_def_raw()
                &&& len <= 255
                &&& crate::sized_string::sized_str_no_wrap(m, WORD_BUFFER_ADDR)
                &&& (r->Ok_0 matches Some(a) ==> a == WORD_BUFFER_ADDR && len >= 1)
                &&& (r->Ok_0 is None ==> len == 0)
                &&& (len >= 1 ==> r->Ok_0 == Some(WORD_BUFFER_ADDR))
                &&& forall|i: int|
                    0 <= i < MEM_SIZE && !(WORD_BUFFER_ADDR <= i <= WORD_BUFFER_ADDR + len)
                        ==> m[i] == old(self).raw_memory@[i]
                &&& forall|j: int|
                    0 <= j < len ==> !crate::input::byte_is_whitespace(
                        #[trigger] m[WORD_BUFFER_ADDR + 1 + j],
                    )
                &&& len == crate::input::take_token(
                    crate::input::skip_ws(old(input).remaining()),
                ).len()
                &&& forall|j: int|
                    0 <= j < len ==> #[trigger] m[WORD_BUFFER_ADDR + 1 + j]
                        == crate::input::take_token(
                        crate::input::skip_ws(old(input).remaining()),
                    )[j]
                &&& final(input).remaining() == crate::input::after_token(old(input).remaining())
            },
            r == Err::<Option<Address>, InputError>(InputError::OutOfFuel) ==> *final(fuel) == 0,
    {
        let word = match read_word(input, 255, fuel) {
            Ok(w) => w,
            Err(e) => {
                return Err(e);
            },
        };

        let buffer_address = self.get_reserved_address(ReservedAddresses::WordBuffer);
        let word_length: usize = word.len();

        self.raw_memory.write_u8(buffer_address, word_length as u8);

        let mut i: usize = 0;
        while i < word_length
            invariant
                0 <= i <= word_length,
                word_length == word@.len() <= 255,
                self.raw_memory.wf(),
                self.same_regs(*old(self)),
                self.stacks_border == old(self).stacks_border,
                self.raw_memory@[WORD_BUFFER_ADDR as int] == word_length as u8,
                forall|j: int|
                    0 <= j < i ==> #[trigger] self.raw_memory@[WORD_BUFFER_ADDR + 1 + j]
                        == word@[j],
                forall|k: int|
                    0 <= k < MEM_SIZE && !(WORD_BUFFER_ADDR <= k <= WORD_BUFFER_ADDR + i)
                        ==> self.raw_memory@[k] == old(self).raw_memory@[k],
                forall|j: int| 0 <= j < word@.len() ==> !crate::input::byte_is_whitespace(
                    #[trigger] word@[j],
                ),
            decreases word_length - i,
        {
            self.raw_memory.write_u8(
                buffer_address.wrapping_add(1).wrapping_add(i as u16),
                word[i],
            );
            i = i + 1;
        }

        proof {
            assert forall|j: int| 0 <= j < word@.len() implies !crate::input::byte_is_whitespace(
                #[trigger] self.raw_memory@[WORD_BUFFER_ADDR + 1 + j],
            ) by {
                assert(self.raw_memory@[WORD_BUFFER_ADDR + 1 + j] == word@[j]);
            }
        }

        if word_length > 0 {
            Ok(Some(buffer_address))
        } else {
            Ok(None)
        }
    }

    /// Copies the sized string at `src_address` (validated against the whole
    /// arena) to `dst_address`, validated against `dst_segment`. The copy is
    /// taken from the source as it was before any byte is written.
    pub fn copy_string(
        &mut self,
        src_address: Address,
        dst_address: Address,
        dst_segment: AddressRange,
    ) -> (r: Result<(), MemoryAccessError>)
        requires
            old(self).wf(),
        ensures
            final(self).wf(),
            r is Err ==> *final(self) == *old(self),
            r is Ok ==> ({
                let m0 = old(self).raw_memory@;
                let len = crate::sized_string::sized_str_len(m0, src_address);
                &&& crate::sized_string::sized_str_no_wrap(m0, src_address)
                &&& (AddressRange { start: dst_address, end: wadd16(dst_address, len as u16) }).within(
                    dst_segment,
                )
                &&& final(self).same_regs(*old(self))
                &&& final(self).raw_memory@.len() == MEM_SIZE
                &&& forall|i: int|
                    0 <= i <= len ==> #[trigger] final(self).raw_memory@[dst_address + i]
                        == m0[src_address + i]
                &&& forall|k: int|
                    0 <= k < MEM_SIZE && !(dst_address <= k <= dst_address + len) ==> final(self).raw_memory@[k] == m0[k]
            }),
    {
        let full = self.raw_memory.address_range();
        let src = match ReadableSizedString::new(&self.raw_memory, src_address, full) {
            Ok(s) => s,
            Err(e) => {
                return Err(e);
            },
        };
        let src_range = src.full_range();
        self.raw_memory.validate_access(src_range, full)?;

        let length = src.read_length();

        self.raw_memory.validate_access(
            AddressRange {
                start: dst_address,
                end: dst_address.wrapping_add(length as u16),
            },
            dst_segment,
        )?;

        let mut snapshot: Vec<u8> = Vec::new();
        let mut i: u16 = 0;
        while i <= length as u16
            invariant
                0 <= i <= length + 1,
                src_address + length <= 0xFFFF,
                snapshot@.len() == i,
                self.wf(),
                length == self.raw_memory@[src_address as int],
                forall|j: int| 0 <= j < i ==> snapshot@[j] == self.raw_memory@[src_address + j],
            decreases length - i + 1,
        {
            snapshot.push(self.raw_memory.read_u8(src_address + i));
            i = i + 1;
        }

        let mut j: u16 = 0;
        while j <= length as u16
            invariant
                0 <= j <= length + 1,
                dst_address + length <= 0xFFFF,
                snapshot@.len() == length + 1,
                self.raw_memory.wf(),
                self.same_regs(*old(self)),
                self.stacks_border == old(self).stacks_border,
                forall|k: int| 0 <= k < snapshot@.len() ==> snapshot@[k] == old(self).raw_memory@[src_address + k],
                forall|k: int| 0 <= k < j ==> self.raw_memory@[dst_address + k] == snapshot@[k],
                forall|k: int|
                    0 <= k < MEM_SIZE && !(dst_address <= k < dst_address + j) ==> self.raw_memory@[k]
                        == old(self).raw_memory@[k],
            decreases length - j + 1,
        {
            self.raw_memory.write_u8(dst_address + j, snapshot[j as usize]);
            j = j + 1;
        }

        proof {
            assert forall|i: int| 0 <= i <= length implies #[trigger] self.raw_memory@[dst_address
                + i] == old(self).raw_memory@[src_address + i] by {
                assert(self.raw_memory@[dst_address + i] == snapshot@[i]);
            }
        }

        Ok(())
    }

    /// Appends the sized string at `address` (validated against the whole
    /// arena) to the dictionary: the length byte and the content bytes, with
    /// `HERE` advancing by `1 + length`. The copy is taken from the source
    /// as it was before any byte is written.
    pub fn dict_write_sized_string(&mut self, address: Address) -> (r: Result<
        (),
        MemoryAccessError,
    >)
        requires
            old(self).wf(),
        ensures
            final(self).wf(),
            r is Err ==> *final(self) == *old(self),
            r is Ok <==> (crate::sized_string::sized_str_valid(
                old(self).raw_memory@,
                address,
                AddressRange { start: 0, end: 0xFFFF },
            ) && old(self).here() + 1 + crate::sized_string::sized_str_len(
                old(self).raw_memory@,
                address,
            ) <= old(self).data_stack_ptr),
            r is Ok ==> ({
                let m0 = old(self).raw_memory@;
                let dict = old(self).here();
                let len = crate::sized_string::sized_str_len(m0, address);
                &&& final(self).dict_op_frame(*old(self))
                &&& final(self).here() == dict + 1 + len
                &&& final(self).raw_memory@.len() == MEM_SIZE
                &&& final(self).raw_memory@[dict as int] == len
                &&& forall|i: int|
                    0 <= i < len ==> #[trigger] final(self).raw_memory@[dict + 1 + i]
                        == crate::sized_string::sized_str_content_bytes(m0, address)[i]
                &&& forall|k: int|
                    0 <= k < MEM_SIZE && !(dict <= k <= dict + 1 + len) && !(RESERVED_START <= k
                        < RESERVED_START + 2) ==> final(self).raw_memory@[k] == m0[k]
            }),
    {
        let full = self.raw_memory.address_range();
        let s = match ReadableSizedString::new(&self.raw_memory, address, full) {
            Ok(s) => s,
            Err(e) => {
                return Err(e);
            },
        };
        let length = s.read_length();
        let content_address = s.content_address();

        let dict_ptr = self.get_dict_ptr();
        let segment = self.get_free_data_segment();

        if self.data_stack_ptr == 0 {
            return Err(
                MemoryAccessError {
                    access_range: AddressRange {
                        start: dict_ptr,
                        end: dict_ptr.wrapping_add(length as u16),
                    },
                    segment,
                },
            );
        }

        self.raw_memory.validate_access(
            AddressRange { start: dict_ptr, end: dict_ptr.wrapping_add(length as u16) },
            segment,
        )?;

        let mut snapshot: Vec<u8> = Vec::new();
        let mut i: u16 = 0;
        while i < length as u16
            invariant
                0 <= i <= length,
                snapshot@.len() == i,
                self.wf(),
                length == self.raw_memory@[address as int],
                crate::sized_string::sized_str_valid(
                    self.raw_memory@,
                    address,
                    AddressRange { start: 0, end: 0xFFFF },
                ),
                forall|j: int|
                    0 <= j < i ==> snapshot@[j] == self.raw_memory@[wadd16(address, 1) + j],
            decreases length - i,
        {
            proof {
                assert(crate::sized_string::sized_str_content_range(
                    self.raw_memory@,
                    address,
                ).within(AddressRange { start: 0, end: 0xFFFF }));
            }
            snapshot.push(self.raw_memory.read_u8(content_address.wrapping_add(i)));
            i = i + 1;
        }

        self.raw_memory.write_u8(dict_ptr, length);

        let mut j: u16 = 0;
        while j < length as u16
            invariant
                0 <= j <= length,
                old(self).here() + 1 + length <= old(self).data_stack_ptr,
                dict_ptr == old(self).here(),
                snapshot@.len() == length,
                self.raw_memory.wf(),
                self.same_regs(*old(self)),
                self.stacks_border == old(self).stacks_border,
                forall|k: int| 0 <= k < snapshot@.len() ==> snapshot@[k] == old(self).raw_memory@[wadd16(address, 1) + k],
                self.raw_memory@[dict_ptr as int] == length,
                forall|k: int| 0 <= k < j ==> self.raw_memory@[dict_ptr + 1 + k] == snapshot@[k],
                forall|k: int|
                    0 <= k < MEM_SIZE && !(dict_ptr <= k < dict_ptr + 1 + j) ==> self.raw_memory@[k]
                        == old(self).raw_memory@[k],
            decreases length - j,
        {
            self.raw_memory.write_u8(dict_ptr.wrapping_add(1).wrapping_add(j), snapshot[j as usize]);
            j = j + 1;
        }

        self.set_dict_ptr(dict_ptr.wrapping_add(1).wrapping_add(length as u16));

        proof {
            let m0 = old(self).raw_memory@;
            assert forall|i: int| 0 <= i < length implies #[trigger] self.raw_memory@[dict_ptr + 1
                + i] == crate::sized_string::sized_str_content_bytes(m0, address)[i] by {
                assert(self.raw_memory@[dict_ptr + 1 + i] == snapshot@[i]);
                assert(snapshot@[i] == m0[wadd16(address, 1) + i]);
            }
        }

        Ok(())
    }
}

/// Inside the used dictionary segment a valid article's name does not wrap.
pub proof fn lemma_article_name_no_wrap(m: Seq<u8>, addr: u16, seg: AddressRange)
    requires
        m.len() == MEM_SIZE,
        article_valid(m, addr, seg),
    ensures
        crate::sized_string::sized_str_no_wrap(m, article_name_addr(addr)),
{
    assert(addr + 3 <= 0xFFFF);
}

/// Start of the pictured-number buffer: 128 bytes at the top of the arena.
pub const PNO_START: u16 = 0xFF80;

impl MachineMemory {
    /// The current length byte of the pictured-number buffer.
    pub open spec fn pno_len(self) -> u8
        recommends
            self.wf(),
    {
        self.raw_memory@[PNO_START as int]
    }

    /// The whole pictured-number buffer: a length byte and 127 content
    /// bytes, digits written backward from the end.
    pub fn get_pno_buffer_range(&self) -> (r: AddressRange)
        requires
            self.wf(),
        ensures
            r == (AddressRange { start: PNO_START, end: 0xFFFF }),
    {
        let start_address = self.get_reserved_address(ReservedAddresses::PnoBuffer);
        AddressRange { start: start_address, end: start_address.wrapping_add(127) }
    }

    /// The content bytes of the pictured-number buffer.
    pub fn get_pno_content_range(&self) -> (r: AddressRange)
        requires
            self.wf(),
        ensures
            r == (AddressRange { start: (PNO_START + 1) as u16, end: 0xFFFF }),
    {
        let full_range = self.get_pno_buffer_range();
        AddressRange { start: full_range.start.wrapping_add(1), end: full_range.end }
    }

    /// Empties the pictured-number buffer.
    pub fn clear_pno_buffer(&mut self)
        requires
            old(self).wf(),
        ensures
            final(self).wf(),
            final(self).same_regs(*old(self)),
            final(self).raw_memory@ == old(self).raw_memory@.update(PNO_START as int, 0u8),
            final(self).pno_len() == 0,
            final(self).here() == old(self).here() && final(self).state_raw() == old(self).state_raw() && final(self).base() == old(self).base() && final(self).current_def_raw()
                == old(self).current_def_raw(),
    {
        self.raw_memory.write_u8(
            self.get_reserved_address(ReservedAddresses::PnoBuffer),
            0,
        );
    }

    /// Prepends one byte to the pictured-number buffer (content grows
    /// backward from the end); fails, changing nothing, when the buffer is
    /// full.
    pub fn pno_put(&mut self, ch: u8) -> (r: Result<(), MemoryAccessError>)
        requires
            old(self).wf(),
        ensures
            final(self).wf(),
            r is Ok <==> old(self).pno_len() < 127,
            r is Ok ==> final(self).same_regs(*old(self)) && final(self).raw_memory@ == old(self).raw_memory@.update((0xFFFF - old(self).pno_len()) as int, ch).update(
                PNO_START as int,
                (old(self).pno_len() + 1) as u8,
            ) && final(self).pno_len() == old(self).pno_len() + 1 && final(self).here() == old(self).here() && final(self).state_raw() == old(self).state_raw() && final(self).base()
                == old(self).base(),
            r is Err ==> *final(self) == *old(self),
    {
        let pno_addr = self.get_reserved_address(ReservedAddresses::PnoBuffer);
        let current_size = self.raw_memory.read_u8(pno_addr);
        let content_range = self.get_pno_content_range();
        let write_address = content_range.end.wrapping_sub(current_size as u16);
        self.raw_memory.validate_access(
            AddressRange { start: write_address, end: write_address },
            content_range,
        )?;

        self.raw_memory.write_u8(write_address, ch);
        self.raw_memory.write_u8(pno_addr, current_size.wrapping_add(1));

        Ok(())
    }

    /// The address of the first content byte and the length of the
    /// pictured-number buffer.
    pub fn pno_finish(&self) -> (r: (Address, u8))
        requires
            self.wf(),
        ensures
            r.1 == self.pno_len(),
            r.0 == wadd16(wsub16(0xFFFF, self.pno_len() as u16), 1),
    {
        let size = self.raw_memory.read_u8(self.get_reserved_address(ReservedAddresses::PnoBuffer));
        let address = self.get_pno_content_range().end.wrapping_sub(size as u16).wrapping_add(1);
        (address, size)
    }
}

/// The arena after the reserved variables are reinstated: `BASE` 10,
/// `HERE` 0, `STATE` 0 (interpreter), `CURRENT_DEF` none.
#[verifier::opaque]
pub open spec fn builtin_vars_reset(m: Seq<u8>) -> Seq<u8> {
    mem_write16(
        mem_write16(
            mem_write16(mem_write16(m, RESERVED_START + 10, 10), RESERVED_START as int, 0),
            RESERVED_START + 4,
            0,
        ),
        RESERVED_START + 2,
        0xFFFF,
    )
}

/// Reading a 16-bit variable back from where it was just written yields the
/// written value.
pub proof fn lemma_write16_read16(m: Seq<u8>, a: int, v: u16)
    requires
        0 <= a,
        a + 1 < m.len(),
    ensures
        mem_read16(mem_write16(m, a, v), a) == v,
        mem_write16(m, a, v).len() == m.len(),
        forall|i: int| 0 <= i < m.len() && i != a && i != a + 1 ==> mem_write16(m, a, v)[i] == m[i],
{
}

/// The four reserved variables after a reset hold their initial values.
pub proof fn lemma_reserved_vars(m: Seq<u8>)
    requires
        m.len() == MEM_SIZE,
    ensures
        mem_read16(builtin_vars_reset(m), RESERVED_START as int) == 0,
        mem_read16(builtin_vars_reset(m), RESERVED_START + 2) == 0xFFFF,
        mem_read16(builtin_vars_reset(m), RESERVED_START + 4) == 0,
        mem_read16(builtin_vars_reset(m), RESERVED_START + 10) == 10,
        builtin_vars_reset(m).len() == MEM_SIZE,
        forall|i: int|
            0 <= i < MEM_SIZE && !(RESERVED_START <= i < RESERVED_START + 6) && !(RESERVED_START
                + 10 <= i < RESERVED_START + 12) ==> builtin_vars_reset(m)[i] == m[i],
{
    reveal(builtin_vars_reset);
}

} // verus!
