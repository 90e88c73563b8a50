//! Named memory segments: each one computes, from the machine's memory, the
//! inclusive address range that a class of accesses is allowed to touch.

use vstd::prelude::*;

use crate::machine_memory::MachineMemory;
use crate::mem::AddressRange;

verus! {

/// A segment whose range may depend on the value it is asked about.
pub trait MemorySegment {
    /// The allowed range the segment stands for.
    spec fn range_spec(&self, memory: &MachineMemory) -> AddressRange;

    fn get_range(&self, memory: &MachineMemory) -> (r: AddressRange)
        requires
            memory.wf(),
        ensures
            r == self.range_spec(memory),
    ;

    /// A short name for reports.
    fn name(&self) -> &'static str;
}

/// A segment whose range depends on the machine's memory alone.
pub trait StaticMemorySegment {
    /// The allowed range the segment stands for.
    spec fn static_range_spec(memory: &MachineMemory) -> AddressRange;

    fn get_static_range(memory: &MachineMemory) -> (r: AddressRange)
        requires
            memory.wf(),
        ensures
            r == Self::static_range_spec(memory),
    ;

    /// A short name for reports.
    fn static_name() -> &'static str;
}

impl<T: StaticMemorySegment> MemorySegment for T {
    open spec fn range_spec(&self, memory: &MachineMemory) -> AddressRange {
        T::static_range_spec(memory)
    }

    fn get_range(&self, memory: &MachineMemory) -> AddressRange {
        T::get_static_range(memory)
    }

    fn name(&self) -> &'static str {
        T::static_name()
    }
}

/// The call stack's segment.
pub struct CallStackSegment {}

impl StaticMemorySegment for CallStackSegment {
    open spec fn static_range_spec(memory: &MachineMemory) -> AddressRange {
        memory.call_segment()
    }

    fn get_static_range(memory: &MachineMemory) -> AddressRange {
        memory.get_call_stack_segment()
    }

    fn static_name() -> &'static str {
        "Call stack"
    }
}

/// The data stack's segment; its lower bound moves as `HERE` advances.
pub struct DataStackSegment {}

impl StaticMemorySegment for DataStackSegment {
    open spec fn static_range_spec(memory: &MachineMemory) -> AddressRange {
        memory.data_segment()
    }

    fn get_static_range(memory: &MachineMemory) -> AddressRange {
        memory.get_data_stack_segment()
    }

    fn static_name() -> &'static str {
        "Data stack"
    }
}

/// The dictionary bytes written so far.
pub struct UsedDictionarySegment {}

impl StaticMemorySegment for UsedDictionarySegment {
    open spec fn static_range_spec(memory: &MachineMemory) -> AddressRange {
        memory.dict_segment()
    }

    fn get_static_range(memory: &MachineMemory) -> AddressRange {
        memory.get_used_dict_segment()
    }

    fn static_name() -> &'static str {
        "Used dictionary space"
    }
}

/// Data space used by neither the dictionary nor the data stack.
pub struct FreeDataSegment {}

impl StaticMemorySegment for FreeDataSegment {
    open spec fn static_range_spec(memory: &MachineMemory) -> AddressRange {
        memory.free_segment()
    }

    fn get_static_range(memory: &MachineMemory) -> AddressRange {
        memory.get_free_data_segment()
    }

    fn static_name() -> &'static str {
        "Free data space"
    }
}

/// The whole data space below the stacks border.
pub struct DataSegment {}

impl StaticMemorySegment for DataSegment {
    open spec fn static_range_spec(memory: &MachineMemory) -> AddressRange {
        AddressRange { start: 0, end: crate::mem::wsub16(memory.data_stack_ptr, 1) }
    }

    fn get_static_range(memory: &MachineMemory) -> AddressRange {
        AddressRange { start: 0, end: memory.data_stack_ptr.wrapping_sub(1) }
    }

    fn static_name() -> &'static str {
        "Data space"
    }
}

} // verus!
