//! The built-in word dispatcher: matches an input word against the fixed
//! table of built-ins and either executes it (interpreter state) or appends
//! bytecode to the dictionary (compiler state). Structured control flow is
//! compiled with forward references carried on the data stack.

use vstd::prelude::*;
use vstd::string::StringSliceAdditionalSpecFns;

use crate::input::Input;
use crate::machine::Machine;
use crate::machine_error::MachineError;
use crate::machine_memory::{get16_ok, push16_ok, MachineMemory, RESERVED_START};
use crate::machine_state::MachineState;
use crate::mem::{
    mem_read16, mem_write16, wadd16, wsub16, Address, AddressRange, MemoryAccessError, MEM_SIZE,
};
use crate::opcodes::{ds_ok, OpCode};
use crate::output::Output;
use crate::machine_memory::WORD_BUFFER_ADDR;
use crate::sized_string::bytes_equal;
use crate::readable_article::{
    article_body_addr, article_name_addr, article_name_len, article_prev, article_valid,
    lookup_chain,
};

verus! {

/// The arena after one opcode byte and one 16-bit operand are appended to
/// the dictionary at `here`: the two values and the advanced `HERE`
/// variable.
pub open spec fn emit_op_u16_mem(m: Seq<u8>, here: u16, code: u8, v: u16) -> Seq<u8> {
    mem_write16(
        mem_write16(
            mem_write16(m.update(here as int, code), RESERVED_START as int, (here + 1) as u16),
            here + 1,
            v,
        ),
        RESERVED_START as int,
        (here + 3) as u16,
    )
}

/// The arena after one opcode byte alone is appended at `here`.
pub open spec fn emit_op_mem(m: Seq<u8>, here: u16, code: u8) -> Seq<u8> {
    mem_write16(m.update(here as int, code), RESERVED_START as int, (here + 1) as u16)
}

/// Both writes of an opcode-plus-operand emission fit the free-data
/// segment.
pub open spec fn emit_op_u16_ok(pre: MachineMemory) -> bool {
    pre.here() + 3 <= pre.data_stack_ptr
}

/// Appends `Literal16` followed by `value` to the dictionary.
pub fn compile_u16_literal<I: Input, O: Output>(machine: &mut Machine<I, O>, value: u16) -> (r:
    Result<(), MemoryAccessError>)
    requires
        old(machine).wf(),
    ensures
        final(machine).wf(),
        final(machine).fuel == old(machine).fuel,
        r is Ok <==> emit_op_u16_ok(old(machine).memory),
        r is Ok ==> final(machine).memory.dict_op_frame(old(machine).memory) && final(machine).memory.here() == old(machine).memory.here() + 3 && final(machine).memory.raw_memory@
            == emit_op_u16_mem(
            old(machine).memory.raw_memory@,
            old(machine).memory.here(),
            OpCode::Literal16.code_spec(),
            value,
        ),
        r is Err ==> *final(machine) == *old(machine),
    {
    match emit_room(&machine.memory, 3) {
        Ok(()) => {},
        Err(e) => {
            return Err(e);
        },
    }
    match machine.memory.dict_write_opcode(OpCode::Literal16) {
        Ok(()) => {},
        Err(e) => {
            return Err(e);
        },
    }
    machine.memory.dict_write_u16(value)
}

/// Checks up front that `count` dictionary bytes fit the free-data
/// segment, so a multi-byte emission is all-or-nothing.
pub(crate) fn emit_room(mem: &MachineMemory, count: u16) -> (r: Result<(), MemoryAccessError>)
    requires
        mem.wf(),
        1 <= count,
    ensures
        r is Ok <==> mem.here() + count <= mem.data_stack_ptr,
        r is Err ==> r matches Err(MemoryAccessError { .. }),
{
    let here = mem.get_dict_ptr();
    let segment = mem.get_free_data_segment();
    if mem.data_stack_ptr == 0 {
        return Err(
            MemoryAccessError {
                access_range: AddressRange { start: here, end: here.wrapping_add(count - 1) },
                segment,
            },
        );
    }
    mem.raw_memory.validate_access(
        AddressRange { start: here, end: here.wrapping_add(count - 1) },
        segment,
    )
}

/// Pushes `value` in interpreter state; compiles it as a `Literal16` in
/// compiler state.
pub fn process_literal<I: Input, O: Output>(machine: &mut Machine<I, O>, value: u16) -> (r: Result<
    (),
    MemoryAccessError,
>)
    requires
        old(machine).wf(),
    ensures
        final(machine).wf(),
        final(machine).fuel == old(machine).fuel,
        literal_step(old(machine).memory, final(machine).memory, value, r),
{
    match machine.memory.get_state() {
        MachineState::Interpreter => machine.memory.data_push_u16(value),
        MachineState::Compiler => compile_u16_literal(machine, value),
    }
}

/// What pushing-or-compiling a 16-bit value does: a push in interpreter
/// state, a `Literal16` emission in compiler state.
pub open spec fn literal_step(
    pre: MachineMemory,
    post: MachineMemory,
    value: u16,
    r: Result<(), MemoryAccessError>,
) -> bool {
    if pre.state() is Interpreter {
        &&& r is Ok <==> push16_ok(pre.data_stack_ptr, pre.data_segment())
        &&& r is Ok ==> post.data_op_frame(pre) && post.data_stack_ptr == wsub16(
            pre.data_stack_ptr,
            2,
        ) && post.raw_memory@ == mem_write16(
            pre.raw_memory@,
            wsub16(pre.data_stack_ptr, 2) as int,
            value,
        )
        &&& r is Err ==> post == pre
    } else {
        &&& r is Ok <==> emit_op_u16_ok(pre)
        &&& r is Ok ==> post.dict_op_frame(pre) && post.here() == pre.here() + 3
            && post.raw_memory@ == emit_op_u16_mem(
            pre.raw_memory@,
            pre.here(),
            OpCode::Literal16.code_spec(),
            value,
        )
        &&& r is Err ==> post == pre
    }
}

/// What a trivial-opcode word does: in interpreter state it executes the
/// opcode in place, in compiler state it appends the opcode byte.
pub open spec fn trivial_step(
    op: OpCode,
    pre: MachineMemory,
    post: MachineMemory,
    r: Result<(), MachineError>,
) -> bool {
    if pre.state() is Interpreter {
        crate::opcodes::simple_step(
            op,
            pre,
            post,
            0,
            match r {
                Ok(()) => Ok(1u16),
                Err(e) => Err(e),
            },
        )
    } else {
        &&& (r is Ok <==> pre.dict_write8_ok())
        &&& (r is Ok ==> post.dict_op_frame(pre) && post.here() == pre.here() + 1
            && post.raw_memory@ == emit_op_mem(pre.raw_memory@, pre.here(), op.code_spec()))
        &&& (r is Err ==> post == pre && r matches Err(MachineError::MemoryAccessError(_)))
    }
}

/// In interpreter state, executes the opcode in place (it provably advances
/// the instruction pointer by exactly one); in compiler state, appends the
/// opcode byte to the dictionary.
pub fn process_trivial_opcode<I: Input, O: Output>(
    machine: &mut Machine<I, O>,
    opcode: OpCode,
) -> (r: Result<(), MachineError>)
    requires
        old(machine).wf(),
        opcode.is_simple(),
    ensures
        final(machine).wf(),
        final(machine).memory.same_layout(old(machine).memory),
        final(machine).fuel == old(machine).fuel,
        trivial_step(opcode, old(machine).memory, final(machine).memory, r),
        r != Err::<(), MachineError>(MachineError::OutOfFuel),
{
    match machine.memory.get_state() {
        MachineState::Interpreter => {
            let next_address = match opcode.execute_simple(machine, 0) {
                Ok(a) => a,
                Err(e) => {
                    return Err(e);
                },
            };
            proof {
                assert(next_address == 1);
            }
        },
        MachineState::Compiler => {
            match machine.memory.dict_write_opcode(opcode) {
                Ok(()) => {},
                Err(e) => {
                    return Err(MachineError::MemoryAccessError(e));
                },
            }
        },
    }

    Ok(())
}

/// What a compile-only opcode word does: an `IllegalMode` error outside
/// compiler state, else the opcode byte is appended.
pub open spec fn compile_only_step(
    op: OpCode,
    pre: MachineMemory,
    post: MachineMemory,
    r: Result<(), MachineError>,
) -> bool {
    if pre.state() is Compiler {
        &&& (r is Ok <==> pre.dict_write8_ok())
        &&& (r is Ok ==> post.dict_op_frame(pre) && post.here() == pre.here() + 1
            && post.raw_memory@ == emit_op_mem(pre.raw_memory@, pre.here(), op.code_spec()))
        &&& (r is Err ==> post == pre && r matches Err(MachineError::MemoryAccessError(_)))
    } else {
        post == pre && r == Err::<(), MachineError>(
            MachineError::IllegalMode {
                expected: crate::machine::MachineMode::Compiler,
                actual: crate::machine::MachineMode::Interpreter,
            },
        )
    }
}

/// Appends the opcode byte in compiler state; an error in interpreter
/// state.
pub fn process_compile_only_opcode<I: Input, O: Output>(
    machine: &mut Machine<I, O>,
    opcode: OpCode,
) -> (r: Result<(), MachineError>)
    requires
        old(machine).wf(),
    ensures
        final(machine).wf(),
        final(machine).fuel == old(machine).fuel,
        compile_only_step(opcode, old(machine).memory, final(machine).memory, r),
        r != Err::<(), MachineError>(MachineError::OutOfFuel),
{
    match machine.expect_state(MachineState::Compiler) {
        Ok(()) => {},
        Err(e) => {
            return Err(e);
        },
    }

    match machine.memory.dict_write_opcode(opcode) {
        Ok(()) => Ok(()),
        Err(e) => Err(MachineError::MemoryAccessError(e)),
    }
}

/// Pushes a constant in interpreter state; compiles it as a `Literal16` in
/// compiler state.
pub fn process_constant<I: Input, O: Output>(machine: &mut Machine<I, O>, value: u16) -> (r: Result<
    (),
    MachineError,
>)
    requires
        old(machine).wf(),
    ensures
        final(machine).wf(),
        final(machine).fuel == old(machine).fuel,
        constant_step(old(machine).memory, final(machine).memory, value, r),
        r != Err::<(), MachineError>(MachineError::OutOfFuel),
{
    match machine.memory.get_state() {
        MachineState::Interpreter => match machine.memory.data_push_u16(value) {
            Ok(()) => Ok(()),
            Err(e) => Err(MachineError::MemoryAccessError(e)),
        },
        MachineState::Compiler => {
            match compile_u16_literal(machine, value) {
                Ok(()) => Ok(()),
                Err(e) => Err(MachineError::MemoryAccessError(e)),
            }
        },
    }
}

/// `literal_step`, with the memory error wrapped as a machine error.
pub open spec fn constant_step(
    pre: MachineMemory,
    post: MachineMemory,
    value: u16,
    r: Result<(), MachineError>,
) -> bool {
    &&& literal_step(
        pre,
        post,
        value,
        match r {
            Ok(()) => Ok(()),
            Err(_) => Err(MemoryAccessError {
                access_range: AddressRange { start: 0, end: 0 },
                segment: AddressRange { start: 0, end: 0 },
            }),
        },
    )
    &&& (r is Err ==> r matches Err(MachineError::MemoryAccessError(_)))
}

/// On a failure after a word was read from the input, everything but the
/// reserved word buffer is as it was: the registers, the reserved
/// variables and every arena byte outside the buffer.
pub open spec fn loaded_or_same(pre: MachineMemory, post: MachineMemory) -> bool {
    &&& post.wf()
    &&& post.same_regs(pre)
    &&& post.here() == pre.here()
    &&& post.state_raw() == pre.state_raw()
    &&& post.base() == pre.base()
    &&& post.current_def_raw() == pre.current_def_raw()
    &&& forall|i: int|
        0 <= i < MEM_SIZE && !(WORD_BUFFER_ADDR <= i <= WORD_BUFFER_ADDR + 255)
            ==> post.raw_memory@[i] == pre.raw_memory@[i]
}

/// What `:` does: in interpreter state with no open definition, it reads a
/// name, appends an article header (previous pointer, name, article-start
/// opcode), remembers the header as the current definition and switches to
/// compiler state.
pub open spec fn colon_step(
    pre: MachineMemory,
    post: MachineMemory,
    r: Result<(), MachineError>,
) -> bool {
    if !(pre.state() is Interpreter) {
        post == pre && r == Err::<(), MachineError>(MachineError::IllegalCompilerState)
    } else if pre.current_def_raw() < pre.here() {
        post == pre && r == Err::<(), MachineError>(MachineError::IllegalCompilerState)
    } else {
        &&& (r is Err ==> loaded_or_same(pre, post))
        &&& r is Ok ==> {
            let len = post.raw_memory@[WORD_BUFFER_ADDR as int];
            &&& 1 <= len
            &&& post.state() is Compiler
            &&& post.current_def_raw() == pre.here()
            &&& post.here() == pre.here() + 4 + len
            &&& post.last_article_ptr == pre.last_article_ptr
            &&& post.data_stack_ptr == pre.data_stack_ptr
            &&& post.call_stack_ptr == pre.call_stack_ptr
            &&& post.base() == pre.base()
            &&& article_prev(post.raw_memory@, pre.here()) == (match pre.last_article_ptr {
                Option::Some(a) => a,
                Option::None => 0xFFFF,
            })
            &&& article_name_len(post.raw_memory@, pre.here()) == len
            &&& crate::readable_article::article_name_bytes(post.raw_memory@, pre.here())
                == crate::sized_string::sized_str_content_bytes(
                post.raw_memory@,
                WORD_BUFFER_ADDR,
            )
            &&& post.raw_memory@[article_body_addr(post.raw_memory@, pre.here()) as int]
                == OpCode::DefaultArticleStart.code_spec()
        }
    }
}

/// What `;` does: in compiler state with an open definition, it appends
/// `Return`, commits the article to the list, clears the current definition
/// and switches back to interpreter state.
pub open spec fn semicolon_step(
    pre: MachineMemory,
    post: MachineMemory,
    r: Result<(), MachineError>,
) -> bool {
    if !(pre.state() is Compiler) {
        post == pre && r == Err::<(), MachineError>(
            MachineError::IllegalMode {
                expected: crate::machine::MachineMode::Compiler,
                actual: crate::machine::MachineMode::Interpreter,
            },
        )
    } else if !(pre.current_def_raw() < pre.here()) {
        post == pre && r == Err::<(), MachineError>(MachineError::IllegalCompilerState)
    } else if !pre.dict_write8_ok() {
        post == pre && r matches Err(MachineError::MemoryAccessError(_))
    } else {
        &&& r is Ok
        &&& post.raw_memory@ == mem_write16(
            mem_write16(
                emit_op_mem(pre.raw_memory@, pre.here(), OpCode::Return.code_spec()),
                RESERVED_START + 2,
                0xFFFF,
            ),
            RESERVED_START + 4,
            0,
        )
        &&& post.last_article_ptr == Some(pre.current_def_raw())
        &&& post.data_stack_ptr == pre.data_stack_ptr
        &&& post.call_stack_ptr == pre.call_stack_ptr
        &&& post.same_layout(pre)
        &&& post.wf()
        &&& post.here() == pre.here() + 1
        &&& post.state() is Interpreter
        &&& post.current_def_raw() == 0xFFFF
        &&& post.base() == pre.base()
    }
}

/// What `IMMEDIATE` does: in interpreter state it takes the most recently
/// committed article, checks that its first body byte is the article-start
/// opcode, and overwrites it with `Noop` so the word runs inline during
/// compilation.
pub open spec fn immediate_step(
    pre: MachineMemory,
    post: MachineMemory,
    r: Result<(), MachineError>,
) -> bool {
    if !(pre.state() is Interpreter) {
        post == pre && r == Err::<(), MachineError>(
            MachineError::IllegalMode {
                expected: crate::machine::MachineMode::Interpreter,
                actual: crate::machine::MachineMode::Compiler,
            },
        )
    } else if !(pre.last_article_ptr matches Some(la) && article_valid(
        pre.raw_memory@,
        la,
        pre.dict_segment(),
    )) {
        post == pre && r == Err::<(), MachineError>(MachineError::NoArticle)
    } else {
        let la = pre.last_article_ptr->0;
        let body = article_body_addr(pre.raw_memory@, la);
        if pre.raw_memory@[body as int] != OpCode::DefaultArticleStart.code_spec() {
            post == pre && r == Err::<(), MachineError>(MachineError::UnexpectedArticleType)
        } else {
            &&& r is Ok
            &&& post.raw_memory@ == pre.raw_memory@.update(body as int, OpCode::Noop.code_spec())
            &&& post.same_regs(pre)
            &&& post.wf()
        }
    }
}

/// What `RECURSE` does: in compiler state with an open definition, it
/// appends a `Call` to the body of the definition being compiled.
pub open spec fn recurse_step(
    pre: MachineMemory,
    post: MachineMemory,
    r: Result<(), MachineError>,
) -> bool {
    if !(pre.state() is Compiler) {
        post == pre && r == Err::<(), MachineError>(
            MachineError::IllegalMode {
                expected: crate::machine::MachineMode::Compiler,
                actual: crate::machine::MachineMode::Interpreter,
            },
        )
    } else if !(pre.current_def_raw() < pre.here()) {
        post == pre && r == Err::<(), MachineError>(MachineError::IllegalCompilerState)
    } else {
        let cur = pre.current_def_raw();
        if !article_valid(pre.raw_memory@, cur, pre.dict_segment()) {
            post == pre && r matches Err(MachineError::MemoryAccessError(_))
        } else {
            let body = article_body_addr(pre.raw_memory@, cur);
            if emit_op_u16_ok(pre) {
                &&& r is Ok
                &&& post.dict_op_frame(pre)
                &&& post.here() == pre.here() + 3
                &&& post.raw_memory@ == emit_op_u16_mem(
                    pre.raw_memory@,
                    pre.here(),
                    OpCode::Call.code_spec(),
                    body,
                )
            } else {
                post == pre && r matches Err(MachineError::MemoryAccessError(_))
            }
        }
    }
}

/// What `POSTPONE` compiles once its word is read (the word sits in the
/// reserved word buffer of `mid`): a `Call` to the body of a matching
/// article, or an `ExecBuiltin` carrying the name itself.
pub open spec fn postpone_dispatch(mid: MachineMemory, post: MachineMemory) -> bool {
    let m = mid.raw_memory@;
    let here = mid.here();
    let len = crate::sized_string::sized_str_len(m, WORD_BUFFER_ADDR);
    let name = crate::sized_string::sized_str_bytes(m, WORD_BUFFER_ADDR);
    let found = match mid.last_article_ptr {
        Option::Some(la) => lookup_chain(m, la, mid.dict_segment(), name),
        Option::None => Ok(Option::<u16>::None),
    };
    match found {
        Ok(Some(a)) => post.dict_op_frame(mid) && post.here() == here + 3 && post.raw_memory@
            == emit_op_u16_mem(m, here, OpCode::Call.code_spec(), article_body_addr(m, a)),
        Ok(None) => {
            &&& post.dict_op_frame(mid)
            &&& post.here() == here + 2 + len
            &&& post.raw_memory@.len() == MEM_SIZE
            &&& post.raw_memory@[here as int] == OpCode::ExecBuiltin.code_spec()
            &&& post.raw_memory@[here + 1] == len
            &&& (forall|j: int|
                0 <= j < len ==> #[trigger] post.raw_memory@[here + 2 + j]
                    == crate::sized_string::sized_str_content_bytes(m, WORD_BUFFER_ADDR)[j])
        },
        Err(_) => false,
    }
}

/// What `POSTPONE` does: reads a word into the reserved buffer, then
/// compiles it per `postpone_dispatch`; on failure only the word buffer
/// may differ from the pre-call arena.
pub open spec fn postpone_step(
    pre: MachineMemory,
    post: MachineMemory,
    r: Result<(), MachineError>,
) -> bool {
    &&& (r is Err ==> loaded_or_same(pre, post))
    &&& (r is Ok ==> exists|mid: MachineMemory|
        #[trigger] loaded_or_same(pre, mid) && postpone_dispatch(mid, post))
}

/// What `IF` does in compiler state: appends `GoToIfZ` with a placeholder
/// operand and pushes the placeholder's address onto the data stack for a
/// later `THEN`/`ELSE` to resolve.
pub open spec fn if_step(pre: MachineMemory, post: MachineMemory, r: Result<
    (),
    MachineError,
>) -> bool {
    if !(pre.state() is Compiler) {
        post == pre && r == Err::<(), MachineError>(
            MachineError::IllegalMode {
                expected: crate::machine::MachineMode::Compiler,
                actual: crate::machine::MachineMode::Interpreter,
            },
        )
    } else {
        let sp = pre.data_stack_ptr;
        let here = pre.here();
        let next = wsub16(sp, 2);
        if emit_op_u16_ok(pre) && (AddressRange { start: next, end: wadd16(next, 1) }).within(
            AddressRange { start: (here + 3) as u16, end: (pre.border() - 1) as u16 },
        ) {
            &&& r is Ok
            &&& post.raw_memory@ == mem_write16(
                emit_op_u16_mem(pre.raw_memory@, here, OpCode::GoToIfZ.code_spec(), 0xDEAD),
                next as int,
                (here + 1) as u16,
            )
            &&& post.data_stack_ptr == next
            &&& post.call_stack_ptr == pre.call_stack_ptr
            &&& post.last_article_ptr == pre.last_article_ptr
            &&& post.same_layout(pre)
            &&& post.wf()
            &&& post.here() == here + 3
            &&& post.state() == pre.state()
            &&& post.base() == pre.base()
            &&& post.current_def_raw() == pre.current_def_raw()
        } else {
            post == pre && r matches Err(MachineError::MemoryAccessError(_))
        }
    }
}

/// What `THEN` does in compiler state: pops a forward-reference address and
/// resolves it to the current `HERE`.
pub open spec fn then_step(pre: MachineMemory, post: MachineMemory, r: Result<
    (),
    MachineError,
>) -> bool {
    if !(pre.state() is Compiler) {
        post == pre && r == Err::<(), MachineError>(
            MachineError::IllegalMode {
                expected: crate::machine::MachineMode::Compiler,
                actual: crate::machine::MachineMode::Interpreter,
            },
        )
    } else {
        let sp = pre.data_stack_ptr;
        if !get16_ok(sp, pre.data_segment()) {
            post == pre && r matches Err(MachineError::MemoryAccessError(_))
        } else {
            let slot = mem_read16(pre.raw_memory@, sp as int);
            if (AddressRange { start: slot, end: wadd16(slot, 1) }).within(pre.dict_segment()) {
                &&& r is Ok
                &&& post.raw_memory@ == mem_write16(pre.raw_memory@, slot as int, pre.here())
                &&& post.data_stack_ptr == wadd16(sp, 2)
                &&& post.call_stack_ptr == pre.call_stack_ptr
                &&& post.last_article_ptr == pre.last_article_ptr
                &&& post.same_layout(pre)
                &&& post.wf()
            } else {
                post == pre && r matches Err(MachineError::MemoryAccessError(_))
            }
        }
    }
}

/// What `BEGIN` does in compiler state: pushes the current `HERE` as the
/// backward jump destination.
pub open spec fn begin_step(pre: MachineMemory, post: MachineMemory, r: Result<
    (),
    MachineError,
>) -> bool {
    if !(pre.state() is Compiler) {
        post == pre && r == Err::<(), MachineError>(
            MachineError::IllegalMode {
                expected: crate::machine::MachineMode::Compiler,
                actual: crate::machine::MachineMode::Interpreter,
            },
        )
    } else {
        if push16_ok(pre.data_stack_ptr, pre.data_segment()) {
            &&& r is Ok
            &&& post.data_op_frame(pre)
            &&& post.data_stack_ptr == wsub16(pre.data_stack_ptr, 2)
            &&& post.raw_memory@ == mem_write16(
                pre.raw_memory@,
                wsub16(pre.data_stack_ptr, 2) as int,
                pre.here(),
            )
        } else {
            post == pre && r matches Err(MachineError::MemoryAccessError(_))
        }
    }
}

/// What `ELSE` does in compiler state: takes the `IF`'s forward reference
/// from the stack, appends `GoTo` with a fresh placeholder, pushes the new
/// placeholder's address and resolves the old one to the current `HERE`.
pub open spec fn else_step(pre: MachineMemory, post: MachineMemory, r: Result<
    (),
    MachineError,
>) -> bool {
    if !(pre.state() is Compiler) {
        post == pre && r == Err::<(), MachineError>(
            MachineError::IllegalMode {
                expected: crate::machine::MachineMode::Compiler,
                actual: crate::machine::MachineMode::Interpreter,
            },
        )
    } else {
        let sp = pre.data_stack_ptr;
        let here = pre.here();
        let m = pre.raw_memory@;
        if !ds_ok(pre, 1, 1) {
            post == pre && r matches Err(MachineError::MemoryAccessError(_))
        } else {
            let old_ref = mem_read16(m, sp as int);
            if emit_op_u16_ok(pre) && (AddressRange {
                start: old_ref,
                end: wadd16(old_ref, 1),
            }).within(AddressRange {
                start: 0,
                end: (here + 3 - 1) as u16,
            }) {
                &&& r is Ok
                &&& post.raw_memory@ == mem_write16(
                    mem_write16(
                        emit_op_u16_mem(m, here, OpCode::GoTo.code_spec(), 0xDEAD),
                        sp as int,
                        (here + 1) as u16,
                    ),
                    old_ref as int,
                    (here + 3) as u16,
                )
                &&& post.data_stack_ptr == sp
                &&& post.call_stack_ptr == pre.call_stack_ptr
                &&& post.last_article_ptr == pre.last_article_ptr
                &&& post.same_layout(pre)
                &&& post.wf()
                &&& post.here() == here + 3
            } else {
                post == pre && r matches Err(MachineError::MemoryAccessError(_))
            }
        }
    }
}

/// What `WHILE` does: the loop destination on top of the stack stays,
/// a `GoToIfZ` with a fresh placeholder is appended, and the placeholder's
/// address is slid beneath the destination.
pub open spec fn while_step(pre: MachineMemory, post: MachineMemory, r: Result<
    (),
    MachineError,
>) -> bool {
    let sp = pre.data_stack_ptr;
    let here = pre.here();
    let m = pre.raw_memory@;
    if !(pre.state() is Compiler) {
        post == pre && r == Err::<(), MachineError>(
            MachineError::IllegalMode {
                expected: crate::machine::MachineMode::Compiler,
                actual: crate::machine::MachineMode::Interpreter,
            },
        )
    } else if !ds_ok(pre, 1, 2) {
        post == pre && r matches Err(MachineError::MemoryAccessError(_))
    } else {
        let dest = mem_read16(m, sp as int);
        if here + 3 <= sp {
            &&& r is Ok
            &&& post.raw_memory@ == mem_write16(
                emit_op_u16_mem(
                    mem_write16(m, wsub16(sp, 2) as int, dest),
                    here,
                    OpCode::GoToIfZ.code_spec(),
                    0xDEAD,
                ),
                sp as int,
                (here + 1) as u16,
            )
            &&& post.data_stack_ptr == wsub16(sp, 2)
            &&& post.call_stack_ptr == pre.call_stack_ptr
            &&& post.last_article_ptr == pre.last_article_ptr
            &&& post.same_layout(pre)
            &&& post.wf()
            &&& post.here() == here + 3
        } else {
            post == pre && r matches Err(MachineError::MemoryAccessError(_))
        }
    }
}

/// What `REPEAT` does: pops the destination and the `WHILE` placeholder,
/// appends `GoTo destination` and resolves the placeholder to the current
/// `HERE`.
pub open spec fn repeat_step(pre: MachineMemory, post: MachineMemory, r: Result<
    (),
    MachineError,
>) -> bool {
    let sp = pre.data_stack_ptr;
    let here = pre.here();
    let m = pre.raw_memory@;
    if !(pre.state() is Compiler) {
        post == pre && r == Err::<(), MachineError>(
            MachineError::IllegalMode {
                expected: crate::machine::MachineMode::Compiler,
                actual: crate::machine::MachineMode::Interpreter,
            },
        )
    } else if !ds_ok(pre, 2, 0) {
        post == pre && r matches Err(MachineError::MemoryAccessError(_))
    } else {
        let dest = mem_read16(m, sp as int);
        let orig = mem_read16(m, wadd16(sp, 2) as int);
        if here + 3 <= sp && (AddressRange { start: orig, end: wadd16(orig, 1) }).within(
            AddressRange { start: 0, end: (here + 3 - 1) as u16 },
        ) {
            &&& r is Ok
            &&& post.raw_memory@ == mem_write16(
                emit_op_u16_mem(m, here, OpCode::GoTo.code_spec(), dest),
                orig as int,
                (here + 3) as u16,
            )
            &&& post.data_stack_ptr == wadd16(sp, 4)
            &&& post.call_stack_ptr == pre.call_stack_ptr
            &&& post.last_article_ptr == pre.last_article_ptr
            &&& post.same_layout(pre)
            &&& post.wf()
            &&& post.here() == here + 3
        } else {
            post == pre && r matches Err(MachineError::MemoryAccessError(_))
        }
    }
}

/// The arena after a `LiteralString` opcode and the sized string `bs` are
/// appended at `HERE`: the opcode byte, the length byte, the content, and
/// `HERE` moved past them. Appending validates a full 256-byte string
/// region, so it succeeds exactly when that region fits the free-data
/// segment.
pub open spec fn string_emitted(pre: MachineMemory, post: MachineMemory, bs: Seq<u8>) -> bool {
    let here = pre.here();
    &&& bs.len() <= 255
    &&& pre.here() + 257 <= pre.data_stack_ptr
    &&& post.dict_op_frame(pre)
    &&& post.here() == here + 2 + bs.len()
    &&& post.raw_memory@.len() == MEM_SIZE
    &&& post.raw_memory@[here as int] == OpCode::LiteralString.code_spec()
    &&& post.raw_memory@[here + 1] == bs.len()
    &&& (forall|j: int| 0 <= j < bs.len() ==> #[trigger] post.raw_memory@[here + 2 + j] == bs[j])
    &&& (forall|k: int|
        0 <= k < MEM_SIZE && !(here <= k <= here + 1 + bs.len()) && !(RESERVED_START <= k
            < RESERVED_START + 2) ==> post.raw_memory@[k] == pre.raw_memory@[k])
}

/// What a compiled string literal leaves behind: a `LiteralString` opcode
/// at the old `HERE`, then the sized string read from the input up to the
/// closing quote; nothing at all when any step fails.
pub open spec fn string_literal_step(
    pre: MachineMemory,
    post: MachineMemory,
    r: Result<(), MachineError>,
) -> bool {
    &&& (r is Ok ==> exists|bs: Seq<u8>| #[trigger] string_emitted(pre, post, bs))
    &&& (r is Err ==> post == pre)
}

/// What `."` in compiler state leaves behind: the string literal followed
/// by an `EmitString` opcode; nothing at all when any step fails.
pub open spec fn print_string_emitted(pre: MachineMemory, post: MachineMemory, bs: Seq<u8>) -> bool {
    let here = pre.here();
    &&& bs.len() <= 255
    &&& pre.here() + 258 <= pre.data_stack_ptr
    &&& post.dict_op_frame(pre)
    &&& post.here() == here + 3 + bs.len()
    &&& post.raw_memory@.len() == MEM_SIZE
    &&& post.raw_memory@[here as int] == OpCode::LiteralString.code_spec()
    &&& post.raw_memory@[here + 1] == bs.len()
    &&& (forall|j: int| 0 <= j < bs.len() ==> #[trigger] post.raw_memory@[here + 2 + j] == bs[j])
    &&& post.raw_memory@[here + 2 + bs.len()] == OpCode::EmitString.code_spec()
    &&& (forall|k: int|
        0 <= k < MEM_SIZE && !(here <= k <= here + 2 + bs.len()) && !(RESERVED_START <= k
            < RESERVED_START + 2) ==> post.raw_memory@[k] == pre.raw_memory@[k])
}

pub open spec fn print_string_step(
    pre: MachineMemory,
    post: MachineMemory,
    r: Result<(), MachineError>,
) -> bool {
    &&& (r is Ok ==> exists|bs: Seq<u8>| #[trigger] print_string_emitted(pre, post, bs))
    &&& (r is Err ==> post == pre)
}

/// What `LITERAL` does in compiler state: pops the top cell and appends it
/// as a `Literal16`.
pub open spec fn literal_word_step(
    pre: MachineMemory,
    post: MachineMemory,
    r: Result<(), MachineError>,
) -> bool {
    if !(pre.state() is Compiler) {
        post == pre && r == Err::<(), MachineError>(
            MachineError::IllegalMode {
                expected: crate::machine::MachineMode::Compiler,
                actual: crate::machine::MachineMode::Interpreter,
            },
        )
    } else {
        let sp = pre.data_stack_ptr;
        let here = pre.here();
        let m = pre.raw_memory@;
        if !get16_ok(sp, pre.data_segment()) {
            post == pre && r matches Err(MachineError::MemoryAccessError(_))
        } else {
            let v = mem_read16(m, sp as int);
            if here + 3 <= wadd16(sp, 2) {
                &&& r is Ok
                &&& post.raw_memory@ == emit_op_u16_mem(m, here, OpCode::Literal16.code_spec(), v)
                &&& post.data_stack_ptr == wadd16(sp, 2)
                &&& post.call_stack_ptr == pre.call_stack_ptr
                &&& post.last_article_ptr == pre.last_article_ptr
                &&& post.same_layout(pre)
                &&& post.wf()
                &&& post.here() == here + 3
            } else {
                post == pre && r matches Err(MachineError::MemoryAccessError(_))
            }
        }
    }
}

/// What an unknown word falls back to: a parse as a numeric literal in the
/// current radix, pushed or compiled on success, `IllegalWord` otherwise.
pub open spec fn fallback_step(
    name: Seq<u8>,
    name_address: Address,
    pre: MachineMemory,
    post: MachineMemory,
    r: Result<(), MachineError>,
) -> bool {
    match crate::literal::parse_literal_spec(name, pre.base() as u32) {
        Some(v) => {
            &&& literal_step(
                pre,
                post,
                v,
                match r {
                    Ok(()) => Ok(()),
                    Err(_) => Err(MemoryAccessError {
                        access_range: AddressRange { start: 0, end: 0 },
                        segment: AddressRange { start: 0, end: 0 },
                    }),
                },
            )
            &&& (r is Err ==> r matches Err(MachineError::MemoryAccessError(_)))
        },
        None => post == pre && r == Err::<(), MachineError>(
            MachineError::IllegalWord(Some(name_address)),
        ),
    }
}

/// What `2DROP` does: two `Drop16` effects in a row; when the first one
/// fails nothing happens, when the second one fails only the first one
/// did.
pub open spec fn twodrop_step(
    pre: MachineMemory,
    post: MachineMemory,
    r: Result<(), MachineError>,
) -> bool {
    ||| (trivial_step(OpCode::Drop16, pre, post, r) && r is Err)
    ||| (exists|mid: MachineMemory|
        #[trigger] trivial_step(OpCode::Drop16, pre, mid, Ok(())) && trivial_step(
            OpCode::Drop16,
            mid,
            post,
            r,
        ))
}

/// The table of words that stand for one simple opcode each.
#[verifier::opaque]
pub open spec fn builtin_opcode_of(name: Seq<u8>) -> Option<OpCode> {
    if name == "OVER".spec_bytes() {
        Some(OpCode::Over16)
    } else if name == "2OVER".spec_bytes() {
        Some(OpCode::Over32)
    } else if name == "SWAP".spec_bytes() {
        Some(OpCode::Swap16)
    } else if name == "2SWAP".spec_bytes() {
        Some(OpCode::Swap32)
    } else if name == "DUP".spec_bytes() {
        Some(OpCode::Dup16)
    } else if name == "2DUP".spec_bytes() {
        Some(OpCode::Dup32)
    } else if name == "DROP".spec_bytes() {
        Some(OpCode::Drop16)
    } else if name == "ROT".spec_bytes() {
        Some(OpCode::Rot16)
    } else if name == "+".spec_bytes() {
        Some(OpCode::Add16)
    } else if name == "-".spec_bytes() {
        Some(OpCode::Sub16)
    } else if name == "*".spec_bytes() {
        Some(OpCode::Mul16)
    } else if name == "/".spec_bytes() {
        Some(OpCode::Div16)
    } else if name == "@".spec_bytes() {
        Some(OpCode::Load16)
    } else if name == "!".spec_bytes() {
        Some(OpCode::Store16)
    } else if name == "C@".spec_bytes() {
        Some(OpCode::Load8)
    } else if name == "C!".spec_bytes() {
        Some(OpCode::Store8)
    } else if name == "2@".spec_bytes() {
        Some(OpCode::Load32)
    } else if name == "2!".spec_bytes() {
        Some(OpCode::Store32)
    } else if name == "<".spec_bytes() {
        Some(OpCode::Lt16)
    } else if name == ">".spec_bytes() {
        Some(OpCode::Gt16)
    } else if name == "=".spec_bytes() {
        Some(OpCode::Eq16)
    } else if name == "INVERT".spec_bytes() {
        Some(OpCode::Invert16)
    } else if name == "AND".spec_bytes() {
        Some(OpCode::And16)
    } else if name == "OR".spec_bytes() {
        Some(OpCode::Or16)
    } else if name == "XOR".spec_bytes() {
        Some(OpCode::Xor16)
    } else if name == "S>D".spec_bytes() {
        Some(OpCode::I16ToI32)
    } else if name == "ABS".spec_bytes() {
        Some(OpCode::Abs16)
    } else if name == "EMIT".spec_bytes() {
        Some(OpCode::Emit)
    } else if name == "TYPE".spec_bytes() {
        Some(OpCode::EmitString)
    } else if name == "<#".spec_bytes() {
        Some(OpCode::PnoInit)
    } else if name == "HOLD".spec_bytes() {
        Some(OpCode::PnoPut)
    } else if name == "#>".spec_bytes() {
        Some(OpCode::PnoFinish)
    } else if name == "#".spec_bytes() {
        Some(OpCode::PnoPutDigit)
    } else {
        None
    }
}

/// The table of compile-only words: each appends one call-stack opcode.
#[verifier::opaque]
pub open spec fn compile_only_opcode_of(name: Seq<u8>) -> Option<OpCode> {
    if name == "R@".spec_bytes() {
        Some(OpCode::CallRead16)
    } else if name == "2R@".spec_bytes() {
        Some(OpCode::CallRead32)
    } else if name == ">R".spec_bytes() {
        Some(OpCode::CallPush16)
    } else if name == "R>".spec_bytes() {
        Some(OpCode::CallPop16)
    } else if name == "2>R".spec_bytes() {
        Some(OpCode::CallPush32)
    } else if name == "2R>".spec_bytes() {
        Some(OpCode::CallPop32)
    } else {
        None
    }
}

/// The constant a constant-like word pushes or compiles.
#[verifier::opaque]
pub open spec fn builtin_constant_of(name: Seq<u8>) -> Option<u16> {
    if name == "TRUE".spec_bytes() {
        Some(0xFFFFu16)
    } else if name == "FALSE".spec_bytes() {
        Some(0u16)
    } else if name == "BASE".spec_bytes() {
        Some((RESERVED_START + 10) as u16)
    } else if name == "HERE".spec_bytes() {
        Some(RESERVED_START)
    } else if name == "STATE".spec_bytes() {
        Some((RESERVED_START + 4) as u16)
    } else if name == "PAD".spec_bytes() {
        Some((RESERVED_START + 512) as u16)
    } else {
        None
    }
}

/// What dispatching one built-in word does to the machine's memory. Words
/// that read input (`:`, `POSTPONE`, `S"`, `."`, `(`) or write output are
/// described by what they leave in memory; the bytes they consumed or wrote
/// are not modelled here.
pub open spec fn builtin_step(
    name: Seq<u8>,
    name_address: Address,
    pre: MachineMemory,
    post: MachineMemory,
    r: Result<(), MachineError>,
) -> bool {
    if name == ":".spec_bytes() {
        colon_step(pre, post, r)
    } else if name == ";".spec_bytes() {
        semicolon_step(pre, post, r)
    } else if name == "RECURSE".spec_bytes() {
        recurse_step(pre, post, r)
    } else if name == "IMMEDIATE".spec_bytes() {
        immediate_step(pre, post, r)
    } else if name == "IF".spec_bytes() {
        if_step(pre, post, r)
    } else if name == "ELSE".spec_bytes() {
        else_step(pre, post, r)
    } else if name == "THEN".spec_bytes() {
        then_step(pre, post, r)
    } else if name == "BEGIN".spec_bytes() {
        begin_step(pre, post, r)
    } else if name == "WHILE".spec_bytes() {
        while_step(pre, post, r)
    } else if name == "REPEAT".spec_bytes() {
        repeat_step(pre, post, r)
    } else if name == "EXIT".spec_bytes() {
        compile_only_step(OpCode::Return, pre, post, r)
    } else if name == "POSTPONE".spec_bytes() {
        postpone_step(pre, post, r)
    } else if name == "(".spec_bytes() {
        post == pre && (r is Ok || r == Err::<(), MachineError>(MachineError::UnexpectedInputEOF)
            || r == Err::<(), MachineError>(MachineError::OutOfFuel) || r matches Err(
            MachineError::InputError(_),
        ))
    } else if name == "[".spec_bytes() {
        if pre.state() is Compiler {
            r is Ok && post.same_regs(pre) && post.wf() && post.state() is Interpreter
                && post.here() == pre.here() && post.base() == pre.base()
                && post.current_def_raw() == pre.current_def_raw() && post.raw_memory@
                == mem_write16(pre.raw_memory@, RESERVED_START + 4, 0)
        } else {
            post == pre && r == Err::<(), MachineError>(
                MachineError::IllegalMode {
                    expected: crate::machine::MachineMode::Compiler,
                    actual: crate::machine::MachineMode::Interpreter,
                },
            )
        }
    } else if name == "]".spec_bytes() {
        if pre.state() is Interpreter {
            r is Ok && post.same_regs(pre) && post.wf() && post.state() is Compiler
                && post.here() == pre.here() && post.base() == pre.base()
                && post.current_def_raw() == pre.current_def_raw() && post.raw_memory@
                == mem_write16(pre.raw_memory@, RESERVED_START + 4, 0xFFFF)
        } else {
            post == pre && r == Err::<(), MachineError>(
                MachineError::IllegalMode {
                    expected: crate::machine::MachineMode::Interpreter,
                    actual: crate::machine::MachineMode::Compiler,
                },
            )
        }
    } else if builtin_constant_of(name) is Some {
        constant_step(pre, post, builtin_constant_of(name)->0, r)
    } else if name == "2DROP".spec_bytes() {
        twodrop_step(pre, post, r)
    } else if builtin_opcode_of(name) is Some {
        trivial_step(builtin_opcode_of(name)->0, pre, post, r)
    } else if compile_only_opcode_of(name) is Some {
        compile_only_step(compile_only_opcode_of(name)->0, pre, post, r)
    } else if name == "S\"".spec_bytes() {
        if pre.state() is Compiler {
            string_literal_step(pre, post, r)
        } else {
            post == pre && r == Err::<(), MachineError>(
                MachineError::IllegalMode {
                    expected: crate::machine::MachineMode::Compiler,
                    actual: crate::machine::MachineMode::Interpreter,
                },
            )
        }
    } else if name == "LITERAL".spec_bytes() {
        literal_word_step(pre, post, r)
    } else if name == ".\"".spec_bytes() {
        if pre.state() is Compiler {
            print_string_step(pre, post, r)
        } else {
            post == pre && (r is Ok || r == Err::<(), MachineError>(
                MachineError::UnexpectedInputEOF,
            ) || r == Err::<(), MachineError>(MachineError::OutOfFuel) || r matches Err(
                MachineError::InputError(_),
            ) || r matches Err(MachineError::OutputError(_)))
        }
    } else {
        fallback_step(name, name_address, pre, post, r)
    }
}

/// Handles `:`.
#[verifier::rlimit(100)]
#[verifier::spinoff_prover]
fn colon_word<I: Input, O: Output>(machine: &mut Machine<I, O>) -> (r: Result<(), MachineError>)
    requires
        old(machine).wf(),
    ensures
        final(machine).wf(),
        final(machine).memory.same_layout(old(machine).memory),
        final(machine).fuel <= old(machine).fuel,
        colon_step(old(machine).memory, final(machine).memory, r),
        r == Err::<(), MachineError>(MachineError::OutOfFuel) ==> final(machine).fuel == 0,
{
    match machine.memory.get_state() {
        MachineState::Compiler => {
            return Err(MachineError::IllegalCompilerState);
        },
        MachineState::Interpreter => {},
    }

    if machine.memory.get_current_word().is_some() {
        return Err(MachineError::IllegalCompilerState);
    }

    let name_buffer_address = match machine.memory.read_input_word(
        &mut machine.input,
        &mut machine.fuel,
    ) {
        Ok(Some(a)) => a,
        Ok(None) => {
            return Err(MachineError::UnexpectedInputEOF);
        },
        Err(e) => {
            return Err(MachineError::InputError(e));
        },
    };

    let article_start_address = machine.memory.get_dict_ptr();
    let previous_article_address = match machine.memory.last_article_ptr {
        Some(a) => a,
        None => 0xFFFFu16,
    };

    let name_length = machine.memory.raw_memory.read_u8(name_buffer_address);
    match emit_room(&machine.memory, 4 + name_length as u16) {
        Ok(()) => {},
        Err(e) => {
            return Err(MachineError::MemoryAccessError(e));
        },
    }

    match machine.memory.dict_write_u16(previous_article_address) {
        Ok(()) => {},
        Err(e) => {
            return Err(MachineError::MemoryAccessError(e));
        },
    }
    proof {
        crate::machine_memory::lemma_write16_read16(
            old(machine).memory.raw_memory@,
            article_start_address as int,
            previous_article_address,
        );
        assert(mem_read16(machine.memory.raw_memory@, article_start_address as int)
            == previous_article_address);
    }
    let ghost len_g = crate::sized_string::sized_str_len(
        machine.memory.raw_memory@,
        name_buffer_address,
    );
    let ghost name_g = crate::sized_string::sized_str_content_bytes(
        machine.memory.raw_memory@,
        name_buffer_address,
    );
    match machine.memory.dict_write_sized_string(name_buffer_address) {
        Ok(()) => {},
        Err(e) => {
            return Err(MachineError::MemoryAccessError(e));
        },
    }
    proof {
        assert(mem_read16(machine.memory.raw_memory@, article_start_address as int)
            == previous_article_address);
        assert(machine.memory.raw_memory@[article_start_address + 2] == len_g);
        assert(machine.memory.here() == article_start_address + 3 + len_g);
        assert forall|i: int| 0 <= i < len_g implies #[trigger] machine.memory.raw_memory@[
            article_start_address + 3 + i
        ] == name_g[i] by {
            assert(machine.memory.raw_memory@[article_start_address + 2 + 1 + i] == name_g[i]);
        }
        assert forall|i: int| 0 <= i < len_g implies #[trigger] machine.memory.raw_memory@[
            WORD_BUFFER_ADDR + 1 + i
        ] == name_g[i] by {}
    }
    match machine.memory.dict_write_opcode(OpCode::DefaultArticleStart) {
        Ok(()) => {},
        Err(e) => {
            return Err(MachineError::MemoryAccessError(e));
        },
    }
    proof {
        assert(mem_read16(machine.memory.raw_memory@, article_start_address as int)
            == previous_article_address);
        assert(machine.memory.raw_memory@[article_start_address + 2] == len_g);
        assert(machine.memory.raw_memory@[article_start_address + 3 + len_g]
            == OpCode::DefaultArticleStart.code_spec());
        assert(machine.memory.here() == article_start_address + 4 + len_g);
        assert(machine.memory.raw_memory@[WORD_BUFFER_ADDR as int] == len_g);
    }

    machine.memory.set_current_word(Some(article_start_address));
    machine.memory.set_state(MachineState::Compiler);

    proof {
        let post = machine.memory;
        let m = post.raw_memory@;
        assert(mem_read16(m, article_start_address as int) == previous_article_address);
        assert(m[article_start_address + 2] == len_g);
        assert(m[article_start_address + 3 + len_g] == OpCode::DefaultArticleStart.code_spec());
        assert(article_name_addr(article_start_address) == article_start_address + 2);
        assert(article_name_len(m, article_start_address) == len_g);
        assert(article_body_addr(m, article_start_address) == article_start_address + 3 + len_g);
        assert(m[WORD_BUFFER_ADDR as int] == len_g);
        assert forall|i: int| 0 <= i < len_g implies #[trigger] m[article_start_address + 3 + i]
            == name_g[i] by {}
        assert forall|i: int| 0 <= i < len_g implies #[trigger] m[WORD_BUFFER_ADDR + 1 + i]
            == name_g[i] by {}
        assert(crate::readable_article::article_name_bytes(m, article_start_address)
            =~= crate::sized_string::sized_str_content_bytes(m, WORD_BUFFER_ADDR));
    }

    Ok(())
}

/// Handles `;`.
fn semicolon_word<I: Input, O: Output>(machine: &mut Machine<I, O>) -> (r: Result<
    (),
    MachineError,
>)
    requires
        old(machine).wf(),
    ensures
        final(machine).wf(),
        final(machine).memory.same_layout(old(machine).memory),
        final(machine).fuel == old(machine).fuel,
        semicolon_step(old(machine).memory, final(machine).memory, r),
{
    match machine.expect_state(MachineState::Compiler) {
        Ok(()) => {},
        Err(e) => {
            return Err(e);
        },
    }
    let article_start_address = match machine.memory.get_current_word() {
        Some(a) => a,
        None => {
            return Err(MachineError::IllegalCompilerState);
        },
    };

    match machine.memory.dict_write_opcode(OpCode::Return) {
        Ok(()) => {},
        Err(e) => {
            return Err(MachineError::MemoryAccessError(e));
        },
    }

    machine.memory.last_article_ptr = Some(article_start_address);
    machine.memory.set_current_word(None);
    machine.memory.set_state(MachineState::Interpreter);

    Ok(())
}

/// Handles `RECURSE`.
fn recurse_word<I: Input, O: Output>(machine: &mut Machine<I, O>) -> (r: Result<(), MachineError>)
    requires
        old(machine).wf(),
    ensures
        final(machine).wf(),
        final(machine).memory.same_layout(old(machine).memory),
        final(machine).fuel == old(machine).fuel,
        recurse_step(old(machine).memory, final(machine).memory, r),
{
    match machine.expect_state(MachineState::Compiler) {
        Ok(()) => {},
        Err(e) => {
            return Err(e);
        },
    }
    let article_header_address = match machine.memory.get_current_word() {
        Some(a) => a,
        None => {
            return Err(MachineError::IllegalCompilerState);
        },
    };

    let seg = machine.memory.get_used_dict_segment();
    let article_body_address = match crate::readable_article::ReadableArticle::new(
        &machine.memory.raw_memory,
        article_header_address,
        seg,
    ) {
        Ok(article) => article.body_address(),
        Err(e) => {
            return Err(MachineError::MemoryAccessError(e));
        },
    };

    match emit_room(&machine.memory, 3) {
        Ok(()) => {},
        Err(e) => {
            return Err(MachineError::MemoryAccessError(e));
        },
    }
    match machine.memory.dict_write_opcode(OpCode::Call) {
        Ok(()) => {},
        Err(e) => {
            return Err(MachineError::MemoryAccessError(e));
        },
    }
    match machine.memory.dict_write_u16(article_body_address) {
        Ok(()) => Ok(()),
        Err(e) => Err(MachineError::MemoryAccessError(e)),
    }
}

/// Handles `IMMEDIATE`.
fn immediate_word<I: Input, O: Output>(machine: &mut Machine<I, O>) -> (r: Result<(), MachineError>)
    requires
        old(machine).wf(),
    ensures
        final(machine).wf(),
        final(machine).memory.same_layout(old(machine).memory),
        final(machine).fuel == old(machine).fuel,
        immediate_step(old(machine).memory, final(machine).memory, r),
{
    match machine.expect_state(MachineState::Interpreter) {
        Ok(()) => {},
        Err(e) => {
            return Err(e);
        },
    }

    let seg = machine.memory.get_used_dict_segment();
    let body_address = match machine.memory.last_article_ptr {
        None => {
            return Err(MachineError::NoArticle);
        },
        Some(la) => match crate::readable_article::ReadableArticle::new(
            &machine.memory.raw_memory,
            la,
            seg,
        ) {
            Ok(article) => article.body_address(),
            Err(_) => {
                return Err(MachineError::NoArticle);
            },
        },
    };

    if machine.memory.raw_memory.read_u8(body_address)
        != OpCode::DefaultArticleStart.int_value() {
        return Err(MachineError::UnexpectedArticleType);
    }

    machine.memory.raw_memory.write_u8(body_address, OpCode::Noop.int_value());

    Ok(())
}

/// Handles `IF`.
fn if_word<I: Input, O: Output>(machine: &mut Machine<I, O>) -> (r: Result<(), MachineError>)
    requires
        old(machine).wf(),
    ensures
        final(machine).wf(),
        final(machine).memory.same_layout(old(machine).memory),
        final(machine).fuel == old(machine).fuel,
        if_step(old(machine).memory, final(machine).memory, r),
{
    match machine.expect_state(MachineState::Compiler) {
        Ok(()) => {},
        Err(e) => {
            return Err(e);
        },
    }

    match emit_room(&machine.memory, 3) {
        Ok(()) => {},
        Err(e) => {
            return Err(MachineError::MemoryAccessError(e));
        },
    }

    let here = machine.memory.get_dict_ptr();
    let sp = machine.memory.data_stack_ptr;
    let next = sp.wrapping_sub(2);
    let moved_segment = AddressRange {
        start: here + 3,
        end: machine.memory.stacks_border - 1,
    };
    match machine.memory.raw_memory.validate_access(
        AddressRange { start: next, end: next.wrapping_add(1) },
        moved_segment,
    ) {
        Ok(()) => {},
        Err(e) => {
            return Err(MachineError::MemoryAccessError(e));
        },
    }

    match machine.memory.dict_write_opcode(OpCode::GoToIfZ) {
        Ok(()) => {},
        Err(e) => {
            return Err(MachineError::MemoryAccessError(e));
        },
    }
    let forward_ref = match machine.memory.create_forward_reference() {
        Ok(a) => a,
        Err(e) => {
            return Err(MachineError::MemoryAccessError(e));
        },
    };
    match machine.memory.data_push_u16(forward_ref) {
        Ok(()) => Ok(()),
        Err(e) => Err(MachineError::MemoryAccessError(e)),
    }
}

/// Handles `THEN`.
fn then_word<I: Input, O: Output>(machine: &mut Machine<I, O>) -> (r: Result<(), MachineError>)
    requires
        old(machine).wf(),
    ensures
        final(machine).wf(),
        final(machine).memory.same_layout(old(machine).memory),
        final(machine).fuel == old(machine).fuel,
        then_step(old(machine).memory, final(machine).memory, r),
{
    match machine.expect_state(MachineState::Compiler) {
        Ok(()) => {},
        Err(e) => {
            return Err(e);
        },
    }

    let dseg = machine.memory.get_data_stack_segment();
    let sp = machine.memory.data_stack_ptr;
    match machine.memory.raw_memory.validate_access(
        AddressRange { start: sp, end: sp.wrapping_add(1) },
        dseg,
    ) {
        Ok(()) => {},
        Err(e) => {
            return Err(MachineError::MemoryAccessError(e));
        },
    }
    let reference = machine.memory.raw_memory.read_u16(sp);
    match machine.memory.resolve_forward_reference(reference) {
        Ok(()) => {},
        Err(e) => {
            return Err(MachineError::MemoryAccessError(e));
        },
    }
    machine.memory.data_stack_ptr = sp.wrapping_add(2);
    Ok(())
}

/// Handles `BEGIN`.
fn begin_word<I: Input, O: Output>(machine: &mut Machine<I, O>) -> (r: Result<(), MachineError>)
    requires
        old(machine).wf(),
    ensures
        final(machine).wf(),
        final(machine).memory.same_layout(old(machine).memory),
        final(machine).fuel == old(machine).fuel,
        begin_step(old(machine).memory, final(machine).memory, r),
{
    match machine.expect_state(MachineState::Compiler) {
        Ok(()) => {},
        Err(e) => {
            return Err(e);
        },
    }

    let here = machine.memory.get_dict_ptr();
    match machine.memory.data_push_u16(here) {
        Ok(()) => Ok(()),
        Err(e) => Err(MachineError::MemoryAccessError(e)),
    }
}

/// Handles `ELSE`.
fn else_word<I: Input, O: Output>(machine: &mut Machine<I, O>) -> (r: Result<(), MachineError>)
    requires
        old(machine).wf(),
    ensures
        final(machine).wf(),
        final(machine).memory.same_layout(old(machine).memory),
        final(machine).fuel == old(machine).fuel,
        else_step(old(machine).memory, final(machine).memory, r),
{
    match machine.expect_state(MachineState::Compiler) {
        Ok(()) => {},
        Err(e) => {
            return Err(e);
        },
    }

    match validate_ds_effect(&machine.memory, 1, 1) {
        Ok(()) => {},
        Err(e) => {
            return Err(e);
        },
    }
    let sp = machine.memory.data_stack_ptr;
    let old_ref = machine.memory.raw_memory.read_u16(sp);

    match emit_room(&machine.memory, 3) {
        Ok(()) => {},
        Err(e) => {
            return Err(MachineError::MemoryAccessError(e));
        },
    }
    let here = machine.memory.get_dict_ptr();
    let resolved_segment = AddressRange { start: 0, end: here + 2 };
    match machine.memory.raw_memory.validate_access(
        AddressRange { start: old_ref, end: old_ref.wrapping_add(1) },
        resolved_segment,
    ) {
        Ok(()) => {},
        Err(e) => {
            return Err(MachineError::MemoryAccessError(e));
        },
    }

    match machine.memory.dict_write_opcode(OpCode::GoTo) {
        Ok(()) => {},
        Err(e) => {
            return Err(MachineError::MemoryAccessError(e));
        },
    }
    let new_ref = match machine.memory.create_forward_reference() {
        Ok(a) => a,
        Err(e) => {
            return Err(MachineError::MemoryAccessError(e));
        },
    };
    machine.memory.raw_memory.write_u16(sp, new_ref);
    match machine.memory.resolve_forward_reference(old_ref) {
        Ok(()) => Ok(()),
        Err(e) => Err(MachineError::MemoryAccessError(e)),
    }
}

/// Handles `WHILE`.
fn while_word<I: Input, O: Output>(machine: &mut Machine<I, O>) -> (r: Result<(), MachineError>)
    requires
        old(machine).wf(),
    ensures
        final(machine).wf(),
        final(machine).memory.same_layout(old(machine).memory),
        final(machine).fuel == old(machine).fuel,
        while_step(old(machine).memory, final(machine).memory, r),
{
    match machine.expect_state(MachineState::Compiler) {
        Ok(()) => {},
        Err(e) => {
            return Err(e);
        },
    }
    match validate_ds_effect(&machine.memory, 1, 2) {
        Ok(()) => {},
        Err(e) => {
            return Err(e);
        },
    }
    match emit_room(&machine.memory, 3) {
        Ok(()) => {},
        Err(e) => {
            return Err(MachineError::MemoryAccessError(e));
        },
    }
    let sp = machine.memory.data_stack_ptr;
    let dest = machine.memory.raw_memory.read_u16(sp);
    machine.memory.raw_memory.write_u16(sp.wrapping_sub(2), dest);

    match machine.memory.dict_write_opcode(OpCode::GoToIfZ) {
        Ok(()) => {},
        Err(e) => {
            return Err(MachineError::MemoryAccessError(e));
        },
    }
    let orig = match machine.memory.create_forward_reference() {
        Ok(a) => a,
        Err(e) => {
            return Err(MachineError::MemoryAccessError(e));
        },
    };
    machine.memory.raw_memory.write_u16(sp, orig);
    machine.memory.data_stack_ptr = sp.wrapping_sub(2);
    Ok(())
}

/// Handles `REPEAT`.
fn repeat_word<I: Input, O: Output>(machine: &mut Machine<I, O>) -> (r: Result<(), MachineError>)
    requires
        old(machine).wf(),
    ensures
        final(machine).wf(),
        final(machine).memory.same_layout(old(machine).memory),
        final(machine).fuel == old(machine).fuel,
        repeat_step(old(machine).memory, final(machine).memory, r),
{
    match machine.expect_state(MachineState::Compiler) {
        Ok(()) => {},
        Err(e) => {
            return Err(e);
        },
    }
    match validate_ds_effect(&machine.memory, 2, 0) {
        Ok(()) => {},
        Err(e) => {
            return Err(e);
        },
    }
    let sp = machine.memory.data_stack_ptr;
    let dest = machine.memory.raw_memory.read_u16(sp);
    let orig = machine.memory.raw_memory.read_u16(sp.wrapping_add(2));

    match emit_room(&machine.memory, 3) {
        Ok(()) => {},
        Err(e) => {
            return Err(MachineError::MemoryAccessError(e));
        },
    }
    let here = machine.memory.get_dict_ptr();
    let resolved_segment = AddressRange { start: 0, end: here + 2 };
    match machine.memory.raw_memory.validate_access(
        AddressRange { start: orig, end: orig.wrapping_add(1) },
        resolved_segment,
    ) {
        Ok(()) => {},
        Err(e) => {
            return Err(MachineError::MemoryAccessError(e));
        },
    }

    match machine.memory.dict_write_opcode(OpCode::GoTo) {
        Ok(()) => {},
        Err(e) => {
            return Err(MachineError::MemoryAccessError(e));
        },
    }
    match machine.memory.dict_write_u16(dest) {
        Ok(()) => {},
        Err(e) => {
            return Err(MachineError::MemoryAccessError(e));
        },
    }
    match machine.memory.resolve_forward_reference(orig) {
        Ok(()) => {},
        Err(e) => {
            return Err(MachineError::MemoryAccessError(e));
        },
    }
    machine.memory.data_stack_ptr = sp.wrapping_add(4);
    Ok(())
}

/// Validates a data-stack effect, wrapping the error for the dispatcher.
fn validate_ds_effect(mem: &MachineMemory, in_w: u16, out_w: u16) -> (r: Result<(), MachineError>)
    requires
        mem.wf(),
    ensures
        r is Ok <==> ds_ok(*mem, in_w, out_w),
        r is Err ==> r matches Err(MachineError::MemoryAccessError(_)),
{
    let shape = crate::stack_effect::EffectShape { input_words: in_w, output_words: out_w };
    let seg = mem.get_data_stack_segment();
    match crate::stack_effect::StackEffect::validate_access(
        &shape,
        &mem.raw_memory,
        mem.data_stack_ptr,
        seg,
    ) {
        Ok(()) => Ok(()),
        Err(e) => Err(MachineError::MemoryAccessError(e)),
    }
}

/// Reads input bytes up to the closing `"` into a fresh buffer, touching
/// neither the arena nor the registers.
fn read_quoted<I: Input, O: Output>(machine: &mut Machine<I, O>) -> (r: Result<
    Vec<u8>,
    MachineError,
>)
    requires
        old(machine).wf(),
    ensures
        final(machine).wf(),
        final(machine).memory == old(machine).memory,
        final(machine).fuel <= old(machine).fuel,
        r matches Ok(bs) ==> bs@ == crate::input::upto_byte(old(machine).input.remaining(), 0x22)
            && crate::input::has_byte(old(machine).input.remaining(), 0x22) && final(machine).input.remaining() == old(machine).input.remaining().skip(bs@.len() + 1int),
        r == Err::<Vec<u8>, MachineError>(MachineError::UnexpectedInputEOF)
            ==> !crate::input::has_byte(old(machine).input.remaining(), 0x22),
        r == Err::<Vec<u8>, MachineError>(MachineError::OutOfFuel) ==> final(machine).fuel == 0,
        r is Err ==> r == Err::<Vec<u8>, MachineError>(MachineError::UnexpectedInputEOF) || r
            == Err::<Vec<u8>, MachineError>(MachineError::OutOfFuel) || r matches Err(
            MachineError::InputError(_),
        ),
{
    let mut buffer: Vec<u8> = Vec::new();
    let ghost rem0 = machine.input.remaining();

    loop
        invariant
            machine.wf(),
            machine.memory == old(machine).memory,
            machine.fuel <= old(machine).fuel,
            rem0 =~= buffer@ + machine.input.remaining(),
            forall|j: int| 0 <= j < buffer@.len() ==> #[trigger] buffer@[j] != 0x22,
        decreases machine.fuel,
    {
        if machine.fuel == 0 {
            return Err(MachineError::OutOfFuel);
        }
        machine.fuel = machine.fuel - 1;

        let ghost rem_before = machine.input.remaining();
        let ch = match machine.input.read() {
            Ok(Some(c)) => c,
            Ok(None) => {
                proof {
                    assert(rem0 =~= buffer@);
                }
                return Err(MachineError::UnexpectedInputEOF);
            },
            Err(e) => {
                return Err(MachineError::InputError(e));
            },
        };

        if ch == 0x22 {
            proof {
                crate::input::lemma_upto_byte_prepend(buffer@, rem_before, 0x22);
                assert(crate::input::upto_byte(rem_before, 0x22) =~= Seq::<u8>::empty());
                assert(crate::input::upto_byte(rem0, 0x22) =~= buffer@);
                assert(rem0[buffer@.len() as int] == 0x22);
                assert(crate::input::has_byte(rem0, 0x22));
                assert(machine.input.remaining() =~= rem0.skip(buffer@.len() + 1int));
            }
            return Ok(buffer);
        }
        proof {
            assert(buffer@.push(ch) + rem_before.drop_first() =~= buffer@ + rem_before);
        }
        buffer.push(ch);
    }
}

/// Appends a `LiteralString` opcode followed by the sized string `bs`,
/// all or nothing: the whole 256-byte string region is validated first.
fn emit_literal_string<I: Input, O: Output>(machine: &mut Machine<I, O>, bs: &Vec<u8>) -> (r:
    Result<(), MachineError>)
    requires
        old(machine).wf(),
    ensures
        final(machine).wf(),
        final(machine).fuel == old(machine).fuel,
        final(machine).input == old(machine).input,
        r is Ok <==> bs@.len() <= 255 && old(machine).memory.here() + 257 <= old(machine).memory.data_stack_ptr,
        r is Ok ==> string_emitted(old(machine).memory, final(machine).memory, bs@),
        r is Err ==> *final(machine) == *old(machine) && r matches Err(
            MachineError::MemoryAccessError(_),
        ),
{
    let here = machine.memory.get_dict_ptr();
    if bs.len() > 255 {
        return Err(
            MachineError::MemoryAccessError(
                MemoryAccessError {
                    access_range: AddressRange { start: here, end: here.wrapping_add(1) },
                    segment: machine.memory.get_free_data_segment(),
                },
            ),
        );
    }
    match emit_room(&machine.memory, 257) {
        Ok(()) => {},
        Err(e) => {
            return Err(MachineError::MemoryAccessError(e));
        },
    }

    match machine.memory.dict_write_opcode(OpCode::LiteralString) {
        Ok(()) => {},
        Err(e) => {
            return Err(MachineError::MemoryAccessError(e));
        },
    }

    let start_address = machine.memory.get_dict_ptr();
    let safe_range = machine.memory.get_free_data_segment();
    let mut writer = match crate::sized_string::SizedStringWriter::new(
        &machine.memory.raw_memory,
        start_address,
        255,
        safe_range,
    ) {
        Ok(w) => w,
        Err(e) => {
            return Err(MachineError::MemoryAccessError(e));
        },
    };

    match writer.append_slice(&mut machine.memory.raw_memory, bs.as_slice()) {
        Ok(()) => {},
        Err(e) => {
            return Err(MachineError::MemoryAccessError(e));
        },
    }

    let end_address = {
        let s = writer.finish(&mut machine.memory.raw_memory);
        s.full_range().end
    };
    machine.memory.set_dict_ptr(end_address.wrapping_add(1));

    proof {
        let here0 = old(machine).memory.here();
        let m2 = machine.memory.raw_memory@;
        assert(m2[here0 as int] == OpCode::LiteralString.code_spec());
        assert(m2[here0 + 1] == bs@.len());
        assert forall|j: int| 0 <= j < bs@.len() implies #[trigger] m2[here0 + 2 + j]
            == bs@[j] by {
            assert(m2[start_address + 1 + j] == bs@[j]);
        }
    }

    Ok(())
}

/// Appends a `LiteralString` opcode and a sized string read from the input
/// up to the closing `"`, then advances `HERE` past it. Nothing is written
/// unless everything fits.
pub fn compile_string_literal<I: Input, O: Output>(machine: &mut Machine<I, O>) -> (r: Result<
    (),
    MachineError,
>)
    requires
        old(machine).wf(),
    ensures
        final(machine).wf(),
        final(machine).memory.same_layout(old(machine).memory),
        final(machine).fuel <= old(machine).fuel,
        string_literal_step(old(machine).memory, final(machine).memory, r),
        r is Ok ==> ({
            let bs = crate::input::upto_byte(old(machine).input.remaining(), 0x22);
            &&& crate::input::has_byte(old(machine).input.remaining(), 0x22)
            &&& string_emitted(old(machine).memory, final(machine).memory, bs)
            &&& final(machine).input.remaining() == old(machine).input.remaining().skip(
                bs.len() + 1int,
            )
        }),
        r == Err::<(), MachineError>(MachineError::UnexpectedInputEOF) ==> !crate::input::has_byte(
            old(machine).input.remaining(),
            0x22,
        ),
        r == Err::<(), MachineError>(MachineError::OutOfFuel) ==> final(machine).fuel == 0,
        r matches Err(MachineError::MemoryAccessError(_)) ==> crate::input::upto_byte(
            old(machine).input.remaining(),
            0x22,
        ).len() > 255 || old(machine).memory.here() + 257 > old(machine).memory.data_stack_ptr,
{
    let bs = match read_quoted(machine) {
        Ok(bs) => bs,
        Err(e) => {
            return Err(e);
        },
    };

    emit_literal_string(machine, &bs)
}

/// Handles `."` in compiler state: the string literal followed by an
/// `EmitString` opcode, all or nothing.
fn print_string_word<I: Input, O: Output>(machine: &mut Machine<I, O>) -> (r: Result<
    (),
    MachineError,
>)
    requires
        old(machine).wf(),
    ensures
        final(machine).wf(),
        final(machine).memory.same_layout(old(machine).memory),
        final(machine).fuel <= old(machine).fuel,
        print_string_step(old(machine).memory, final(machine).memory, r),
        r == Err::<(), MachineError>(MachineError::OutOfFuel) ==> final(machine).fuel == 0,
{
    let bs = match read_quoted(machine) {
        Ok(bs) => bs,
        Err(e) => {
            return Err(e);
        },
    };

    let here = machine.memory.get_dict_ptr();
    if bs.len() > 255 {
        return Err(
            MachineError::MemoryAccessError(
                MemoryAccessError {
                    access_range: AddressRange { start: here, end: here.wrapping_add(1) },
                    segment: machine.memory.get_free_data_segment(),
                },
            ),
        );
    }
    match emit_room(&machine.memory, 258) {
        Ok(()) => {},
        Err(e) => {
            return Err(MachineError::MemoryAccessError(e));
        },
    }

    match emit_literal_string(machine, &bs) {
        Ok(()) => {},
        Err(e) => {
            return Err(e);
        },
    }
    let ghost mid = machine.memory;
    match machine.memory.dict_write_opcode(OpCode::EmitString) {
        Ok(()) => {},
        Err(e) => {
            return Err(MachineError::MemoryAccessError(e));
        },
    }

    proof {
        let pre_m = old(machine).memory;
        let here0 = pre_m.here();
        let m3 = machine.memory.raw_memory@;
        assert(m3[here0 as int] == OpCode::LiteralString.code_spec());
        assert(m3[here0 + 1] == bs@.len());
        assert forall|j: int| 0 <= j < bs@.len() implies #[trigger] m3[here0 + 2 + j]
            == bs@[j] by {
            assert(mid.raw_memory@[here0 + 2 + j] == bs@[j]);
        }
        assert(m3[here0 + 2 + bs@.len()] == OpCode::EmitString.code_spec());
        assert(print_string_emitted(pre_m, machine.memory, bs@));
    }

    Ok(())
}

/// Handles `POSTPONE`: reads the next word; a user article is compiled as
/// a `Call` to its body, anything else as an `ExecBuiltin` of the name.
fn postpone_word<I: Input, O: Output>(machine: &mut Machine<I, O>) -> (r: Result<(), MachineError>)
    requires
        old(machine).wf(),
    ensures
        final(machine).wf(),
        final(machine).memory.same_layout(old(machine).memory),
        final(machine).fuel <= old(machine).fuel,
        postpone_step(old(machine).memory, final(machine).memory, r),
        r == Err::<(), MachineError>(MachineError::OutOfFuel) ==> final(machine).fuel == 0,
{
    let name_address = match machine.memory.read_input_word(&mut machine.input, &mut machine.fuel) {
        Ok(Some(a)) => a,
        Ok(None) => {
            return Err(MachineError::UnexpectedInputEOF);
        },
        Err(e) => {
            return Err(MachineError::InputError(e));
        },
    };

    let ghost mid = machine.memory;
    proof {
        assert(loaded_or_same(old(machine).memory, mid));
    }

    let body_address: Option<u16> = {
        match machine.memory.lookup_article_name_buf(name_address) {
            Ok(Some(article)) => Some(article.body_address()),
            Ok(None) => None,
            Err(e) => {
                return Err(MachineError::MemoryAccessError(e));
            },
        }
    };

    match body_address {
        Some(body) => {
            match emit_room(&machine.memory, 3) {
                Ok(()) => {},
                Err(e) => {
                    return Err(MachineError::MemoryAccessError(e));
                },
            }
            match machine.memory.dict_write_opcode(OpCode::Call) {
                Ok(()) => {},
                Err(e) => {
                    return Err(MachineError::MemoryAccessError(e));
                },
            }
            match machine.memory.dict_write_u16(body) {
                Ok(()) => {},
                Err(e) => {
                    return Err(MachineError::MemoryAccessError(e));
                },
            }
            proof {
                assert(postpone_dispatch(mid, machine.memory));
            }
            Ok(())
        },
        None => {
            let name_length = machine.memory.raw_memory.read_u8(name_address);
            match emit_room(&machine.memory, 2 + name_length as u16) {
                Ok(()) => {},
                Err(e) => {
                    return Err(MachineError::MemoryAccessError(e));
                },
            }
            let ghost here0 = machine.memory.here();
            proof {
                assert(here0 + 2 + name_length <= machine.memory.data_stack_ptr);
                assert(here0 < RESERVED_START);
            }
            match machine.memory.dict_write_opcode(OpCode::ExecBuiltin) {
                Ok(()) => {},
                Err(e) => {
                    return Err(MachineError::MemoryAccessError(e));
                },
            }
            let ghost mid2 = machine.memory;
            proof {
                assert(mid2.raw_memory@[here0 as int] == OpCode::ExecBuiltin.code_spec());
                assert(mid2.raw_memory@[WORD_BUFFER_ADDR as int]
                    == mid.raw_memory@[WORD_BUFFER_ADDR as int]);
                assert forall|j: int| 0 <= j < name_length implies #[trigger] mid2.raw_memory@[
                    WORD_BUFFER_ADDR + 1 + j
                ] == mid.raw_memory@[WORD_BUFFER_ADDR + 1 + j] by {}
                assert(crate::sized_string::sized_str_content_bytes(
                    mid2.raw_memory@,
                    name_address,
                ) =~= crate::sized_string::sized_str_content_bytes(
                    mid.raw_memory@,
                    WORD_BUFFER_ADDR,
                ));
            }
            match machine.memory.dict_write_sized_string(name_address) {
                Ok(()) => {},
                Err(e) => {
                    return Err(MachineError::MemoryAccessError(e));
                },
            }
            proof {
                let m3 = machine.memory.raw_memory@;
                assert(m3[here0 as int] == OpCode::ExecBuiltin.code_spec());
                assert(m3[here0 + 1] == name_length);
                assert forall|j: int| 0 <= j < name_length implies #[trigger] m3[here0 + 2 + j]
                    == crate::sized_string::sized_str_content_bytes(
                    mid.raw_memory@,
                    WORD_BUFFER_ADDR,
                )[j] by {
                    let dict1 = mid2.here();
                    assert(m3[dict1 + 1 + j] == crate::sized_string::sized_str_content_bytes(
                        mid2.raw_memory@,
                        name_address,
                    )[j]);
                    assert(dict1 == here0 + 1);
                }
                assert(postpone_dispatch(mid, machine.memory));
            }
            Ok(())
        },
    }
}

/// Handles `(`: consumes input up to the matching `)`, discarding it.
fn paren_word<I: Input, O: Output>(machine: &mut Machine<I, O>) -> (r: Result<(), MachineError>)
    requires
        old(machine).wf(),
    ensures
        final(machine).wf(),
        final(machine).memory == old(machine).memory,
        final(machine).fuel <= old(machine).fuel,
        r is Ok || r == Err::<(), MachineError>(MachineError::UnexpectedInputEOF) || r == Err::<
            (),
            MachineError,
        >(MachineError::OutOfFuel) || r matches Err(MachineError::InputError(_)),
        r == Err::<(), MachineError>(MachineError::OutOfFuel) ==> final(machine).fuel == 0,
{
    loop
        invariant
            machine.wf(),
            machine.memory == old(machine).memory,
            machine.fuel <= old(machine).fuel,
        decreases machine.fuel,
    {
        if machine.fuel == 0 {
            return Err(MachineError::OutOfFuel);
        }
        machine.fuel = machine.fuel - 1;

        match machine.input.read() {
            Ok(None) => {
                return Err(MachineError::UnexpectedInputEOF);
            },
            Ok(Some(0x29)) => {
                return Ok(());
            },
            Ok(Some(_)) => {},
            Err(e) => {
                return Err(MachineError::InputError(e));
            },
        }
    }
}

/// Handles `."` in interpreter state: copies input bytes to the output up
/// to the closing `"`.
fn print_input_until_quote<I: Input, O: Output>(machine: &mut Machine<I, O>) -> (r: Result<
    (),
    MachineError,
>)
    requires
        old(machine).wf(),
    ensures
        final(machine).wf(),
        final(machine).memory == old(machine).memory,
        final(machine).fuel <= old(machine).fuel,
        r is Ok || r == Err::<(), MachineError>(MachineError::UnexpectedInputEOF) || r == Err::<
            (),
            MachineError,
        >(MachineError::OutOfFuel) || r matches Err(MachineError::InputError(_)) || r matches Err(
            MachineError::OutputError(_),
        ),
        r == Err::<(), MachineError>(MachineError::OutOfFuel) ==> final(machine).fuel == 0,
{
    loop
        invariant
            machine.wf(),
            machine.memory == old(machine).memory,
            machine.fuel <= old(machine).fuel,
        decreases machine.fuel,
    {
        if machine.fuel == 0 {
            return Err(MachineError::OutOfFuel);
        }
        machine.fuel = machine.fuel - 1;

        let c = match machine.input.read() {
            Ok(Some(c)) => c,
            Ok(None) => {
                return Err(MachineError::UnexpectedInputEOF);
            },
            Err(e) => {
                return Err(MachineError::InputError(e));
            },
        };

        if c == 0x22 {
            return Ok(());
        }

        match machine.output.putc(c as u16) {
            Ok(()) => {},
            Err(e) => {
                return Err(MachineError::OutputError(e));
            },
        }
    }
}

/// Handles `LITERAL`: pops the top cell and appends it as a `Literal16`.
fn literal_word<I: Input, O: Output>(machine: &mut Machine<I, O>) -> (r: Result<(), MachineError>)
    requires
        old(machine).wf(),
    ensures
        final(machine).wf(),
        final(machine).memory.same_layout(old(machine).memory),
        final(machine).fuel == old(machine).fuel,
        literal_word_step(old(machine).memory, final(machine).memory, r),
        r != Err::<(), MachineError>(MachineError::OutOfFuel),
{
    match machine.expect_state(MachineState::Compiler) {
        Ok(()) => {},
        Err(e) => {
            return Err(e);
        },
    }

    let dseg = machine.memory.get_data_stack_segment();
    let sp = machine.memory.data_stack_ptr;
    match machine.memory.raw_memory.validate_access(
        AddressRange { start: sp, end: sp.wrapping_add(1) },
        dseg,
    ) {
        Ok(()) => {},
        Err(e) => {
            return Err(MachineError::MemoryAccessError(e));
        },
    }
    let value = machine.memory.raw_memory.read_u16(sp);
    let here = machine.memory.get_dict_ptr();
    if (here as u32) + 3 > (sp as u32) + 2 {
        return Err(
            MachineError::MemoryAccessError(
                MemoryAccessError {
                    access_range: AddressRange { start: here, end: here.wrapping_add(2) },
                    segment: AddressRange { start: here, end: sp.wrapping_add(1) },
                },
            ),
        );
    }
    machine.memory.data_stack_ptr = sp.wrapping_add(2);
    match compile_u16_literal(machine, value) {
        Ok(()) => Ok(()),
        Err(e) => Err(MachineError::MemoryAccessError(e)),
    }
}

/// The word-to-opcode table, as executable lookup.
fn builtin_opcode_lookup(name: &[u8]) -> (r: Option<OpCode>)
    ensures
        r == builtin_opcode_of(name@),
        r matches Some(op) ==> op.is_simple(),
{
    proof {
        reveal(builtin_opcode_of);
    }
    if bytes_equal(name, "OVER".as_bytes()) {
        Some(OpCode::Over16)
    } else if bytes_equal(name, "2OVER".as_bytes()) {
        Some(OpCode::Over32)
    } else if bytes_equal(name, "SWAP".as_bytes()) {
        Some(OpCode::Swap16)
    } else if bytes_equal(name, "2SWAP".as_bytes()) {
        Some(OpCode::Swap32)
    } else if bytes_equal(name, "DUP".as_bytes()) {
        Some(OpCode::Dup16)
    } else if bytes_equal(name, "2DUP".as_bytes()) {
        Some(OpCode::Dup32)
    } else if bytes_equal(name, "DROP".as_bytes()) {
        Some(OpCode::Drop16)
    } else if bytes_equal(name, "ROT".as_bytes()) {
        Some(OpCode::Rot16)
    } else if bytes_equal(name, "+".as_bytes()) {
        Some(OpCode::Add16)
    } else if bytes_equal(name, "-".as_bytes()) {
        Some(OpCode::Sub16)
    } else if bytes_equal(name, "*".as_bytes()) {
        Some(OpCode::Mul16)
    } else if bytes_equal(name, "/".as_bytes()) {
        Some(OpCode::Div16)
    } else if bytes_equal(name, "@".as_bytes()) {
        Some(OpCode::Load16)
    } else if bytes_equal(name, "!".as_bytes()) {
        Some(OpCode::Store16)
    } else if bytes_equal(name, "C@".as_bytes()) {
        Some(OpCode::Load8)
    } else if bytes_equal(name, "C!".as_bytes()) {
        Some(OpCode::Store8)
    } else if bytes_equal(name, "2@".as_bytes()) {
        Some(OpCode::Load32)
    } else if bytes_equal(name, "2!".as_bytes()) {
        Some(OpCode::Store32)
    } else if bytes_equal(name, "<".as_bytes()) {
        Some(OpCode::Lt16)
    } else if bytes_equal(name, ">".as_bytes()) {
        Some(OpCode::Gt16)
    } else if bytes_equal(name, "=".as_bytes()) {
        Some(OpCode::Eq16)
    } else if bytes_equal(name, "INVERT".as_bytes()) {
        Some(OpCode::Invert16)
    } else if bytes_equal(name, "AND".as_bytes()) {
        Some(OpCode::And16)
    } else if bytes_equal(name, "OR".as_bytes()) {
        Some(OpCode::Or16)
    } else if bytes_equal(name, "XOR".as_bytes()) {
        Some(OpCode::Xor16)
    } else if bytes_equal(name, "S>D".as_bytes()) {
        Some(OpCode::I16ToI32)
    } else if bytes_equal(name, "ABS".as_bytes()) {
        Some(OpCode::Abs16)
    } else if bytes_equal(name, "EMIT".as_bytes()) {
        Some(OpCode::Emit)
    } else if bytes_equal(name, "TYPE".as_bytes()) {
        Some(OpCode::EmitString)
    } else if bytes_equal(name, "<#".as_bytes()) {
        Some(OpCode::PnoInit)
    } else if bytes_equal(name, "HOLD".as_bytes()) {
        Some(OpCode::PnoPut)
    } else if bytes_equal(name, "#>".as_bytes()) {
        Some(OpCode::PnoFinish)
    } else if bytes_equal(name, "#".as_bytes()) {
        Some(OpCode::PnoPutDigit)
    } else {
        None
    }
}

/// The compile-only word table, as executable lookup.
fn compile_only_opcode_lookup(name: &[u8]) -> (r: Option<OpCode>)
    ensures
        r == compile_only_opcode_of(name@),
{
    proof {
        reveal(compile_only_opcode_of);
    }
    if bytes_equal(name, "R@".as_bytes()) {
        Some(OpCode::CallRead16)
    } else if bytes_equal(name, "2R@".as_bytes()) {
        Some(OpCode::CallRead32)
    } else if bytes_equal(name, ">R".as_bytes()) {
        Some(OpCode::CallPush16)
    } else if bytes_equal(name, "R>".as_bytes()) {
        Some(OpCode::CallPop16)
    } else if bytes_equal(name, "2>R".as_bytes()) {
        Some(OpCode::CallPush32)
    } else if bytes_equal(name, "2R>".as_bytes()) {
        Some(OpCode::CallPop32)
    } else {
        None
    }
}

/// The constant-like word table, as executable lookup.
fn builtin_constant_lookup(name: &[u8]) -> (r: Option<u16>)
    ensures
        r == builtin_constant_of(name@),
{
    proof {
        reveal(builtin_constant_of);
    }
    if bytes_equal(name, "TRUE".as_bytes()) {
        Some(0xFFFFu16)
    } else if bytes_equal(name, "FALSE".as_bytes()) {
        Some(0u16)
    } else if bytes_equal(name, "BASE".as_bytes()) {
        Some(RESERVED_START + 10)
    } else if bytes_equal(name, "HERE".as_bytes()) {
        Some(RESERVED_START)
    } else if bytes_equal(name, "STATE".as_bytes()) {
        Some(RESERVED_START + 4)
    } else if bytes_equal(name, "PAD".as_bytes()) {
        Some(RESERVED_START + 512)
    } else {
        None
    }
}

/// Matches the sized string at `name_address` against the built-in word
/// table: executes the word in interpreter state, appends its bytecode in
/// compiler state, and falls back to parsing the name as a numeric literal
/// in the current radix.
#[verifier::rlimit(100)]
#[verifier::spinoff_prover]
pub fn process_builtin_word<I: Input, O: Output>(
    machine: &mut Machine<I, O>,
    name_address: Address,
) -> (r: Result<(), MachineError>)
    requires
        old(machine).wf(),
        crate::sized_string::sized_str_no_wrap(old(machine).memory.raw_memory@, name_address),
    ensures
        final(machine).wf(),
        final(machine).memory.same_layout(old(machine).memory),
        final(machine).fuel <= old(machine).fuel,
        builtin_step(
            crate::sized_string::sized_str_bytes(old(machine).memory.raw_memory@, name_address),
            name_address,
            old(machine).memory,
            final(machine).memory,
            r,
        ),
        r == Err::<(), MachineError>(MachineError::OutOfFuel) ==> final(machine).fuel == 0,
{
    let full = machine.memory.raw_memory.address_range();
    proof {
        assert(crate::sized_string::sized_str_valid(
            machine.memory.raw_memory@,
            name_address,
            AddressRange { start: 0, end: 0xFFFF },
        ));
    }
    let name_vec: Vec<u8> = match crate::sized_string::ReadableSizedString::new(
        &machine.memory.raw_memory,
        name_address,
        full,
    ) {
        Ok(s) => vstd::slice::slice_to_vec(s.as_bytes()),
        Err(_) => {
            proof {
                assert(false);
            }
            return Err(MachineError::IllegalWord(Some(name_address)));
        },
    };
    let name = name_vec.as_slice();

    if bytes_equal(name, ":".as_bytes()) {
        return colon_word(machine);
    }
    if bytes_equal(name, ";".as_bytes()) {
        return semicolon_word(machine);
    }
    if bytes_equal(name, "RECURSE".as_bytes()) {
        return recurse_word(machine);
    }
    if bytes_equal(name, "IMMEDIATE".as_bytes()) {
        return immediate_word(machine);
    }
    if bytes_equal(name, "IF".as_bytes()) {
        return if_word(machine);
    }
    if bytes_equal(name, "ELSE".as_bytes()) {
        return else_word(machine);
    }
    if bytes_equal(name, "THEN".as_bytes()) {
        return then_word(machine);
    }
    if bytes_equal(name, "BEGIN".as_bytes()) {
        return begin_word(machine);
    }
    if bytes_equal(name, "WHILE".as_bytes()) {
        return while_word(machine);
    }
    if bytes_equal(name, "REPEAT".as_bytes()) {
        return repeat_word(machine);
    }
    if bytes_equal(name, "EXIT".as_bytes()) {
        return process_compile_only_opcode(machine, OpCode::Return);
    }
    if bytes_equal(name, "POSTPONE".as_bytes()) {
        return postpone_word(machine);
    }
    if bytes_equal(name, "(".as_bytes()) {
        return paren_word(machine);
    }
    if bytes_equal(name, "[".as_bytes()) {
        match machine.expect_state(MachineState::Compiler) {
            Ok(()) => {},
            Err(e) => {
                return Err(e);
            },
        }
        machine.memory.set_state(MachineState::Interpreter);
        return Ok(());
    }
    if bytes_equal(name, "]".as_bytes()) {
        match machine.expect_state(MachineState::Interpreter) {
            Ok(()) => {},
            Err(e) => {
                return Err(e);
            },
        }
        machine.memory.set_state(MachineState::Compiler);
        return Ok(());
    }
    dispatch_plain_word(machine, &name_vec, name_address)
}

/// Dispatches the words outside the special forms: the constant-like
/// words, the opcode tables, the string words and the numeric-literal
/// fallback.
#[verifier::rlimit(100)]
#[verifier::spinoff_prover]
fn dispatch_plain_word<I: Input, O: Output>(
    machine: &mut Machine<I, O>,
    name_vec: &Vec<u8>,
    name_address: Address,
) -> (r: Result<(), MachineError>)
    requires
        old(machine).wf(),
        name_vec@ != ":".spec_bytes(),
        name_vec@ != ";".spec_bytes(),
        name_vec@ != "RECURSE".spec_bytes(),
        name_vec@ != "IMMEDIATE".spec_bytes(),
        name_vec@ != "IF".spec_bytes(),
        name_vec@ != "ELSE".spec_bytes(),
        name_vec@ != "THEN".spec_bytes(),
        name_vec@ != "BEGIN".spec_bytes(),
        name_vec@ != "WHILE".spec_bytes(),
        name_vec@ != "REPEAT".spec_bytes(),
        name_vec@ != "EXIT".spec_bytes(),
        name_vec@ != "POSTPONE".spec_bytes(),
        name_vec@ != "(".spec_bytes(),
        name_vec@ != "[".spec_bytes(),
        name_vec@ != "]".spec_bytes(),
    ensures
        final(machine).wf(),
        final(machine).memory.same_layout(old(machine).memory),
        final(machine).fuel <= old(machine).fuel,
        builtin_step(
            name_vec@,
            name_address,
            old(machine).memory,
            final(machine).memory,
            r,
        ),
        r == Err::<(), MachineError>(MachineError::OutOfFuel) ==> final(machine).fuel == 0,
{
    let name = name_vec.as_slice();

    if let Some(value) = builtin_constant_lookup(name) {
        return process_constant(machine, value);
    }
    if bytes_equal(name, "2DROP".as_bytes()) {
        match process_trivial_opcode(machine, OpCode::Drop16) {
            Ok(()) => {},
            Err(e) => {
                return Err(e);
            },
        }
        let ghost mid = machine.memory;
        let second = process_trivial_opcode(machine, OpCode::Drop16);
        proof {
            assert(trivial_step(OpCode::Drop16, old(machine).memory, mid, Ok(())));
        }
        return second;
    }
    dispatch_table_word(machine, name_vec, name_address)
}

/// Dispatches the words of the two opcode tables, then hands the rest on.
#[verifier::rlimit(100)]
#[verifier::spinoff_prover]
fn dispatch_table_word<I: Input, O: Output>(
    machine: &mut Machine<I, O>,
    name_vec: &Vec<u8>,
    name_address: Address,
) -> (r: Result<(), MachineError>)
    requires
        old(machine).wf(),
        name_vec@ != ":".spec_bytes(),
        name_vec@ != ";".spec_bytes(),
        name_vec@ != "RECURSE".spec_bytes(),
        name_vec@ != "IMMEDIATE".spec_bytes(),
        name_vec@ != "IF".spec_bytes(),
        name_vec@ != "ELSE".spec_bytes(),
        name_vec@ != "THEN".spec_bytes(),
        name_vec@ != "BEGIN".spec_bytes(),
        name_vec@ != "WHILE".spec_bytes(),
        name_vec@ != "REPEAT".spec_bytes(),
        name_vec@ != "EXIT".spec_bytes(),
        name_vec@ != "POSTPONE".spec_bytes(),
        name_vec@ != "(".spec_bytes(),
        name_vec@ != "[".spec_bytes(),
        name_vec@ != "]".spec_bytes(),
        builtin_constant_of(name_vec@) is None,
        name_vec@ != "2DROP".spec_bytes(),
    ensures
        final(machine).wf(),
        final(machine).memory.same_layout(old(machine).memory),
        final(machine).fuel <= old(machine).fuel,
        builtin_step(
            name_vec@,
            name_address,
            old(machine).memory,
            final(machine).memory,
            r,
        ),
        r == Err::<(), MachineError>(MachineError::OutOfFuel) ==> final(machine).fuel == 0,
{
    let name = name_vec.as_slice();

    if let Some(opcode) = builtin_opcode_lookup(name) {
        return process_trivial_opcode(machine, opcode);
    }
    if let Some(opcode) = compile_only_opcode_lookup(name) {
        return process_compile_only_opcode(machine, opcode);
    }
    dispatch_string_word(machine, name_vec, name_address)
}

/// Dispatches the string words (`S"`, `LITERAL`, `."`) and the
/// numeric-literal fallback.
#[verifier::rlimit(100)]
#[verifier::spinoff_prover]
fn dispatch_string_word<I: Input, O: Output>(
    machine: &mut Machine<I, O>,
    name_vec: &Vec<u8>,
    name_address: Address,
) -> (r: Result<(), MachineError>)
    requires
        old(machine).wf(),
        name_vec@ != ":".spec_bytes(),
        name_vec@ != ";".spec_bytes(),
        name_vec@ != "RECURSE".spec_bytes(),
        name_vec@ != "IMMEDIATE".spec_bytes(),
        name_vec@ != "IF".spec_bytes(),
        name_vec@ != "ELSE".spec_bytes(),
        name_vec@ != "THEN".spec_bytes(),
        name_vec@ != "BEGIN".spec_bytes(),
        name_vec@ != "WHILE".spec_bytes(),
        name_vec@ != "REPEAT".spec_bytes(),
        name_vec@ != "EXIT".spec_bytes(),
        name_vec@ != "POSTPONE".spec_bytes(),
        name_vec@ != "(".spec_bytes(),
        name_vec@ != "[".spec_bytes(),
        name_vec@ != "]".spec_bytes(),
        builtin_constant_of(name_vec@) is None,
        name_vec@ != "2DROP".spec_bytes(),
        builtin_opcode_of(name_vec@) is None,
        compile_only_opcode_of(name_vec@) is None,
    ensures
        final(machine).wf(),
        final(machine).memory.same_layout(old(machine).memory),
        final(machine).fuel <= old(machine).fuel,
        builtin_step(
            name_vec@,
            name_address,
            old(machine).memory,
            final(machine).memory,
            r,
        ),
        r == Err::<(), MachineError>(MachineError::OutOfFuel) ==> final(machine).fuel == 0,
{
    let name = name_vec.as_slice();

    if bytes_equal(name, "S\"".as_bytes()) {
        match machine.expect_state(MachineState::Compiler) {
            Ok(()) => {},
            Err(e) => {
                return Err(e);
            },
        }
        return compile_string_literal(machine);
    }
    if bytes_equal(name, "LITERAL".as_bytes()) {
        return literal_word(machine);
    }
    if bytes_equal(name, ".\"".as_bytes()) {
        match machine.memory.get_state() {
            MachineState::Compiler => {
                return print_string_word(machine);
            },
            MachineState::Interpreter => {
                return print_input_until_quote(machine);
            },
        }
    }

    let base = machine.memory.get_base();
    match crate::literal::parse_literal(name, base as u32) {
        Some(parsed_literal) => match process_literal(machine, parsed_literal) {
            Ok(()) => Ok(()),
            Err(e) => Err(MachineError::MemoryAccessError(e)),
        },
        None => Err(MachineError::IllegalWord(Some(name_address))),
    }
}

} // verus!
