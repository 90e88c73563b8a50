//! Article interpreters: the first body byte of an article selects how a
//! word behaves when it is looked up. A default word compiles to a call in
//! compiler state and runs directly in interpreter state; an immediate word
//! runs directly in either state.

use vstd::prelude::*;

use crate::input::Input;
use crate::machine::Machine;
use crate::machine_error::MachineError;
use crate::machine_state::MachineState;
use crate::mem::Address;
use crate::opcodes::OpCode;
use crate::output::Output;

verus! {

#[derive(Clone, Copy, PartialEq, Eq, Structural, Debug)]
pub enum Interpreter {
    Default,
    Immediate,
}

impl Interpreter {
    /// The byte encoding this interpreter at an article's body start.
    pub open spec fn code_spec(self) -> u8 {
        match self {
            Interpreter::Default => 0,
            Interpreter::Immediate => 1,
        }
    }

    /// The byte this interpreter is stored as.
    pub fn int_value(self) -> (r: u8)
        ensures
            r == self.code_spec(),
    {
        match self {
            Interpreter::Default => 0,
            Interpreter::Immediate => 1,
        }
    }

    /// The interpreter a byte stands for, or `None` for an illegal byte.
    pub fn from_int(code: u8) -> (r: Option<Interpreter>)
        ensures
            code == 0 ==> r == Some(Interpreter::Default),
            code == 1 ==> r == Some(Interpreter::Immediate),
            code > 1 ==> r is None,
    {
        match code {
            0 => Some(Interpreter::Default),
            1 => Some(Interpreter::Immediate),
            _ => None,
        }
    }

    /// What interpreting the article selector byte at `address` does:
    /// an unknown byte changes nothing; an immediate word, or a default
    /// word met in interpreter state, runs as bytecode right after the
    /// byte; a default word met in compiler state compiles to a `Call` of
    /// that body, all or nothing.
    pub open spec fn article_step(
        pre: crate::machine_memory::MachineMemory,
        address: Address,
        post: crate::machine_memory::MachineMemory,
        r: Result<(), MachineError>,
    ) -> bool {
        let b = pre.raw_memory@[address as int];
        let runs = {
            &&& (r is Ok ==> crate::machine::run_ends(
                pre,
                crate::mem::wadd16(address, 1),
                post,
                MachineError::Exited,
            ))
            &&& (r matches Err(e) ==> !(e is Exited) && crate::machine::run_ends(
                pre,
                crate::mem::wadd16(address, 1),
                post,
                e,
            ))
        };
        if b == Interpreter::Immediate.code_spec() {
            runs
        } else if b == Interpreter::Default.code_spec() {
            if pre.state() is Compiler {
                if pre.here() + 3 <= pre.data_stack_ptr {
                    &&& r is Ok
                    &&& post.dict_op_frame(pre)
                    &&& post.here() == pre.here() + 3
                    &&& post.raw_memory@ == crate::builtin_words::emit_op_u16_mem(
                        pre.raw_memory@,
                        pre.here(),
                        OpCode::Call.code_spec(),
                        crate::mem::wadd16(address, 1),
                    )
                } else {
                    post == pre && r matches Err(MachineError::MemoryAccessError(_))
                }
            } else {
                runs
            }
        } else {
            post == pre && r == Err::<(), MachineError>(MachineError::UnexpectedArticleType)
        }
    }

    /// Reads the interpreter byte at `address` and acts on the article
    /// body that follows it: an immediate word runs at once, a default
    /// word runs in interpreter state and compiles to a `Call` in compiler
    /// state. An unknown byte is an `UnexpectedArticleType` error.
    pub fn interpret_article<I: Input, O: Output>(
        machine: &mut Machine<I, O>,
        address: Address,
    ) -> (r: Result<(), MachineError>)
        requires
            old(machine).wf(),
        ensures
            final(machine).wf(),
            final(machine).memory.same_layout(old(machine).memory),
            final(machine).fuel <= old(machine).fuel,
            Interpreter::article_step(old(machine).memory, address, final(machine).memory, r),
    {
        let interpreter_code = machine.memory.raw_memory.read_u8(address);

        match Interpreter::from_int(interpreter_code) {
            Some(interpreter) => interpreter.interpret(machine, address),
            None => Err(MachineError::UnexpectedArticleType),
        }
    }

    fn interpret<I: Input, O: Output>(
        self,
        machine: &mut Machine<I, O>,
        address: Address,
    ) -> (r: Result<(), MachineError>)
        requires
            old(machine).wf(),
            old(machine).memory.raw_memory@[address as int] == self.code_spec(),
        ensures
            final(machine).wf(),
            final(machine).memory.same_layout(old(machine).memory),
            final(machine).fuel <= old(machine).fuel,
            Interpreter::article_step(old(machine).memory, address, final(machine).memory, r),
    {
        match self {
            Interpreter::Default => match machine.memory.get_state() {
                MachineState::Compiler => {
                    match crate::builtin_words::emit_room(&machine.memory, 3) {
                        Ok(()) => {},
                        Err(e) => {
                            return Err(MachineError::MemoryAccessError(e));
                        },
                    }
                    match machine.memory.dict_write_opcode(OpCode::Call) {
                        Ok(()) => {},
                        Err(e) => {
                            return Err(MachineError::MemoryAccessError(e));
                        },
                    }
                    match machine.memory.dict_write_u16(address.wrapping_add(1)) {
                        Ok(()) => Ok(()),
                        Err(e) => Err(MachineError::MemoryAccessError(e)),
                    }
                },
                MachineState::Interpreter => machine.run_until_exit(address.wrapping_add(1)),
            },
            Interpreter::Immediate => machine.run_until_exit(address.wrapping_add(1)),
        }
    }
}

} // verus!
