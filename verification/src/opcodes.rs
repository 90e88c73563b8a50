//! The bytecode instruction set: single-byte opcodes, some followed by an
//! immediate operand (a 16-bit value or a sized string). `execute_at` reads
//! the opcode at an address, dispatches, and returns the address of the next
//! instruction.

use vstd::prelude::*;

use crate::input::Input;
use crate::machine::Machine;
use crate::machine_error::MachineError;
use crate::output::Output;
use crate::machine_memory::{get16_ok, push16_ok, MachineMemory, PNO_START, RESERVED_START};
use crate::mem::{
    mem_read16, mem_read32, mem_write16, mem_write32, wadd16, wmul16, wsub16, Address,
    AddressRange, MemoryAccessError,
};
use crate::stack_effect::{effect_range, effect_resulting_ptr, EffectShape, StackEffect};

verus! {

#[derive(Clone, Copy, PartialEq, Eq, Structural, Debug)]
pub enum OpCode {
    Noop,
    /// Op-code placed at the beginning of a standard (non-immediate) article.
    ///
    /// Does nothing in interpreter state (allowing seamless execution of the
    /// following instructions). In compiler state writes a `Call` op-code
    /// with the address of the next instruction to the dictionary and
    /// returns.
    ///
    /// Can be replaced by `Noop` to make a word executable both immediately
    /// and from compiled code.
    DefaultArticleStart,
    /// Pop an address from the call stack and go to that address; the
    /// `Exited` sentinel when the call stack is empty.
    Return,
    /// Followed by the address of another instruction: push the address
    /// immediately after this instruction to the call stack and go there.
    Call,
    /// Followed by a 16-bit value: push that value to the data stack.
    Literal16,
    /// Followed by a sized string: push the address and the size of that
    /// string to the data stack.
    LiteralString,
    /// Followed by the 16-bit address of another instruction:
    /// unconditionally go to that address.
    GoTo,
    /// Followed by the 16-bit address of another instruction: take one cell
    /// from the data stack and go to that address iff the cell is zero.
    GoToIfZ,
    /// Followed by a sized string: execute the built-in word with the name
    /// contained in that string.
    ExecBuiltin,
    CallPop16,
    CallPush16,
    CallPop32,
    CallPush32,
    CallRead16,
    CallRead32,
    Dup32,
    Over16,
    Over32,
    Swap16,
    Swap32,
    Dup16,
    Add16,
    Sub16,
    Mul16,
    Div16,
    Load16,
    Store16,
    Load8,
    Store8,
    Load32,
    Store32,
    Drop16,
    Invert16,
    And16,
    Or16,
    Xor16,
    Eq16,
    Lt16,
    Gt16,
    Rot16,
    I16ToI32,
    Abs16,
    Emit,
    PnoInit,
    PnoPut,
    PnoFinish,
    PnoPutDigit,
    EmitString,
}

impl OpCode {
    /// The byte encoding this opcode in the dictionary.
    pub open spec fn code_spec(self) -> u8 {
        match self {
            OpCode::Noop => 0,
            OpCode::DefaultArticleStart => 1,
            OpCode::Return => 2,
            OpCode::Call => 3,
            OpCode::Literal16 => 4,
            OpCode::LiteralString => 5,
            OpCode::GoTo => 6,
            OpCode::GoToIfZ => 7,
            OpCode::ExecBuiltin => 8,
            OpCode::CallPop16 => 9,
            OpCode::CallPush16 => 10,
            OpCode::CallPop32 => 11,
            OpCode::CallPush32 => 12,
            OpCode::CallRead16 => 13,
            OpCode::CallRead32 => 14,
            OpCode::Dup32 => 123,
            OpCode::Over16 => 124,
            OpCode::Over32 => 125,
            OpCode::Swap16 => 126,
            OpCode::Swap32 => 127,
            OpCode::Dup16 => 128,
            OpCode::Add16 => 129,
            OpCode::Sub16 => 130,
            OpCode::Mul16 => 131,
            OpCode::Div16 => 132,
            OpCode::Load16 => 133,
            OpCode::Store16 => 134,
            OpCode::Load8 => 135,
            OpCode::Store8 => 136,
            OpCode::Load32 => 137,
            OpCode::Store32 => 138,
            OpCode::Drop16 => 139,
            OpCode::Invert16 => 140,
            OpCode::And16 => 141,
            OpCode::Or16 => 142,
            OpCode::Xor16 => 143,
            OpCode::Eq16 => 144,
            OpCode::Lt16 => 145,
            OpCode::Gt16 => 146,
            OpCode::Rot16 => 147,
            OpCode::I16ToI32 => 148,
            OpCode::Abs16 => 149,
            OpCode::Emit => 200,
            OpCode::PnoInit => 201,
            OpCode::PnoPut => 202,
            OpCode::PnoFinish => 203,
            OpCode::PnoPutDigit => 204,
            OpCode::EmitString => 205,
        }
    }

    /// The opcode a byte stands for, if any.
    pub open spec fn from_code_spec(code: u8) -> Option<OpCode> {
        match code {
            0 => Some(OpCode::Noop),
            1 => Some(OpCode::DefaultArticleStart),
            2 => Some(OpCode::Return),
            3 => Some(OpCode::Call),
            4 => Some(OpCode::Literal16),
            5 => Some(OpCode::LiteralString),
            6 => Some(OpCode::GoTo),
            7 => Some(OpCode::GoToIfZ),
            8 => Some(OpCode::ExecBuiltin),
            9 => Some(OpCode::CallPop16),
            10 => Some(OpCode::CallPush16),
            11 => Some(OpCode::CallPop32),
            12 => Some(OpCode::CallPush32),
            13 => Some(OpCode::CallRead16),
            14 => Some(OpCode::CallRead32),
            123 => Some(OpCode::Dup32),
            124 => Some(OpCode::Over16),
            125 => Some(OpCode::Over32),
            126 => Some(OpCode::Swap16),
            127 => Some(OpCode::Swap32),
            128 => Some(OpCode::Dup16),
            129 => Some(OpCode::Add16),
            130 => Some(OpCode::Sub16),
            131 => Some(OpCode::Mul16),
            132 => Some(OpCode::Div16),
            133 => Some(OpCode::Load16),
            134 => Some(OpCode::Store16),
            135 => Some(OpCode::Load8),
            136 => Some(OpCode::Store8),
            137 => Some(OpCode::Load32),
            138 => Some(OpCode::Store32),
            139 => Some(OpCode::Drop16),
            140 => Some(OpCode::Invert16),
            141 => Some(OpCode::And16),
            142 => Some(OpCode::Or16),
            143 => Some(OpCode::Xor16),
            144 => Some(OpCode::Eq16),
            145 => Some(OpCode::Lt16),
            146 => Some(OpCode::Gt16),
            147 => Some(OpCode::Rot16),
            148 => Some(OpCode::I16ToI32),
            149 => Some(OpCode::Abs16),
            200 => Some(OpCode::Emit),
            201 => Some(OpCode::PnoInit),
            202 => Some(OpCode::PnoPut),
            203 => Some(OpCode::PnoFinish),
            204 => Some(OpCode::PnoPutDigit),
            205 => Some(OpCode::EmitString),
            _ => None,
        }
    }

    /// The byte this opcode is stored as.
    pub fn int_value(self) -> (r: u8)
        ensures
            r == self.code_spec(),
            OpCode::from_code_spec(r) == Some(self),
    {
        match self {
            OpCode::Noop => 0,
            OpCode::DefaultArticleStart => 1,
            OpCode::Return => 2,
            OpCode::Call => 3,
            OpCode::Literal16 => 4,
            OpCode::LiteralString => 5,
            OpCode::GoTo => 6,
            OpCode::GoToIfZ => 7,
            OpCode::ExecBuiltin => 8,
            OpCode::CallPop16 => 9,
            OpCode::CallPush16 => 10,
            OpCode::CallPop32 => 11,
            OpCode::CallPush32 => 12,
            OpCode::CallRead16 => 13,
            OpCode::CallRead32 => 14,
            OpCode::Dup32 => 123,
            OpCode::Over16 => 124,
            OpCode::Over32 => 125,
            OpCode::Swap16 => 126,
            OpCode::Swap32 => 127,
            OpCode::Dup16 => 128,
            OpCode::Add16 => 129,
            OpCode::Sub16 => 130,
            OpCode::Mul16 => 131,
            OpCode::Div16 => 132,
            OpCode::Load16 => 133,
            OpCode::Store16 => 134,
            OpCode::Load8 => 135,
            OpCode::Store8 => 136,
            OpCode::Load32 => 137,
            OpCode::Store32 => 138,
            OpCode::Drop16 => 139,
            OpCode::Invert16 => 140,
            OpCode::And16 => 141,
            OpCode::Or16 => 142,
            OpCode::Xor16 => 143,
            OpCode::Eq16 => 144,
            OpCode::Lt16 => 145,
            OpCode::Gt16 => 146,
            OpCode::Rot16 => 147,
            OpCode::I16ToI32 => 148,
            OpCode::Abs16 => 149,
            OpCode::Emit => 200,
            OpCode::PnoInit => 201,
            OpCode::PnoPut => 202,
            OpCode::PnoFinish => 203,
            OpCode::PnoPutDigit => 204,
            OpCode::EmitString => 205,
        }
    }

    /// The opcodes that carry no operand, read and write only the data
    /// stack, the call stack, the arena or the output, and advance the
    /// instruction pointer by exactly one. These are the opcodes a built-in
    /// word may execute in place.
    pub open spec fn is_simple(self) -> bool {
        !matches!(
            self,
            OpCode::DefaultArticleStart
            | OpCode::Return
            | OpCode::Call
            | OpCode::Literal16
            | OpCode::LiteralString
            | OpCode::GoTo
            | OpCode::GoToIfZ
            | OpCode::ExecBuiltin
        )
    }

    /// The two-operand arithmetic, bitwise and comparison opcodes.
    pub open spec fn is_binop16(self) -> bool {
        matches!(
            self,
            OpCode::Add16
            | OpCode::Sub16
            | OpCode::Mul16
            | OpCode::And16
            | OpCode::Or16
            | OpCode::Xor16
            | OpCode::Eq16
            | OpCode::Lt16
            | OpCode::Gt16
        )
    }

    /// The opcode a byte stands for, or `None` for an illegal byte.
    pub fn from_int(code: u8) -> (r: Option<OpCode>)
        ensures
            r == OpCode::from_code_spec(code),
            r is Some ==> r->0.code_spec() == code,
    {
        match code {
            0 => Some(OpCode::Noop),
            1 => Some(OpCode::DefaultArticleStart),
            2 => Some(OpCode::Return),
            3 => Some(OpCode::Call),
            4 => Some(OpCode::Literal16),
            5 => Some(OpCode::LiteralString),
            6 => Some(OpCode::GoTo),
            7 => Some(OpCode::GoToIfZ),
            8 => Some(OpCode::ExecBuiltin),
            9 => Some(OpCode::CallPop16),
            10 => Some(OpCode::CallPush16),
            11 => Some(OpCode::CallPop32),
            12 => Some(OpCode::CallPush32),
            13 => Some(OpCode::CallRead16),
            14 => Some(OpCode::CallRead32),
            123 => Some(OpCode::Dup32),
            124 => Some(OpCode::Over16),
            125 => Some(OpCode::Over32),
            126 => Some(OpCode::Swap16),
            127 => Some(OpCode::Swap32),
            128 => Some(OpCode::Dup16),
            129 => Some(OpCode::Add16),
            130 => Some(OpCode::Sub16),
            131 => Some(OpCode::Mul16),
            132 => Some(OpCode::Div16),
            133 => Some(OpCode::Load16),
            134 => Some(OpCode::Store16),
            135 => Some(OpCode::Load8),
            136 => Some(OpCode::Store8),
            137 => Some(OpCode::Load32),
            138 => Some(OpCode::Store32),
            139 => Some(OpCode::Drop16),
            140 => Some(OpCode::Invert16),
            141 => Some(OpCode::And16),
            142 => Some(OpCode::Or16),
            143 => Some(OpCode::Xor16),
            144 => Some(OpCode::Eq16),
            145 => Some(OpCode::Lt16),
            146 => Some(OpCode::Gt16),
            147 => Some(OpCode::Rot16),
            148 => Some(OpCode::I16ToI32),
            149 => Some(OpCode::Abs16),
            200 => Some(OpCode::Emit),
            201 => Some(OpCode::PnoInit),
            202 => Some(OpCode::PnoPut),
            203 => Some(OpCode::PnoFinish),
            204 => Some(OpCode::PnoPutDigit),
            205 => Some(OpCode::EmitString),
            _ => None,
        }
    }
}

impl OpCode {
    /// Executes one of the simple opcodes in place: the data or call stack
    /// moves, at most one output byte range is written, and the instruction
    /// pointer advances by exactly one.
    #[verifier::rlimit(100)]
    #[verifier::spinoff_prover]
    pub fn execute_simple<I: Input, O: Output>(
        self,
        machine: &mut Machine<I, O>,
        address: Address,
    ) -> (r: Result<Address, MachineError>)
        requires
            self.is_simple(),
            old(machine).wf(),
        ensures
            final(machine).wf(),
            final(machine).memory.same_layout(old(machine).memory),
            simple_step(self, old(machine).memory, final(machine).memory, address, r),
            r is Ok ==> r == Ok::<Address, MachineError>(wadd16(address, 1)),
            final(machine).fuel == old(machine).fuel,
            r != Err::<Address, MachineError>(MachineError::OutOfFuel),
    {
        proof {
            reveal(simple_step);
        }
        let next = address.wrapping_add(1);
        match self {
            OpCode::Noop => Ok(next),
            OpCode::Add16 | OpCode::Sub16 | OpCode::Mul16 | OpCode::And16 | OpCode::Or16
                | OpCode::Xor16 | OpCode::Eq16 | OpCode::Lt16 | OpCode::Gt16 => {
                validate_ds(&machine.memory, 2, 1)?;
                let sp = machine.memory.data_stack_ptr;
                let a = machine.memory.raw_memory.read_u16(sp.wrapping_add(2));
                let b = machine.memory.raw_memory.read_u16(sp);
                let c = binop16_exec(self, a, b);
                machine.memory.raw_memory.write_u16(sp.wrapping_add(2), c);
                machine.memory.data_stack_ptr = sp.wrapping_add(2);
                Ok(next)
            },
            OpCode::Div16 => {
                validate_ds(&machine.memory, 2, 1)?;
                let sp = machine.memory.data_stack_ptr;
                let a = machine.memory.raw_memory.read_u16(sp.wrapping_add(2));
                let b = machine.memory.raw_memory.read_u16(sp);
                if b == 0 {
                    return Err(MachineError::DivisionByZero);
                }
                machine.memory.raw_memory.write_u16(sp.wrapping_add(2), a / b);
                machine.memory.data_stack_ptr = sp.wrapping_add(2);
                Ok(next)
            },
            OpCode::Invert16 => {
                validate_ds(&machine.memory, 1, 1)?;
                let sp = machine.memory.data_stack_ptr;
                let a = machine.memory.raw_memory.read_u16(sp);
                machine.memory.raw_memory.write_u16(sp, !a);
                Ok(next)
            },
            OpCode::Abs16 => {
                validate_ds(&machine.memory, 1, 1)?;
                let sp = machine.memory.data_stack_ptr;
                let a = machine.memory.raw_memory.read_u16(sp);
                let c: u16 = if a == 0x8000 {
                    a
                } else if a >= 0x8000 {
                    0u16.wrapping_sub(a)
                } else {
                    a
                };
                machine.memory.raw_memory.write_u16(sp, c);
                Ok(next)
            },
            OpCode::Dup16 => {
                validate_ds(&machine.memory, 1, 2)?;
                let sp = machine.memory.data_stack_ptr;
                let x = machine.memory.raw_memory.read_u16(sp);
                machine.memory.raw_memory.write_u16(sp.wrapping_sub(2), x);
                machine.memory.data_stack_ptr = sp.wrapping_sub(2);
                Ok(next)
            },
            OpCode::Dup32 => {
                validate_ds(&machine.memory, 2, 4)?;
                let sp = machine.memory.data_stack_ptr;
                let x = machine.memory.raw_memory.read_u32(sp);
                machine.memory.raw_memory.write_u32(sp.wrapping_sub(4), x);
                machine.memory.data_stack_ptr = sp.wrapping_sub(4);
                Ok(next)
            },
            OpCode::Over16 => {
                validate_ds(&machine.memory, 2, 3)?;
                let sp = machine.memory.data_stack_ptr;
                let a = machine.memory.raw_memory.read_u16(sp.wrapping_add(2));
                machine.memory.raw_memory.write_u16(sp.wrapping_sub(2), a);
                machine.memory.data_stack_ptr = sp.wrapping_sub(2);
                Ok(next)
            },
            OpCode::Over32 => {
                validate_ds(&machine.memory, 4, 6)?;
                let sp = machine.memory.data_stack_ptr;
                let a = machine.memory.raw_memory.read_u32(sp.wrapping_add(4));
                machine.memory.raw_memory.write_u32(sp.wrapping_sub(4), a);
                machine.memory.data_stack_ptr = sp.wrapping_sub(4);
                Ok(next)
            },
            OpCode::Swap16 => {
                validate_ds(&machine.memory, 2, 2)?;
                let sp = machine.memory.data_stack_ptr;
                let a = machine.memory.raw_memory.read_u16(sp.wrapping_add(2));
                let b = machine.memory.raw_memory.read_u16(sp);
                machine.memory.raw_memory.write_u16(sp.wrapping_add(2), b);
                machine.memory.raw_memory.write_u16(sp, a);
                Ok(next)
            },
            OpCode::Swap32 => {
                validate_ds(&machine.memory, 4, 4)?;
                let sp = machine.memory.data_stack_ptr;
                let a = machine.memory.raw_memory.read_u32(sp.wrapping_add(4));
                let b = machine.memory.raw_memory.read_u32(sp);
                machine.memory.raw_memory.write_u32(sp.wrapping_add(4), b);
                machine.memory.raw_memory.write_u32(sp, a);
                Ok(next)
            },
            OpCode::Rot16 => {
                validate_ds(&machine.memory, 3, 3)?;
                let sp = machine.memory.data_stack_ptr;
                let a = machine.memory.raw_memory.read_u16(sp.wrapping_add(4));
                let b = machine.memory.raw_memory.read_u16(sp.wrapping_add(2));
                let c = machine.memory.raw_memory.read_u16(sp);
                machine.memory.raw_memory.write_u16(sp.wrapping_add(4), b);
                machine.memory.raw_memory.write_u16(sp.wrapping_add(2), c);
                machine.memory.raw_memory.write_u16(sp, a);
                Ok(next)
            },
            OpCode::Drop16 => {
                match machine.memory.data_pop_u16() {
                    Ok(_) => Ok(next),
                    Err(e) => Err(MachineError::MemoryAccessError(e)),
                }
            },
            OpCode::I16ToI32 => {
                validate_ds(&machine.memory, 1, 2)?;
                let sp = machine.memory.data_stack_ptr;
                let a = machine.memory.raw_memory.read_u16(sp) as i16;
                machine.memory.raw_memory.write_u32(sp.wrapping_sub(2), (a as i32) as u32);
                machine.memory.data_stack_ptr = sp.wrapping_sub(2);
                Ok(next)
            },
            OpCode::Load8 => {
                validate_ds(&machine.memory, 1, 1)?;
                let sp = machine.memory.data_stack_ptr;
                let target = machine.memory.raw_memory.read_u16(sp);
                let v = machine.memory.raw_memory.read_u8(target) as u16;
                machine.memory.raw_memory.write_u16(sp, v);
                Ok(next)
            },
            OpCode::Store8 => {
                validate_ds(&machine.memory, 2, 0)?;
                let sp = machine.memory.data_stack_ptr;
                let target = machine.memory.raw_memory.read_u16(sp);
                let v = machine.memory.raw_memory.read_u16(sp.wrapping_add(2));
                machine.memory.raw_memory.write_u8(target, (v % 0x100) as u8);
                machine.memory.data_stack_ptr = sp.wrapping_add(4);
                Ok(next)
            },
            OpCode::Load16 => {
                validate_ds(&machine.memory, 1, 1)?;
                let sp = machine.memory.data_stack_ptr;
                let target = machine.memory.raw_memory.read_u16(sp);
                let full = machine.memory.raw_memory.address_range();
                match machine.memory.raw_memory.validate_access(
                    AddressRange { start: target, end: target.wrapping_add(1) },
                    full,
                ) {
                    Ok(()) => {},
                    Err(e) => {
                        return Err(MachineError::MemoryAccessError(e));
                    },
                }
                let v = machine.memory.raw_memory.read_u16(target);
                machine.memory.raw_memory.write_u16(sp, v);
                Ok(next)
            },
            OpCode::Store16 => {
                validate_ds(&machine.memory, 2, 0)?;
                let sp = machine.memory.data_stack_ptr;
                let target = machine.memory.raw_memory.read_u16(sp);
                let v = machine.memory.raw_memory.read_u16(sp.wrapping_add(2));
                let full = machine.memory.raw_memory.address_range();
                match machine.memory.raw_memory.validate_access(
                    AddressRange { start: target, end: target.wrapping_add(1) },
                    full,
                ) {
                    Ok(()) => {},
                    Err(e) => {
                        return Err(MachineError::MemoryAccessError(e));
                    },
                }
                machine.memory.raw_memory.write_u16(target, v);
                machine.memory.data_stack_ptr = sp.wrapping_add(4);
                Ok(next)
            },
            OpCode::Load32 => {
                validate_ds(&machine.memory, 1, 2)?;
                let sp = machine.memory.data_stack_ptr;
                let target = machine.memory.raw_memory.read_u16(sp);
                let full = machine.memory.raw_memory.address_range();
                match machine.memory.raw_memory.validate_access(
                    AddressRange { start: target, end: target.wrapping_add(3) },
                    full,
                ) {
                    Ok(()) => {},
                    Err(e) => {
                        return Err(MachineError::MemoryAccessError(e));
                    },
                }
                let v = machine.memory.raw_memory.read_u32(target);
                machine.memory.raw_memory.write_u32(sp.wrapping_sub(2), v);
                machine.memory.data_stack_ptr = sp.wrapping_sub(2);
                Ok(next)
            },
            OpCode::Store32 => {
                validate_ds(&machine.memory, 3, 0)?;
                let sp = machine.memory.data_stack_ptr;
                let target = machine.memory.raw_memory.read_u16(sp);
                let v = machine.memory.raw_memory.read_u32(sp.wrapping_add(2));
                let full = machine.memory.raw_memory.address_range();
                match machine.memory.raw_memory.validate_access(
                    AddressRange { start: target, end: target.wrapping_add(3) },
                    full,
                ) {
                    Ok(()) => {},
                    Err(e) => {
                        return Err(MachineError::MemoryAccessError(e));
                    },
                }
                machine.memory.raw_memory.write_u32(target, v);
                machine.memory.data_stack_ptr = sp.wrapping_add(6);
                Ok(next)
            },
            OpCode::CallPop16 => {
                let cseg = machine.memory.get_call_stack_segment();
                let dseg = machine.memory.get_data_stack_segment();
                let csp = machine.memory.call_stack_ptr;
                let sp = machine.memory.data_stack_ptr;
                match machine.memory.raw_memory.validate_access(
                    AddressRange { start: csp, end: csp.wrapping_add(1) },
                    cseg,
                ) {
                    Ok(()) => {},
                    Err(e) => {
                        return Err(MachineError::MemoryAccessError(e));
                    },
                }
                let next_sp = sp.wrapping_sub(2);
                match machine.memory.raw_memory.validate_access(
                    AddressRange { start: next_sp, end: next_sp.wrapping_add(1) },
                    dseg,
                ) {
                    Ok(()) => {},
                    Err(e) => {
                        return Err(MachineError::MemoryAccessError(e));
                    },
                }
                let v = machine.memory.raw_memory.read_u16(csp);
                machine.memory.raw_memory.write_u16(next_sp, v);
                machine.memory.call_stack_ptr = csp.wrapping_add(2);
                machine.memory.data_stack_ptr = next_sp;
                Ok(next)
            },
            OpCode::CallPush16 => {
                let cseg = machine.memory.get_call_stack_segment();
                let dseg = machine.memory.get_data_stack_segment();
                let csp = machine.memory.call_stack_ptr;
                let sp = machine.memory.data_stack_ptr;
                match machine.memory.raw_memory.validate_access(
                    AddressRange { start: sp, end: sp.wrapping_add(1) },
                    dseg,
                ) {
                    Ok(()) => {},
                    Err(e) => {
                        return Err(MachineError::MemoryAccessError(e));
                    },
                }
                let next_csp = csp.wrapping_sub(2);
                match machine.memory.raw_memory.validate_access(
                    AddressRange { start: next_csp, end: next_csp.wrapping_add(1) },
                    cseg,
                ) {
                    Ok(()) => {},
                    Err(e) => {
                        return Err(MachineError::MemoryAccessError(e));
                    },
                }
                let v = machine.memory.raw_memory.read_u16(sp);
                machine.memory.raw_memory.write_u16(next_csp, v);
                machine.memory.data_stack_ptr = sp.wrapping_add(2);
                machine.memory.call_stack_ptr = next_csp;
                Ok(next)
            },
            OpCode::CallPop32 => {
                let cseg = machine.memory.get_call_stack_segment();
                let dseg = machine.memory.get_data_stack_segment();
                let csp = machine.memory.call_stack_ptr;
                let sp = machine.memory.data_stack_ptr;
                match machine.memory.raw_memory.validate_access(
                    AddressRange { start: csp, end: csp.wrapping_add(3) },
                    cseg,
                ) {
                    Ok(()) => {},
                    Err(e) => {
                        return Err(MachineError::MemoryAccessError(e));
                    },
                }
                let next_sp = sp.wrapping_sub(4);
                match machine.memory.raw_memory.validate_access(
                    AddressRange { start: next_sp, end: next_sp.wrapping_add(3) },
                    dseg,
                ) {
                    Ok(()) => {},
                    Err(e) => {
                        return Err(MachineError::MemoryAccessError(e));
                    },
                }
                let v = machine.memory.raw_memory.read_u32(csp);
                machine.memory.raw_memory.write_u32(next_sp, v);
                machine.memory.call_stack_ptr = csp.wrapping_add(4);
                machine.memory.data_stack_ptr = next_sp;
                Ok(next)
            },
            OpCode::CallPush32 => {
                let cseg = machine.memory.get_call_stack_segment();
                let dseg = machine.memory.get_data_stack_segment();
                let csp = machine.memory.call_stack_ptr;
                let sp = machine.memory.data_stack_ptr;
                match machine.memory.raw_memory.validate_access(
                    AddressRange { start: sp, end: sp.wrapping_add(3) },
                    dseg,
                ) {
                    Ok(()) => {},
                    Err(e) => {
                        return Err(MachineError::MemoryAccessError(e));
                    },
                }
                let next_csp = csp.wrapping_sub(4);
                match machine.memory.raw_memory.validate_access(
                    AddressRange { start: next_csp, end: next_csp.wrapping_add(3) },
                    cseg,
                ) {
                    Ok(()) => {},
                    Err(e) => {
                        return Err(MachineError::MemoryAccessError(e));
                    },
                }
                let v = machine.memory.raw_memory.read_u32(sp);
                machine.memory.raw_memory.write_u32(next_csp, v);
                machine.memory.data_stack_ptr = sp.wrapping_add(4);
                machine.memory.call_stack_ptr = next_csp;
                Ok(next)
            },
            OpCode::CallRead16 => {
                let v = match machine.memory.call_get_u16() {
                    Ok(v) => v,
                    Err(e) => {
                        return Err(MachineError::MemoryAccessError(e));
                    },
                };
                match machine.memory.data_push_u16(v) {
                    Ok(()) => Ok(next),
                    Err(e) => Err(MachineError::MemoryAccessError(e)),
                }
            },
            OpCode::CallRead32 => {
                let v = match machine.memory.call_get_u32() {
                    Ok(v) => v,
                    Err(e) => {
                        return Err(MachineError::MemoryAccessError(e));
                    },
                };
                match machine.memory.data_push_u32(v) {
                    Ok(()) => Ok(next),
                    Err(e) => Err(MachineError::MemoryAccessError(e)),
                }
            },
            OpCode::Emit => {
                let dseg = machine.memory.get_data_stack_segment();
                let sp = machine.memory.data_stack_ptr;
                match machine.memory.raw_memory.validate_access(
                    AddressRange { start: sp, end: sp.wrapping_add(1) },
                    dseg,
                ) {
                    Ok(()) => {},
                    Err(e) => {
                        return Err(MachineError::MemoryAccessError(e));
                    },
                }
                let char_code = machine.memory.raw_memory.read_u16(sp);
                match machine.output.putc(char_code) {
                    Ok(()) => {},
                    Err(e) => {
                        return Err(MachineError::OutputError(e));
                    },
                }
                machine.memory.data_stack_ptr = sp.wrapping_add(2);
                Ok(next)
            },
            OpCode::PnoInit => {
                machine.memory.clear_pno_buffer();
                Ok(next)
            },
            OpCode::PnoPut => {
                let dseg = machine.memory.get_data_stack_segment();
                let sp = machine.memory.data_stack_ptr;
                match machine.memory.raw_memory.validate_access(
                    AddressRange { start: sp, end: sp.wrapping_add(1) },
                    dseg,
                ) {
                    Ok(()) => {},
                    Err(e) => {
                        return Err(MachineError::MemoryAccessError(e));
                    },
                }
                let ch = machine.memory.raw_memory.read_u16(sp);
                match machine.memory.pno_put((ch % 0x100) as u8) {
                    Ok(()) => {},
                    Err(e) => {
                        return Err(MachineError::MemoryAccessError(e));
                    },
                }
                machine.memory.data_stack_ptr = sp.wrapping_add(2);
                Ok(next)
            },
            OpCode::PnoFinish => {
                let pair = machine.memory.pno_finish();
                validate_ds(&machine.memory, 2, 2)?;
                let sp = machine.memory.data_stack_ptr;
                machine.memory.raw_memory.write_u16(sp.wrapping_add(2), pair.0);
                machine.memory.raw_memory.write_u16(sp, pair.1 as u16);
                Ok(next)
            },
            OpCode::PnoPutDigit => {
                validate_ds(&machine.memory, 2, 2)?;
                let base16 = machine.memory.get_base();
                if base16 == 0 {
                    return Err(MachineError::DivisionByZero);
                }
                let base = base16 as u32;
                let sp = machine.memory.data_stack_ptr;
                let i = machine.memory.raw_memory.read_u32(sp);
                let digit = ((i % base) % 0x100) as u8;
                let digit_char: u8 = if digit < 10 {
                    0x30 + digit
                } else {
                    (0x37u8).wrapping_add(digit)
                };
                match machine.memory.pno_put(digit_char) {
                    Ok(()) => {},
                    Err(e) => {
                        return Err(MachineError::MemoryAccessError(e));
                    },
                }
                machine.memory.raw_memory.write_u32(sp, i / base);
                Ok(next)
            },
            OpCode::EmitString => {
                validate_ds(&machine.memory, 2, 0)?;
                let sp = machine.memory.data_stack_ptr;
                let addr = machine.memory.raw_memory.read_u16(sp.wrapping_add(2));
                let size = machine.memory.raw_memory.read_u16(sp);
                if size > 0 {
                    let full = machine.memory.raw_memory.address_range();
                    match machine.memory.raw_memory.validate_access(
                        AddressRange { start: addr, end: addr.wrapping_add(size - 1) },
                        full,
                    ) {
                        Ok(()) => {},
                        Err(e) => {
                            return Err(MachineError::MemoryAccessError(e));
                        },
                    }
                }
                {
                    let text = machine.memory.raw_memory.address_slice(addr, size as usize);
                    match machine.output.puts(text) {
                        Ok(()) => {},
                        Err(e) => {
                            return Err(MachineError::OutputError(e));
                        },
                    }
                }
                machine.memory.data_stack_ptr = sp.wrapping_add(4);
                Ok(next)
            },
            _ => {
                proof {
                    assert(false);
                }
                Err(MachineError::Exited)
            },
        }
    }
}

/// Executes an `ExecBuiltin` instruction: reads the embedded name and
/// dispatches it to the built-in word table.
#[verifier::rlimit(100)]
#[verifier::spinoff_prover]
fn exec_builtin_op<I: Input, O: Output>(machine: &mut Machine<I, O>, address: Address) -> (r:
    Result<Address, MachineError>)
    requires
        old(machine).wf(),
    ensures
        final(machine).wf(),
        final(machine).memory.same_layout(old(machine).memory),
        final(machine).fuel <= old(machine).fuel,
        op_step(OpCode::ExecBuiltin, old(machine).memory, final(machine).memory, address, r),
        r == Err::<Address, MachineError>(MachineError::OutOfFuel) ==> final(machine).fuel == 0,
{
    let seg = machine.memory.get_used_dict_segment();
    let length = {
        let s = match crate::sized_string::ReadableSizedString::new(
            &machine.memory.raw_memory,
            address.wrapping_add(1),
            seg,
        ) {
            Ok(s) => s,
            Err(e) => {
                return Err(MachineError::MemoryAccessError(e));
            },
        };
        s.read_length()
    };
    proof {
        assert(crate::sized_string::sized_str_no_wrap(
            machine.memory.raw_memory@,
            wadd16(address, 1),
        ));
    }

    let next = address.wrapping_add(2).wrapping_add(length as u16);

    match crate::builtin_words::process_builtin_word(machine, address.wrapping_add(1)) {
        Ok(()) => Ok(next),
        Err(e) => Err(e),
    }
}

/// One fetch-decode-execute step at `ip`: an unknown opcode byte is an
/// error that changes nothing; a known one acts per `op_step`.
pub open spec fn machine_step(
    pre: MachineMemory,
    ip: u16,
    post: MachineMemory,
    r: Result<Address, MachineError>,
) -> bool {
    match OpCode::from_code_spec(pre.raw_memory@[ip as int]) {
        Option::None => post == pre && r == Err::<Address, MachineError>(
            MachineError::IllegalOpCodeError { address: ip, op_code: pre.raw_memory@[ip as int] },
        ),
        Option::Some(op) => op_step(op, pre, post, ip, r),
    }
}

impl OpCode {
    /// Reads the opcode byte at `address`, dispatches, and returns the
    /// address of the next instruction; an unknown byte is an error that
    /// changes nothing, so the instruction pointer does not advance.
    pub fn execute_at<I: Input, O: Output>(
        machine: &mut Machine<I, O>,
        address: Address,
    ) -> (r: Result<Address, MachineError>)
        requires
            old(machine).wf(),
        ensures
            final(machine).wf(),
            final(machine).memory.same_layout(old(machine).memory),
            final(machine).fuel <= old(machine).fuel,
            machine_step(old(machine).memory, address, final(machine).memory, r),
            r == Err::<Address, MachineError>(MachineError::OutOfFuel) ==> final(machine).fuel
                == 0,
    {
        let op_code = machine.memory.raw_memory.read_u8(address);

        match OpCode::from_int(op_code) {
            None => Err(MachineError::IllegalOpCodeError { address, op_code }),
            Some(op) => op.execute(machine, address),
        }
    }

    /// Executes this opcode at `address`: reads any operand, applies the
    /// effect and returns the address of the next instruction.
    #[verifier::rlimit(100)]
    #[verifier::spinoff_prover]
    pub fn execute<I: Input, O: Output>(
        self,
        machine: &mut Machine<I, O>,
        address: Address,
    ) -> (r: Result<Address, MachineError>)
        requires
            old(machine).wf(),
        ensures
            final(machine).wf(),
            final(machine).memory.same_layout(old(machine).memory),
            final(machine).fuel <= old(machine).fuel,
            op_step(self, old(machine).memory, final(machine).memory, address, r),
            r == Err::<Address, MachineError>(MachineError::OutOfFuel) ==> final(machine).fuel
                == 0,
    {
        match self {
            OpCode::DefaultArticleStart => {
                match machine.memory.get_state() {
                    crate::machine_state::MachineState::Interpreter => Ok(
                        address.wrapping_add(1),
                    ),
                    crate::machine_state::MachineState::Compiler => {
                        let here = machine.memory.get_dict_ptr();
                        let free = machine.memory.get_free_data_segment();
                        if machine.memory.data_stack_ptr == 0 {
                            return Err(
                                MachineError::MemoryAccessError(
                                    MemoryAccessError {
                                        access_range: AddressRange {
                                            start: here,
                                            end: here.wrapping_add(2),
                                        },
                                        segment: free,
                                    },
                                ),
                            );
                        }
                        match machine.memory.raw_memory.validate_access(
                            AddressRange { start: here, end: here.wrapping_add(2) },
                            free,
                        ) {
                            Ok(()) => {},
                            Err(e) => {
                                return Err(MachineError::MemoryAccessError(e));
                            },
                        }
                        match machine.memory.dict_write_opcode(OpCode::Call) {
                            Ok(()) => {},
                            Err(e) => {
                                return Err(MachineError::MemoryAccessError(e));
                            },
                        }
                        match machine.memory.dict_write_u16(address.wrapping_add(1)) {
                            Ok(()) => {},
                            Err(e) => {
                                return Err(MachineError::MemoryAccessError(e));
                            },
                        }

                        if machine.memory.call_stack_depth() == 0 {
                            return Err(MachineError::Exited);
                        }

                        match machine.memory.call_pop_u16() {
                            Ok(v) => Ok(v),
                            Err(e) => Err(MachineError::MemoryAccessError(e)),
                        }
                    },
                }
            },
            OpCode::Return => {
                if machine.memory.call_stack_depth() == 0 {
                    return Err(MachineError::Exited);
                }

                match machine.memory.call_pop_u16() {
                    Ok(v) => Ok(v),
                    Err(e) => Err(MachineError::MemoryAccessError(e)),
                }
            },
            OpCode::Call => {
                let seg = machine.memory.get_used_dict_segment();
                match machine.memory.raw_memory.validate_access(
                    AddressRange {
                        start: address.wrapping_add(1),
                        end: address.wrapping_add(2),
                    },
                    seg,
                ) {
                    Ok(()) => {},
                    Err(e) => {
                        return Err(MachineError::MemoryAccessError(e));
                    },
                }

                let target_address = machine.memory.raw_memory.read_u16(address.wrapping_add(1));

                match machine.memory.call_push_u16(address.wrapping_add(3)) {
                    Ok(()) => Ok(target_address),
                    Err(e) => Err(MachineError::MemoryAccessError(e)),
                }
            },
            OpCode::Literal16 => {
                let seg = machine.memory.get_used_dict_segment();
                match machine.memory.raw_memory.validate_access(
                    AddressRange {
                        start: address.wrapping_add(1),
                        end: address.wrapping_add(2),
                    },
                    seg,
                ) {
                    Ok(()) => {},
                    Err(e) => {
                        return Err(MachineError::MemoryAccessError(e));
                    },
                }

                let literal = machine.memory.raw_memory.read_u16(address.wrapping_add(1));

                match machine.memory.data_push_u16(literal) {
                    Ok(()) => Ok(address.wrapping_add(3)),
                    Err(e) => Err(MachineError::MemoryAccessError(e)),
                }
            },
            OpCode::GoTo => {
                let seg = machine.memory.get_used_dict_segment();
                match machine.memory.raw_memory.validate_access(
                    AddressRange {
                        start: address.wrapping_add(1),
                        end: address.wrapping_add(2),
                    },
                    seg,
                ) {
                    Ok(()) => {},
                    Err(e) => {
                        return Err(MachineError::MemoryAccessError(e));
                    },
                }

                Ok(machine.memory.raw_memory.read_u16(address.wrapping_add(1)))
            },
            OpCode::GoToIfZ => {
                let dseg = machine.memory.get_data_stack_segment();
                let sp = machine.memory.data_stack_ptr;
                match machine.memory.raw_memory.validate_access(
                    AddressRange { start: sp, end: sp.wrapping_add(1) },
                    dseg,
                ) {
                    Ok(()) => {},
                    Err(e) => {
                        return Err(MachineError::MemoryAccessError(e));
                    },
                }
                let value = machine.memory.raw_memory.read_u16(sp);

                if value == 0 {
                    let seg = machine.memory.get_used_dict_segment();
                    match machine.memory.raw_memory.validate_access(
                        AddressRange {
                            start: address.wrapping_add(1),
                            end: address.wrapping_add(2),
                        },
                        seg,
                    ) {
                        Ok(()) => {},
                        Err(e) => {
                            return Err(MachineError::MemoryAccessError(e));
                        },
                    }

                    machine.memory.data_stack_ptr = sp.wrapping_add(2);
                    Ok(machine.memory.raw_memory.read_u16(address.wrapping_add(1)))
                } else {
                    machine.memory.data_stack_ptr = sp.wrapping_add(2);
                    Ok(address.wrapping_add(3))
                }
            },
            OpCode::LiteralString => {
                let seg = machine.memory.get_used_dict_segment();
                let (length, content_address) = {
                    let s = match crate::sized_string::ReadableSizedString::new(
                        &machine.memory.raw_memory,
                        address.wrapping_add(1),
                        seg,
                    ) {
                        Ok(s) => s,
                        Err(e) => {
                            return Err(MachineError::MemoryAccessError(e));
                        },
                    };
                    (s.read_length(), s.content_address())
                };

                match validate_ds(&machine.memory, 0, 2) {
                    Ok(()) => {},
                    Err(e) => {
                        return Err(e);
                    },
                }

                let sp = machine.memory.data_stack_ptr;
                machine.memory.raw_memory.write_u16(sp.wrapping_sub(2), content_address);
                machine.memory.raw_memory.write_u16(sp.wrapping_sub(4), length as u16);
                machine.memory.data_stack_ptr = sp.wrapping_sub(4);

                Ok(content_address.wrapping_add(length as u16))
            },
            OpCode::ExecBuiltin => exec_builtin_op(machine, address),
            _ => self.execute_simple(machine, address),
        }
    }
}

/// Validates the byte range a data-stack effect touches, up front.
fn validate_ds(mem: &MachineMemory, in_w: u16, out_w: u16) -> (r: Result<(), MachineError>)
    requires
        mem.wf(),
    ensures
        r is Ok <==> ds_ok(*mem, in_w, out_w),
        r is Err ==> r matches Err(MachineError::MemoryAccessError(_)),
{
    let shape = EffectShape { input_words: in_w, output_words: out_w };
    let seg = mem.get_data_stack_segment();
    match shape.validate_access(&mem.raw_memory, mem.data_stack_ptr, seg) {
        Ok(()) => Ok(()),
        Err(e) => Err(MachineError::MemoryAccessError(e)),
    }
}

/// The result of a two-operand opcode, computed.
fn binop16_exec(op: OpCode, a: u16, b: u16) -> (r: u16)
    requires
        op.is_binop16(),
    ensures
        r == binop16_result(op, a, b),
{
    match op {
        OpCode::Add16 => a.wrapping_add(b),
        OpCode::Sub16 => a.wrapping_sub(b),
        OpCode::Mul16 => a.wrapping_mul(b),
        OpCode::And16 => a & b,
        OpCode::Or16 => a | b,
        OpCode::Xor16 => a ^ b,
        OpCode::Eq16 => if a == b {
            0xFFFF
        } else {
            0
        },
        OpCode::Lt16 => if (a as i16) < (b as i16) {
            0xFFFF
        } else {
            0
        },
        _ => if (a as i16) > (b as i16) {
            0xFFFF
        } else {
            0
        },
    }
}

/// The byte range a data-stack effect with these word counts touches lies
/// inside the data-stack segment.
pub open spec fn ds_ok(pre: MachineMemory, in_w: u16, out_w: u16) -> bool {
    effect_range(in_w, out_w, pre.data_stack_ptr).within(pre.data_segment())
}

/// The data-stack pointer after an effect with these word counts.
pub open spec fn ds_sp(pre: MachineMemory, in_w: u16, out_w: u16) -> u16 {
    effect_resulting_ptr(in_w, out_w, pre.data_stack_ptr)
}

/// The opcode committed a data-stack effect: the pointer moved, the arena
/// holds `m2`, and everything else is untouched.
pub open spec fn data_step(
    pre: MachineMemory,
    post: MachineMemory,
    in_w: u16,
    out_w: u16,
    m2: Seq<u8>,
) -> bool {
    &&& post.data_op_frame(pre)
    &&& post.data_stack_ptr == ds_sp(pre, in_w, out_w)
    &&& post.raw_memory@ == m2
}

/// A raw store committed: the popped cells left the stack and the arena
/// holds `m2`. The store may land anywhere, the reserved variables
/// included, so nothing is claimed of them.
pub open spec fn store_step(
    pre: MachineMemory,
    post: MachineMemory,
    in_w: u16,
    m2: Seq<u8>,
) -> bool {
    &&& post.wf()
    &&& post.same_layout(pre)
    &&& post.last_article_ptr == pre.last_article_ptr
    &&& post.call_stack_ptr == pre.call_stack_ptr
    &&& post.data_stack_ptr == ds_sp(pre, in_w, 0)
    &&& post.raw_memory@ == m2
}

/// The opcode failed its up-front validation: nothing changed and a memory
/// error came back.
pub open spec fn op_failed(
    pre: MachineMemory,
    post: MachineMemory,
    r: Result<Address, MachineError>,
) -> bool {
    post == pre && r matches Err(MachineError::MemoryAccessError(_))
}

/// The call stack holds no complete cell.
pub open spec fn call_depth0(pre: MachineMemory) -> bool {
    pre.reserved() - pre.call_stack_ptr < 2
}

/// The result of a two-operand opcode on `a` (the deeper cell) and `b`
/// (the top cell).
pub open spec fn binop16_result(op: OpCode, a: u16, b: u16) -> u16 {
    match op {
        OpCode::Add16 => wadd16(a, b),
        OpCode::Sub16 => wsub16(a, b),
        OpCode::Mul16 => wmul16(a, b),
        OpCode::And16 => a & b,
        OpCode::Or16 => a | b,
        OpCode::Xor16 => a ^ b,
        OpCode::Eq16 => if a == b {
            0xFFFF
        } else {
            0
        },
        OpCode::Lt16 => if (a as i16) < (b as i16) {
            0xFFFF
        } else {
            0
        },
        OpCode::Gt16 => if (a as i16) > (b as i16) {
            0xFFFF
        } else {
            0
        },
        _ => 0,
    }
}

/// The signed absolute value of the cell, wrapping on the minimum: a cell
/// at or above `0x8000` stands for a negative number.
pub open spec fn abs16_result(a: u16) -> u16 {
    if a == 0x8000 {
        a
    } else if a >= 0x8000 {
        (0x10000 - a) as u16
    } else {
        a
    }
}

/// The ASCII character for one digit: `0`-`9`, then `A`-`Z` and beyond.
pub open spec fn pno_digit_char(d: u8) -> u8 {
    if d < 10 {
        (0x30 + d) as u8
    } else {
        ((0x37 + d) % 0x100) as u8
    }
}

/// What executing opcode `op` at address `ip` does: how the memory moves
/// from `pre` to `post` and what comes back. Bytes written to the output
/// and bytes read from the input are not modelled here; for `ExecBuiltin`
/// the built-in dispatcher's own contract applies.
/// What executing one of the simple opcodes at address `ip` does: how the
/// memory moves from `pre` to `post` and what comes back. The control
/// opcodes are described by `op_step`, which delegates here for the rest;
/// for them this relation claims nothing. Kept opaque so that callers that
/// only pass the relation along do not pay for its size.
#[verifier::opaque]
pub open spec fn simple_step(
    op: OpCode,
    pre: MachineMemory,
    post: MachineMemory,
    ip: u16,
    r: Result<Address, MachineError>,
) -> bool {
    let sp = pre.data_stack_ptr;
    let csp = pre.call_stack_ptr;
    let m = pre.raw_memory@;
    let next = wadd16(ip, 1);
    match op {
        OpCode::Noop => post == pre && r == Ok::<Address, MachineError>(next),
        OpCode::CallPop16 => {
            if get16_ok(csp, pre.call_segment()) && push16_ok(sp, pre.data_segment()) {
                let v = mem_read16(m, csp as int);
                &&& post.mem_op_frame(pre)
                &&& post.call_stack_ptr == wadd16(csp, 2)
                &&& post.data_stack_ptr == wsub16(sp, 2)
                &&& post.raw_memory@ == mem_write16(m, wsub16(sp, 2) as int, v)
                &&& r == Ok::<Address, MachineError>(next)
            } else {
                op_failed(pre, post, r)
            }
        },
        OpCode::CallPush16 => {
            if get16_ok(sp, pre.data_segment()) && push16_ok(csp, pre.call_segment()) {
                let v = mem_read16(m, sp as int);
                &&& post.mem_op_frame(pre)
                &&& post.data_stack_ptr == wadd16(sp, 2)
                &&& post.call_stack_ptr == wsub16(csp, 2)
                &&& post.raw_memory@ == mem_write16(m, wsub16(csp, 2) as int, v)
                &&& r == Ok::<Address, MachineError>(next)
            } else {
                op_failed(pre, post, r)
            }
        },
        OpCode::CallPop32 => {
            if crate::machine_memory::get32_ok(csp, pre.call_segment())
                && crate::machine_memory::push32_ok(sp, pre.data_segment()) {
                let v = mem_read32(m, csp as int);
                &&& post.mem_op_frame(pre)
                &&& post.call_stack_ptr == wadd16(csp, 4)
                &&& post.data_stack_ptr == wsub16(sp, 4)
                &&& post.raw_memory@ == mem_write32(m, wsub16(sp, 4) as int, v)
                &&& r == Ok::<Address, MachineError>(next)
            } else {
                op_failed(pre, post, r)
            }
        },
        OpCode::CallPush32 => {
            if crate::machine_memory::get32_ok(sp, pre.data_segment())
                && crate::machine_memory::push32_ok(csp, pre.call_segment()) {
                let v = mem_read32(m, sp as int);
                &&& post.mem_op_frame(pre)
                &&& post.data_stack_ptr == wadd16(sp, 4)
                &&& post.call_stack_ptr == wsub16(csp, 4)
                &&& post.raw_memory@ == mem_write32(m, wsub16(csp, 4) as int, v)
                &&& r == Ok::<Address, MachineError>(next)
            } else {
                op_failed(pre, post, r)
            }
        },
        OpCode::CallRead16 => {
            if !get16_ok(csp, pre.call_segment()) {
                op_failed(pre, post, r)
            } else {
                let v = mem_read16(m, csp as int);
                if push16_ok(sp, pre.data_segment()) {
                    &&& post.data_op_frame(pre)
                    &&& post.data_stack_ptr == wsub16(sp, 2)
                    &&& post.raw_memory@ == mem_write16(m, wsub16(sp, 2) as int, v)
                    &&& r == Ok::<Address, MachineError>(next)
                } else {
                    op_failed(pre, post, r)
                }
            }
        },
        OpCode::CallRead32 => {
            if !crate::machine_memory::get32_ok(csp, pre.call_segment()) {
                op_failed(pre, post, r)
            } else {
                let v = mem_read32(m, csp as int);
                if crate::machine_memory::push32_ok(sp, pre.data_segment()) {
                    &&& post.data_op_frame(pre)
                    &&& post.data_stack_ptr == wsub16(sp, 4)
                    &&& post.raw_memory@ == mem_write32(m, wsub16(sp, 4) as int, v)
                    &&& r == Ok::<Address, MachineError>(next)
                } else {
                    op_failed(pre, post, r)
                }
            }
        },
        OpCode::Dup16 => {
            if ds_ok(pre, 1, 2) {
                data_step(pre, post, 1, 2, mem_write16(m, wsub16(sp, 2) as int, mem_read16(m, sp as int)))
                    && r == Ok::<Address, MachineError>(next)
            } else {
                op_failed(pre, post, r)
            }
        },
        OpCode::Dup32 => {
            if ds_ok(pre, 2, 4) {
                data_step(pre, post, 2, 4, mem_write32(m, wsub16(sp, 4) as int, mem_read32(m, sp as int)))
                    && r == Ok::<Address, MachineError>(next)
            } else {
                op_failed(pre, post, r)
            }
        },
        OpCode::Over16 => {
            if ds_ok(pre, 2, 3) {
                data_step(
                    pre,
                    post,
                    2,
                    3,
                    mem_write16(m, wsub16(sp, 2) as int, mem_read16(m, wadd16(sp, 2) as int)),
                ) && r == Ok::<Address, MachineError>(next)
            } else {
                op_failed(pre, post, r)
            }
        },
        OpCode::Over32 => {
            if ds_ok(pre, 4, 6) {
                data_step(
                    pre,
                    post,
                    4,
                    6,
                    mem_write32(m, wsub16(sp, 4) as int, mem_read32(m, wadd16(sp, 4) as int)),
                ) && r == Ok::<Address, MachineError>(next)
            } else {
                op_failed(pre, post, r)
            }
        },
        OpCode::Swap16 => {
            if ds_ok(pre, 2, 2) {
                data_step(
                    pre,
                    post,
                    2,
                    2,
                    mem_write16(
                        mem_write16(m, wadd16(sp, 2) as int, mem_read16(m, sp as int)),
                        sp as int,
                        mem_read16(m, wadd16(sp, 2) as int),
                    ),
                ) && r == Ok::<Address, MachineError>(next)
            } else {
                op_failed(pre, post, r)
            }
        },
        OpCode::Swap32 => {
            if ds_ok(pre, 4, 4) {
                data_step(
                    pre,
                    post,
                    4,
                    4,
                    mem_write32(
                        mem_write32(m, wadd16(sp, 4) as int, mem_read32(m, sp as int)),
                        sp as int,
                        mem_read32(m, wadd16(sp, 4) as int),
                    ),
                ) && r == Ok::<Address, MachineError>(next)
            } else {
                op_failed(pre, post, r)
            }
        },
        OpCode::Rot16 => {
            if ds_ok(pre, 3, 3) {
                data_step(
                    pre,
                    post,
                    3,
                    3,
                    mem_write16(
                        mem_write16(
                            mem_write16(m, wadd16(sp, 4) as int, mem_read16(m, wadd16(sp, 2) as int)),
                            wadd16(sp, 2) as int,
                            mem_read16(m, sp as int),
                        ),
                        sp as int,
                        mem_read16(m, wadd16(sp, 4) as int),
                    ),
                ) && r == Ok::<Address, MachineError>(next)
            } else {
                op_failed(pre, post, r)
            }
        },
        OpCode::Drop16 => {
            if get16_ok(sp, pre.data_segment()) {
                &&& post.data_op_frame(pre)
                &&& post.data_stack_ptr == wadd16(sp, 2)
                &&& post.raw_memory == pre.raw_memory
                &&& r == Ok::<Address, MachineError>(next)
            } else {
                op_failed(pre, post, r)
            }
        },
        OpCode::Add16 | OpCode::Sub16 | OpCode::Mul16 | OpCode::And16 | OpCode::Or16
            | OpCode::Xor16 | OpCode::Eq16 | OpCode::Lt16 | OpCode::Gt16 => {
            if ds_ok(pre, 2, 1) {
                let a = mem_read16(m, wadd16(sp, 2) as int);
                let b = mem_read16(m, sp as int);
                data_step(
                    pre,
                    post,
                    2,
                    1,
                    mem_write16(m, wadd16(sp, 2) as int, binop16_result(op, a, b)),
                ) && r == Ok::<Address, MachineError>(next)
            } else {
                op_failed(pre, post, r)
            }
        },
        OpCode::Div16 => {
            if ds_ok(pre, 2, 1) {
                let a = mem_read16(m, wadd16(sp, 2) as int);
                let b = mem_read16(m, sp as int);
                if b == 0 {
                    post == pre && r == Err::<Address, MachineError>(MachineError::DivisionByZero)
                } else {
                    data_step(pre, post, 2, 1, mem_write16(m, wadd16(sp, 2) as int, a / b)) && r
                        == Ok::<Address, MachineError>(next)
                }
            } else {
                op_failed(pre, post, r)
            }
        },
        OpCode::Invert16 => {
            if ds_ok(pre, 1, 1) {
                data_step(pre, post, 1, 1, mem_write16(m, sp as int, !mem_read16(m, sp as int)))
                    && r == Ok::<Address, MachineError>(next)
            } else {
                op_failed(pre, post, r)
            }
        },
        OpCode::Abs16 => {
            if ds_ok(pre, 1, 1) {
                data_step(
                    pre,
                    post,
                    1,
                    1,
                    mem_write16(m, sp as int, abs16_result(mem_read16(m, sp as int))),
                ) && r == Ok::<Address, MachineError>(next)
            } else {
                op_failed(pre, post, r)
            }
        },
        OpCode::I16ToI32 => {
            if ds_ok(pre, 1, 2) {
                data_step(
                    pre,
                    post,
                    1,
                    2,
                    mem_write32(
                        m,
                        wsub16(sp, 2) as int,
                        ((mem_read16(m, sp as int) as i16) as i32) as u32,
                    ),
                ) && r == Ok::<Address, MachineError>(next)
            } else {
                op_failed(pre, post, r)
            }
        },
        OpCode::Load8 => {
            if ds_ok(pre, 1, 1) {
                let target = mem_read16(m, sp as int);
                data_step(pre, post, 1, 1, mem_write16(m, sp as int, m[target as int] as u16)) && r
                    == Ok::<Address, MachineError>(next)
            } else {
                op_failed(pre, post, r)
            }
        },
        OpCode::Store8 => {
            if ds_ok(pre, 2, 0) {
                let target = mem_read16(m, sp as int);
                let v = mem_read16(m, wadd16(sp, 2) as int);
                store_step(pre, post, 2, m.update(target as int, (v % 0x100) as u8)) && r
                    == Ok::<Address, MachineError>(next)
            } else {
                op_failed(pre, post, r)
            }
        },
        OpCode::Load16 => {
            if ds_ok(pre, 1, 1) {
                let target = mem_read16(m, sp as int);
                if target < 0xFFFF {
                    data_step(pre, post, 1, 1, mem_write16(m, sp as int, mem_read16(m, target as int)))
                        && r == Ok::<Address, MachineError>(next)
                } else {
                    op_failed(pre, post, r)
                }
            } else {
                op_failed(pre, post, r)
            }
        },
        OpCode::Store16 => {
            if ds_ok(pre, 2, 0) {
                let target = mem_read16(m, sp as int);
                let v = mem_read16(m, wadd16(sp, 2) as int);
                if target < 0xFFFF {
                    store_step(pre, post, 2, mem_write16(m, target as int, v)) && r == Ok::<
                        Address,
                        MachineError,
                    >(next)
                } else {
                    op_failed(pre, post, r)
                }
            } else {
                op_failed(pre, post, r)
            }
        },
        OpCode::Load32 => {
            if ds_ok(pre, 1, 2) {
                let target = mem_read16(m, sp as int);
                if target < 0xFFFD {
                    data_step(
                        pre,
                        post,
                        1,
                        2,
                        mem_write32(m, wsub16(sp, 2) as int, mem_read32(m, target as int)),
                    ) && r == Ok::<Address, MachineError>(next)
                } else {
                    op_failed(pre, post, r)
                }
            } else {
                op_failed(pre, post, r)
            }
        },
        OpCode::Store32 => {
            if ds_ok(pre, 3, 0) {
                let target = mem_read16(m, sp as int);
                let v = mem_read32(m, wadd16(sp, 2) as int);
                if target < 0xFFFD {
                    store_step(pre, post, 3, mem_write32(m, target as int, v)) && r == Ok::<
                        Address,
                        MachineError,
                    >(next)
                } else {
                    op_failed(pre, post, r)
                }
            } else {
                op_failed(pre, post, r)
            }
        },
        OpCode::Emit => {
            if get16_ok(sp, pre.data_segment()) {
                &&& (r is Ok ==> post.data_op_frame(pre) && post.data_stack_ptr == wadd16(sp, 2)
                    && post.raw_memory == pre.raw_memory && r == Ok::<Address, MachineError>(next))
                &&& (r is Err ==> post == pre && r matches Err(MachineError::OutputError(_)))
            } else {
                op_failed(pre, post, r)
            }
        },
        OpCode::PnoInit => {
            &&& post.same_regs(pre)
            &&& post.raw_memory@ == m.update(PNO_START as int, 0u8)
            &&& post.wf()
            &&& r == Ok::<Address, MachineError>(next)
        },
        OpCode::PnoPut => {
            if get16_ok(sp, pre.data_segment()) && pre.pno_len() < 127 {
                let v = mem_read16(m, sp as int);
                &&& post.data_op_frame(pre)
                &&& post.data_stack_ptr == wadd16(sp, 2)
                &&& post.raw_memory@ == m.update(
                    (0xFFFF - pre.pno_len()) as int,
                    (v % 0x100) as u8,
                ).update(PNO_START as int, (pre.pno_len() + 1) as u8)
                &&& r == Ok::<Address, MachineError>(next)
            } else {
                op_failed(pre, post, r)
            }
        },
        OpCode::PnoFinish => {
            if ds_ok(pre, 2, 2) {
                let size = pre.pno_len();
                let addr = wadd16(wsub16(0xFFFF, size as u16), 1);
                data_step(
                    pre,
                    post,
                    2,
                    2,
                    mem_write16(
                        mem_write16(m, wadd16(sp, 2) as int, addr),
                        sp as int,
                        size as u16,
                    ),
                ) && r == Ok::<Address, MachineError>(next)
            } else {
                op_failed(pre, post, r)
            }
        },
        OpCode::PnoPutDigit => {
            if !ds_ok(pre, 2, 2) {
                op_failed(pre, post, r)
            } else if pre.base() == 0 {
                post == pre && r == Err::<Address, MachineError>(MachineError::DivisionByZero)
            } else if pre.pno_len() >= 127 {
                op_failed(pre, post, r)
            } else {
                let i = mem_read32(m, sp as int);
                let base = pre.base() as u32;
                let digit = ((i % base) % 0x100) as u8;
                &&& post.data_op_frame(pre)
                &&& post.data_stack_ptr == sp
                &&& post.raw_memory@ == mem_write32(
                    m.update((0xFFFF - pre.pno_len()) as int, pno_digit_char(digit)).update(
                        PNO_START as int,
                        (pre.pno_len() + 1) as u8,
                    ),
                    sp as int,
                    i / base,
                )
                &&& r == Ok::<Address, MachineError>(next)
            }
        },
        OpCode::EmitString => {
            if ds_ok(pre, 2, 0) {
                &&& (r is Ok ==> post.data_op_frame(pre) && post.data_stack_ptr == wadd16(sp, 4)
                    && post.raw_memory == pre.raw_memory && r == Ok::<Address, MachineError>(next))
                &&& (r is Err ==> post == pre)
            } else {
                op_failed(pre, post, r)
            }
        },
        _ => true,
    }
}

pub open spec fn op_step(
    op: OpCode,
    pre: MachineMemory,
    post: MachineMemory,
    ip: u16,
    r: Result<Address, MachineError>,
) -> bool {
    let sp = pre.data_stack_ptr;
    let csp = pre.call_stack_ptr;
    let m = pre.raw_memory@;
    let next = wadd16(ip, 1);
    match op {
        OpCode::DefaultArticleStart => {
            if pre.state() is Interpreter {
                post == pre && r == Ok::<Address, MachineError>(next)
            } else {
                let here = pre.here();
                if !(here + 3 <= sp) {
                    op_failed(pre, post, r)
                } else {
                    {
                        let m2 = mem_write16(
                            mem_write16(
                                mem_write16(
                                    m.update(here as int, OpCode::Call.code_spec()),
                                    RESERVED_START as int,
                                    (here + 1) as u16,
                                ),
                                here + 1,
                                next,
                            ),
                            RESERVED_START as int,
                            (here + 3) as u16,
                        );
                        if call_depth0(pre) {
                            &&& post.same_regs(pre)
                            &&& post.wf()
                            &&& post.raw_memory@ == m2
                            &&& r == Err::<Address, MachineError>(MachineError::Exited)
                        } else {
                            &&& post.wf()
                            &&& post.same_layout(pre)
                            &&& post.last_article_ptr == pre.last_article_ptr
                            &&& post.data_stack_ptr == sp
                            &&& post.call_stack_ptr == wadd16(csp, 2)
                            &&& post.raw_memory@ == m2
                            &&& r == Ok::<Address, MachineError>(mem_read16(m2, csp as int))
                        }
                    }
                }
            }
        },
        OpCode::Return => {
            if call_depth0(pre) {
                post == pre && r == Err::<Address, MachineError>(MachineError::Exited)
            } else {
                &&& post.call_op_frame(pre)
                &&& post.raw_memory == pre.raw_memory
                &&& post.call_stack_ptr == wadd16(csp, 2)
                &&& r == Ok::<Address, MachineError>(mem_read16(m, csp as int))
            }
        },
        OpCode::Call => {
            if !(AddressRange { start: wadd16(ip, 1), end: wadd16(ip, 2) }).within(
                pre.dict_segment(),
            ) {
                op_failed(pre, post, r)
            } else {
                let target = mem_read16(m, wadd16(ip, 1) as int);
                if push16_ok(csp, pre.call_segment()) {
                    &&& post.call_op_frame(pre)
                    &&& post.call_stack_ptr == wsub16(csp, 2)
                    &&& post.raw_memory@ == mem_write16(m, wsub16(csp, 2) as int, wadd16(ip, 3))
                    &&& r == Ok::<Address, MachineError>(target)
                } else {
                    op_failed(pre, post, r)
                }
            }
        },
        OpCode::Literal16 => {
            if !(AddressRange { start: wadd16(ip, 1), end: wadd16(ip, 2) }).within(
                pre.dict_segment(),
            ) {
                op_failed(pre, post, r)
            } else {
                let v = mem_read16(m, wadd16(ip, 1) as int);
                if push16_ok(sp, pre.data_segment()) {
                    &&& post.data_op_frame(pre)
                    &&& post.data_stack_ptr == wsub16(sp, 2)
                    &&& post.raw_memory@ == mem_write16(m, wsub16(sp, 2) as int, v)
                    &&& r == Ok::<Address, MachineError>(wadd16(ip, 3))
                } else {
                    op_failed(pre, post, r)
                }
            }
        },
        OpCode::LiteralString => {
            let str_addr = wadd16(ip, 1);
            if !crate::sized_string::sized_str_valid(m, str_addr, pre.dict_segment()) {
                op_failed(pre, post, r)
            } else {
                let len = crate::sized_string::sized_str_len(m, str_addr);
                if ds_ok(pre, 0, 2) {
                    &&& data_step(
                        pre,
                        post,
                        0,
                        2,
                        mem_write16(
                            mem_write16(m, wsub16(sp, 2) as int, wadd16(ip, 2)),
                            wsub16(sp, 4) as int,
                            len as u16,
                        ),
                    )
                    &&& r == Ok::<Address, MachineError>(wadd16(wadd16(ip, 2), len as u16))
                } else {
                    op_failed(pre, post, r)
                }
            }
        },
        OpCode::GoTo => {
            if !(AddressRange { start: wadd16(ip, 1), end: wadd16(ip, 2) }).within(
                pre.dict_segment(),
            ) {
                op_failed(pre, post, r)
            } else {
                post == pre && r == Ok::<Address, MachineError>(mem_read16(m, wadd16(ip, 1) as int))
            }
        },
        OpCode::GoToIfZ => {
            if !get16_ok(sp, pre.data_segment()) {
                op_failed(pre, post, r)
            } else {
                let v = mem_read16(m, sp as int);
                let popped = post.data_op_frame(pre) && post.data_stack_ptr == wadd16(sp, 2)
                    && post.raw_memory == pre.raw_memory;
                if v != 0 {
                    popped && r == Ok::<Address, MachineError>(wadd16(ip, 3))
                } else {
                    if (AddressRange { start: wadd16(ip, 1), end: wadd16(ip, 2) }).within(
                        pre.dict_segment(),
                    ) {
                        popped && r == Ok::<Address, MachineError>(
                            mem_read16(m, wadd16(ip, 1) as int),
                        )
                    } else {
                        op_failed(pre, post, r)
                    }
                }
            }
        },
        OpCode::ExecBuiltin => {
            let str_addr = wadd16(ip, 1);
            if !crate::sized_string::sized_str_valid(m, str_addr, pre.dict_segment()) {
                op_failed(pre, post, r)
            } else {
                let len = crate::sized_string::sized_str_len(m, str_addr);
                &&& crate::builtin_words::builtin_step(
                    crate::sized_string::sized_str_bytes(m, str_addr),
                    str_addr,
                    pre,
                    post,
                    match r {
                        Ok(_) => Ok(()),
                        Err(e) => Err(e),
                    },
                )
                &&& (r is Ok ==> r == Ok::<Address, MachineError>(
                    wadd16(wadd16(ip, 2), len as u16),
                ))
            }
        },
        _ => simple_step(op, pre, post, ip, r),
    }
}

} // verus!
