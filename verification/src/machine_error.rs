//! The runtime error surface delivered up from the machine.

use vstd::prelude::*;

use crate::input::InputError;
use crate::machine::MachineMode;
use crate::mem::{Address, MemoryAccessError};
use crate::output::OutputError;
use vstd::string::StringExecFns;

verus! {

#[derive(Debug)]
pub enum MachineError {
    MemoryAccessError(MemoryAccessError),
    InputError(InputError),
    UnexpectedInputEOF,
    OutputError(OutputError),
    IllegalOpCodeError { address: Address, op_code: u8 },
    IllegalWord(Option<Address>),
    NoArticle,
    UnexpectedArticleType,
    IllegalMode { expected: MachineMode, actual: MachineMode },
    IllegalCompilerState,
    /// A cell was divided by zero.
    DivisionByZero,
    /// The machine's step budget ran out.
    OutOfFuel,
    /// Internal sentinel: the outermost definition returned. Not surfaced to
    /// the user.
    Exited,
}

/// One decimal digit as a static string.
pub(crate) fn digit_str(d: u16) -> (r: &'static str)
    requires
        d < 10,
{
    match d {
        0 => "0",
        1 => "1",
        2 => "2",
        3 => "3",
        4 => "4",
        5 => "5",
        6 => "6",
        7 => "7",
        8 => "8",
        _ => "9",
    }
}

/// Appends the decimal digits of `n` to `out`.
pub(crate) fn append_u16_dec(out: &mut String, n: u16)
    decreases n,
{
    if n >= 10 {
        append_u16_dec(out, n / 10);
    }
    out.append(digit_str(n % 10));
}

/// Appends an inclusive address range to `out`.
pub(crate) fn append_range(out: &mut String, range: &crate::mem::AddressRange) {
    append_u16_dec(out, range.start);
    out.append("..=");
    append_u16_dec(out, range.end);
}

impl MachineError {
    /// A human-readable description of the error.
    pub fn pretty_print(&self) -> String {
        let mut out = String::new();
        match self {
            MachineError::MemoryAccessError(e) => {
                out.append("illegal memory access attempt at ");
                append_range(&mut out, &e.access_range);
                out.append(" (allowed range is ");
                append_range(&mut out, &e.segment);
                out.append(")");
            },
            MachineError::InputError(input_err) => {
                match input_err {
                    InputError::StdIOError(text) => {
                        out.append("input error: ");
                        out.append(text.as_str());
                    },
                    InputError::IllegalOffset => {
                        out.append("illegal input offset requested");
                    },
                    InputError::BufferOverflow => {
                        out.append("input buffer overflow");
                    },
                    InputError::OutOfFuel => {
                        out.append("input step budget exhausted");
                    },
                }
            },
            MachineError::UnexpectedInputEOF => {
                out.append("unexpected end of input");
            },
            MachineError::OutputError(output_err) => {
                match output_err {
                    crate::output::OutputError::StdIOError(text) => {
                        out.append("output error: ");
                        out.append(text.as_str());
                    },
                }
            },
            MachineError::IllegalOpCodeError { address, op_code } => {
                out.append("illegal op-code ");
                append_u16_dec(&mut out, *op_code as u16);
                out.append(" at address ");
                append_u16_dec(&mut out, *address);
            },
            MachineError::IllegalWord(name_address) => {
                out.append("illegal word");
                if let Some(addr) = name_address {
                    out.append(" (name at address ");
                    append_u16_dec(&mut out, *addr);
                    out.append(")");
                }
            },
            MachineError::NoArticle => {
                out.append("no article defined yet");
            },
            MachineError::UnexpectedArticleType => {
                out.append("unexpected article type");
            },
            MachineError::IllegalMode { expected, actual } => {
                out.append("expected ");
                out.append(expected.describe());
                out.append(" mode, found ");
                out.append(actual.describe());
                out.append(" mode");
            },
            MachineError::IllegalCompilerState => {
                out.append("illegal compiler state");
            },
            MachineError::DivisionByZero => {
                out.append("division by zero");
            },
            MachineError::OutOfFuel => {
                out.append("step budget exhausted");
            },
            MachineError::Exited => {
                out.append("exited");
            },
        }
        out
    }
}

} // verus!
