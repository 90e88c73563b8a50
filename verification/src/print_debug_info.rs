//! Debug reports: the memory state, the article list and a disassembly of
//! the dictionary, rendered as text for the host to print.

use vstd::prelude::*;
use vstd::string::StringExecFns;

use crate::input::Input;
use crate::machine::Machine;
use crate::machine_error::append_u16_dec;
use crate::machine_memory::MachineMemory;
use crate::mem::Address;
use crate::opcodes::OpCode;
use crate::output::Output;
use crate::readable_article::ReadableArticle;
use crate::sized_string::{sized_str_no_wrap, ReadableSizedString};

verus! {

/// One hexadecimal digit as a static string.
fn hex_digit_str(d: u16) -> (r: &'static str)
    requires
        d < 16,
{
    match d {
        0 => "0",
        1 => "1",
        2 => "2",
        3 => "3",
        4 => "4",
        5 => "5",
        6 => "6",
        7 => "7",
        8 => "8",
        9 => "9",
        10 => "A",
        11 => "B",
        12 => "C",
        13 => "D",
        14 => "E",
        _ => "F",
    }
}

/// Appends an address as four hexadecimal digits.
fn append_u16_hex(out: &mut String, n: u16) {
    out.append(hex_digit_str(n / 0x1000));
    out.append(hex_digit_str((n / 0x100) % 16));
    out.append(hex_digit_str((n / 16) % 16));
    out.append(hex_digit_str(n % 16));
}

/// Appends the name of the sized string at `address` where it is readable,
/// byte by byte; unprintable bytes appear as `?`.
fn append_name(out: &mut String, memory: &MachineMemory, address: Address)
    requires
        memory.wf(),
{
    let length = memory.raw_memory.read_u8(address) as u32;
    if address as u32 + 1 + length <= 0x10000 {
        proof {
            assert(sized_str_no_wrap(memory.raw_memory@, address));
        }
        let s = ReadableSizedString::new_unchecked(&memory.raw_memory, address);
        let bytes = s.as_bytes();
        let n: usize = bytes.len();
        let mut i: usize = 0;
        while i < n
            invariant
                n == bytes@.len(),
            decreases n - i,
        {
            let b = bytes[i];
            if 0x21 <= b && b <= 0x7E {
                out.append(byte_str(b));
            } else {
                out.append("?");
            }
            i = i + 1;
        }
    } else {
        out.append("(unreadable name)");
    }
}

/// One printable ASCII byte as a static string.
fn byte_str(b: u8) -> (r: &'static str)
    requires
        0x21 <= b <= 0x7E,
{
    let r: &'static str = match b {
        0x21 => "!",
        0x22 => "\"",
        0x23 => "#",
        0x24 => "$",
        0x25 => "%",
        0x26 => "&",
        0x27 => "'",
        0x28 => "(",
        0x29 => ")",
        0x2A => "*",
        0x2B => "+",
        0x2C => ",",
        0x2D => "-",
        0x2E => ".",
        0x2F => "/",
        0x30 => "0",
        0x31 => "1",
        0x32 => "2",
        0x33 => "3",
        0x34 => "4",
        0x35 => "5",
        0x36 => "6",
        0x37 => "7",
        0x38 => "8",
        0x39 => "9",
        0x3A => ":",
        0x3B => ";",
        0x3C => "<",
        0x3D => "=",
        0x3E => ">",
        0x3F => "?",
        0x40 => "@",
        0x41 => "A",
        0x42 => "B",
        0x43 => "C",
        0x44 => "D",
        0x45 => "E",
        0x46 => "F",
        0x47 => "G",
        0x48 => "H",
        0x49 => "I",
        0x4A => "J",
        0x4B => "K",
        0x4C => "L",
        0x4D => "M",
        0x4E => "N",
        0x4F => "O",
        0x50 => "P",
        0x51 => "Q",
        0x52 => "R",
        0x53 => "S",
        0x54 => "T",
        0x55 => "U",
        0x56 => "V",
        0x57 => "W",
        0x58 => "X",
        0x59 => "Y",
        0x5A => "Z",
        0x5B => "[",
        0x5C => "\\",
        0x5D => "]",
        0x5E => "^",
        0x5F => "_",
        0x60 => "`",
        0x61 => "a",
        0x62 => "b",
        0x63 => "c",
        0x64 => "d",
        0x65 => "e",
        0x66 => "f",
        0x67 => "g",
        0x68 => "h",
        0x69 => "i",
        0x6A => "j",
        0x6B => "k",
        0x6C => "l",
        0x6D => "m",
        0x6E => "n",
        0x6F => "o",
        0x70 => "p",
        0x71 => "q",
        0x72 => "r",
        0x73 => "s",
        0x74 => "t",
        0x75 => "u",
        0x76 => "v",
        0x77 => "w",
        0x78 => "x",
        0x79 => "y",
        0x7A => "z",
        0x7B => "{",
        0x7C => "|",
        0x7D => "}",
        _ => "~",
    };
    r
}

impl OpCode {
    /// Renders the instruction at `address` and returns the line and the
    /// address of the next instruction.
    pub fn format_at(memory: &MachineMemory, address: Address) -> (r: (String, Address))
        requires
            memory.wf(),
    {
        let op_code = memory.raw_memory.read_u8(address);
        let mut out = String::new();
        append_u16_hex(&mut out, address);
        out.append(": ");

        match OpCode::from_int(op_code) {
            None => {
                out.append("(illegal op-code ");
                append_u16_dec(&mut out, op_code as u16);
                out.append(")");
                (out, address.wrapping_add(1))
            },
            Some(op) => {
                let next = op.format(&mut out, memory, address);
                (out, next)
            },
        }
    }

    /// Renders this instruction's mnemonic and operand into `out` and
    /// returns the address of the next instruction.
    pub fn format(self, out: &mut String, memory: &MachineMemory, address: Address) -> (r: Address)
        requires
            memory.wf(),
    {
        match self {
            OpCode::Noop => {
                out.append("noop");
                address.wrapping_add(1)
            },
            OpCode::DefaultArticleStart => {
                out.append("start_article");
                address.wrapping_add(1)
            },
            OpCode::Return => {
                out.append("ret");
                address.wrapping_add(1)
            },
            OpCode::Call | OpCode::Literal16 | OpCode::GoTo | OpCode::GoToIfZ => {
                match self {
                    OpCode::Call => out.append("call "),
                    OpCode::Literal16 => out.append("push16 "),
                    OpCode::GoTo => out.append("jump "),
                    _ => out.append("jumpz "),
                }
                if address < 0xFFFD {
                    let operand = memory.raw_memory.read_u16(address.wrapping_add(1));
                    append_u16_hex(out, operand);
                } else {
                    out.append("(operand out of range)");
                }
                address.wrapping_add(3)
            },
            OpCode::LiteralString | OpCode::ExecBuiltin => {
                if matches!(self, OpCode::LiteralString) {
                    out.append("pushStr ");
                } else {
                    out.append("execBuiltin ");
                }
                let str_addr = address.wrapping_add(1);
                append_name(out, memory, str_addr);
                let length = memory.raw_memory.read_u8(str_addr);
                str_addr.wrapping_add(length as u16).wrapping_add(1)
            },
            OpCode::Dup32 => {
                out.append("dup32");
                address.wrapping_add(1)
            },
            OpCode::Over16 => {
                out.append("over");
                address.wrapping_add(1)
            },
            OpCode::Over32 => {
                out.append("over32");
                address.wrapping_add(1)
            },
            OpCode::Swap16 => {
                out.append("swap");
                address.wrapping_add(1)
            },
            OpCode::Swap32 => {
                out.append("swap32");
                address.wrapping_add(1)
            },
            OpCode::Dup16 => {
                out.append("dup");
                address.wrapping_add(1)
            },
            OpCode::Add16 => {
                out.append("add");
                address.wrapping_add(1)
            },
            OpCode::Sub16 => {
                out.append("sub");
                address.wrapping_add(1)
            },
            OpCode::Mul16 => {
                out.append("mul");
                address.wrapping_add(1)
            },
            OpCode::Div16 => {
                out.append("div");
                address.wrapping_add(1)
            },
            OpCode::Load16 => {
                out.append("load");
                address.wrapping_add(1)
            },
            OpCode::Store16 => {
                out.append("store");
                address.wrapping_add(1)
            },
            OpCode::Load8 => {
                out.append("load8");
                address.wrapping_add(1)
            },
            OpCode::Store8 => {
                out.append("store8");
                address.wrapping_add(1)
            },
            OpCode::Load32 => {
                out.append("load32");
                address.wrapping_add(1)
            },
            OpCode::Store32 => {
                out.append("store32");
                address.wrapping_add(1)
            },
            OpCode::Drop16 => {
                out.append("drop");
                address.wrapping_add(1)
            },
            OpCode::Invert16 => {
                out.append("invert");
                address.wrapping_add(1)
            },
            OpCode::And16 => {
                out.append("and");
                address.wrapping_add(1)
            },
            OpCode::Or16 => {
                out.append("or");
                address.wrapping_add(1)
            },
            OpCode::Xor16 => {
                out.append("xor");
                address.wrapping_add(1)
            },
            OpCode::Eq16 => {
                out.append("eq");
                address.wrapping_add(1)
            },
            OpCode::Lt16 => {
                out.append("lt");
                address.wrapping_add(1)
            },
            OpCode::Gt16 => {
                out.append("gt");
                address.wrapping_add(1)
            },
            OpCode::Rot16 => {
                out.append("rot");
                address.wrapping_add(1)
            },
            OpCode::I16ToI32 => {
                out.append("s>d");
                address.wrapping_add(1)
            },
            OpCode::CallPop16 => {
                out.append("call_pop");
                address.wrapping_add(1)
            },
            OpCode::CallPush16 => {
                out.append("call_push");
                address.wrapping_add(1)
            },
            OpCode::CallPop32 => {
                out.append("call_pop32");
                address.wrapping_add(1)
            },
            OpCode::CallPush32 => {
                out.append("call_push32");
                address.wrapping_add(1)
            },
            OpCode::CallRead16 => {
                out.append("call_get");
                address.wrapping_add(1)
            },
            OpCode::CallRead32 => {
                out.append("call_get32");
                address.wrapping_add(1)
            },
            OpCode::Abs16 => {
                out.append("abs");
                address.wrapping_add(1)
            },
            OpCode::Emit => {
                out.append("emit");
                address.wrapping_add(1)
            },
            OpCode::PnoInit => {
                out.append("pno:init");
                address.wrapping_add(1)
            },
            OpCode::PnoPut => {
                out.append("pno:put");
                address.wrapping_add(1)
            },
            OpCode::PnoFinish => {
                out.append("pno:finish");
                address.wrapping_add(1)
            },
            OpCode::PnoPutDigit => {
                out.append("pno:put_digit");
                address.wrapping_add(1)
            },
            OpCode::EmitString => {
                out.append("emit_str");
                address.wrapping_add(1)
            },
        }
    }
}

impl MachineMemory {
    /// A report of the stacks, the dictionary size and the article names.
    pub fn print_memory_state(&self) -> String
        requires
            self.wf(),
    {
        let mut out = String::new();

        out.append("Data stack depth: ");
        append_u16_dec(&mut out, self.data_stack_depth());
        out.append("\nCall stack depth: ");
        append_u16_dec(&mut out, self.call_stack_depth());
        out.append("\nDictionary size: ");
        append_u16_dec(&mut out, self.dictionary_size());
        out.append(" byte(s)\nArticle(s): ");

        let mut iter = self.articles();
        let mut any = false;
        loop
            invariant
                iter.wf(),
                self.wf(),
            decreases (match iter.current() {
                Option::Some(a) => a.addr() as int + 1,
                Option::None => 0,
            }), (if iter.has_started() {
                0int
            } else {
                1int
            }),
        {
            match iter.next() {
                Some(article) => {
                    append_name(&mut out, self, article.name_address());
                    out.append(", ");
                    any = true;
                },
                None => {
                    break ;
                },
            }
        }
        if !any {
            out.append("(none)");
        }
        out.append("\n");

        out
    }
}

impl<'m> ReadableArticle<'m> {
    /// A disassembly of this article: its header fields and each
    /// instruction of the body up to `limit`.
    pub fn disassemble(&self, memory: &MachineMemory, limit: Address) -> (r: String)
        requires
            self.wf(),
            memory.wf(),
            self.addr() < 0xFFFF,
    {
        let mut out = String::new();

        out.append("---- article at ");
        append_u16_hex(&mut out, self.get_header_address());
        out.append("\n");
        append_u16_hex(&mut out, self.get_header_address());
        out.append(": previous article address: ");
        append_u16_hex(&mut out, self.previous_address());
        out.append("\n");
        append_u16_hex(&mut out, self.name_address());
        out.append(": article name: ");
        append_name(&mut out, memory, self.name_address());
        out.append("\n");

        let mut address = self.body_address();

        while address < limit
            invariant
                memory.wf(),
            decreases (if address <= limit {
                (limit - address) as int
            } else {
                0int
            }),
        {
            let line_and_next = OpCode::format_at(memory, address);
            out.append(line_and_next.0.as_str());
            out.append("\n");
            let next = line_and_next.1;
            if next <= address {
                // A malformed instruction that does not advance; stop here.
                return out;
            }
            proof {
                assert(next > address);
            }
            address = next;
        }

        out
    }
}

impl<I: Input, O: Output> Machine<I, O> {
    /// A report of the machine's memory state and mode.
    pub fn print_state(&self) -> String
        requires
            self.wf(),
    {
        let mut out = self.memory.print_memory_state();
        out.append("Mode: ");
        out.append(self.mode().describe());
        out.append("\n");
        out
    }

    /// A disassembly of every article in the dictionary.
    pub fn print_disassembly(&self) -> String
        requires
            self.wf(),
    {
        let mut out = String::new();
        let mut limit = self.memory.get_dict_ptr();

        let mut iter = self.memory.articles();
        loop
            invariant
                iter.wf(),
                self.wf(),
            decreases (match iter.current() {
                Option::Some(a) => a.addr() as int + 1,
                Option::None => 0,
            }), (if iter.has_started() {
                0int
            } else {
                1int
            }),
        {
            match iter.next() {
                Some(article) => {
                    proof {
                        assert(article.addr() + 3 <= 0xFFFF);
                    }
                    out.append(article.disassemble(&self.memory, limit).as_str());
                    limit = article.get_header_address();
                },
                None => {
                    break ;
                },
            }
        }

        out
    }
}

} // verus!
