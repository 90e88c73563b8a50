use rs4::input::StaticStringInput;
use rs4::machine::Machine;
use rs4::machine_error::MachineError;
use rs4::mem::{AddressRange, MemoryAccessError};
use rs4::output::StringOutput;

type TestMachine = Machine<StaticStringInput, StringOutput>;

fn run(input_text: &'static str) -> (TestMachine, Result<(), MachineError>) {
    let mut machine = TestMachine::new(StaticStringInput::new(input_text), StringOutput::new());
    let result = machine.interpret_input();
    (machine, result)
}

#[test]
fn test_pretty_print_memory_access_error() {
    let err = MachineError::MemoryAccessError(MemoryAccessError {
        access_range: AddressRange { start: 10, end: 11 },
        segment: AddressRange { start: 0, end: 5 },
    });

    assert_eq!(
        err.pretty_print(),
        "illegal memory access attempt at 10..=11 (allowed range is 0..=5)"
    );
}

#[test]
fn test_pretty_print_illegal_opcode() {
    let err = MachineError::IllegalOpCodeError { address: 513, op_code: 99 };

    assert_eq!(err.pretty_print(), "illegal op-code 99 at address 513");
}

#[test]
fn test_print_state_reports_articles() {
    let (machine, result) = run(": double DUP + ;");
    result.unwrap();

    let state = machine.print_state();
    assert!(state.contains("double"));
    assert!(state.contains("Mode: interpreter"));
    assert!(state.contains("Dictionary size:"));
}

#[test]
fn test_print_disassembly_lists_compiled_code() {
    let (machine, result) = run(": double DUP + ;");
    result.unwrap();

    let listing = machine.print_disassembly();
    assert!(listing.contains("article name: double"));
    assert!(listing.contains("dup"));
    assert!(listing.contains("add"));
    assert!(listing.contains("ret"));
}
