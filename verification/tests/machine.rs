use rs4::input::StaticStringInput;
use rs4::machine::Machine;
use rs4::machine_error::MachineError;
use rs4::output::StringOutput;

type TestMachine = Machine<StaticStringInput, StringOutput>;

fn run_with_test_input(input_text: &'static str) -> (TestMachine, Result<(), MachineError>) {
    let mut machine = TestMachine::new(StaticStringInput::new(input_text), StringOutput::new());

    let result = machine.interpret_input();

    (machine, result)
}

fn test_16_bit_results(input: &'static str, results: &[u16]) {
    let (mut machine, result) = run_with_test_input(input);

    match result {
        Ok(_) => {},
        Err(err) => {
            panic!("Machine error occurred: {}", err.pretty_print());
        },
    }

    assert!(
        machine.memory.data_stack_depth() == results.len() as u16,
        "unexpected stack depth: expected {} cells, found {}",
        results.len(),
        machine.memory.data_stack_depth()
    );

    for expected in results.iter().rev() {
        assert_eq!(machine.memory.data_pop_u16().unwrap(), *expected);
    }
}

fn test_output(input: &'static str, expected_output: &'static [u8]) {
    let (machine, _result) = run_with_test_input(input);

    assert_eq!(machine.output.content.as_slice(), expected_output)
}

#[test]
fn test_push_literal() {
    test_16_bit_results("1 2", &[1, 2]);
}

#[test]
fn test_arithmetic() {
    test_16_bit_results("1 2 +", &[3]);
    test_16_bit_results("1 -3 -", &[4]);
    test_16_bit_results("42 2 *", &[84]);
    test_16_bit_results("10 2 /", &[5]);
}

#[test]
fn test_store_load_16() {
    test_16_bit_results("42 101 !", &[]);
    test_16_bit_results("42 101 ! 101 @", &[42]);
}

#[test]
fn test_store_load_8() {
    test_16_bit_results("$FFFF 101 C! $FEFE 102 C!", &[]);
    test_16_bit_results("$FFFF 101 C! $FEFE 102 C! 101 C@ 102 C@", &[0xff, 0xfe]);
}

#[test]
fn test_radix_change() {
    test_16_bit_results("100 36 BASE ! zZz", &[100, 46655]);
}

#[test]
fn test_emit_single_characters() {
    test_output("70 EMIT 79 DUP EMIT EMIT 66 EMIT 65 EMIT 82 EMIT", b"FOOBAR")
}

#[test]
fn test_colon_definition() {
    test_16_bit_results(": foo + ;", &[]);
    test_16_bit_results(": foo + ; 100 1 foo", &[101])
}

#[test]
fn test_colon_definition_use() {
    test_16_bit_results(": +3 3 + ; 2 +3 +3", &[8])
}

#[test]
fn test_comparison() {
    test_16_bit_results("0 1 < -1 0 < 0 0 < 2 1 <", &[0xffff, 0xffff, 0, 0]);
    test_16_bit_results("0 1 > -1 0 > 0 0 > 2 1 >", &[0, 0, 0, 0xffff]);
    test_16_bit_results("0 1 = -1 0 = 0 0 = 2 1 =", &[0, 0, 0xffff, 0]);
}

#[test]
fn test_logic() {
    test_16_bit_results("TRUE FALSE", &[0xffff, 0]);
    test_16_bit_results(
        "TRUE FALSE AND FALSE TRUE AND FALSE FALSE AND TRUE TRUE AND",
        &[0, 0, 0, 0xffff],
    );
    test_16_bit_results(
        "TRUE FALSE OR FALSE TRUE OR FALSE FALSE OR TRUE TRUE OR",
        &[0xffff, 0xffff, 0, 0xffff],
    );
    test_16_bit_results(
        "TRUE FALSE XOR FALSE TRUE XOR FALSE FALSE XOR TRUE TRUE XOR",
        &[0xffff, 0xffff, 0, 0],
    );
    test_16_bit_results("TRUE INVERT FALSE INVERT", &[0, 0xffff]);
}

#[test]
fn test_dup() {
    test_16_bit_results("1 2 DUP", &[1, 2, 2]);

    test_16_bit_results("3 4 2DUP", &[3, 4, 3, 4]);
}

#[test]
fn test_drop() {
    test_16_bit_results("1 2 3 DROP", &[1, 2]);

    test_16_bit_results("4 5 6 2DROP", &[4]);
}

#[test]
fn test_rot() {
    test_16_bit_results("1 2 3 ROT", &[2, 3, 1])
}

#[test]
fn test_immediate() {
    test_16_bit_results(
        "
            : C,, HERE @ C! HERE @ 1 + HERE ! ;
            : ,, HERE @ ! HERE @ 2 + HERE ! ;
            : iff    7 ( OpCode: GoToIfZ ) C,, HERE @ 0 ,, ; IMMEDIATE
            : elsse  6 ( OpCode: GoTo    ) C,, HERE @ 0 ,, SWAP HERE @ SWAP ! ; IMMEDIATE
            : endiff                                            HERE @ SWAP ! ; IMMEDIATE
            : tst 0 < iff -1 elsse 1 endiff ;

            0 tst -1 tst
            ",
        &[1, 0xffff],
    )
}

#[test]
fn test_conditions() {
    test_16_bit_results(
        "
            : myabs 1 SWAP 0 < IF DROP -1 THEN ;

            0 myabs -1 myabs
            ",
        &[1, 0xffff],
    );
}

#[test]
fn test_conditions_2() {
    test_16_bit_results(
        "
            : myabs 0 < IF -1 ELSE 1 THEN ;

            0 myabs -1 myabs
            ",
        &[1, 0xffff],
    );
}

#[test]
fn test_while_loop() {
    test_16_bit_results(
        "
            : 1- 1 - ;
            : FACTORIAL ( +n1 -- +n2 )
               DUP 2 < IF DROP 1 EXIT THEN
               DUP
               BEGIN DUP 2 > WHILE
               1- SWAP OVER * SWAP
               REPEAT DROP
            ;
            8 FACTORIAL
            ",
        &[40320],
    );
}

#[test]
fn test_postpone() {
    test_16_bit_results(
        "
            : endif POSTPONE THEN ; IMMEDIATE
            : myabs 1 SWAP 0 < IF DROP -1 endif ;

            0 myabs -1 myabs
            ",
        &[1, 0xffff],
    )
}

#[test]
fn test_recurse() {
    test_16_bit_results(
        "
            : 1- 1 - ;
            : FACTORIAL ( +n1 -- +n2)
               DUP 2 < IF DROP 1 EXIT THEN
               DUP 1- RECURSE *
            ;
            8 FACTORIAL
            ",
        &[40320],
    )
}

#[test]
fn test_print_string() {
    test_output(
        "
            : say-bye .\" Goodbye world\" ;
            .\" Hello world\" 10 EMIT
            say-bye
            ",
        b"Hello world\nGoodbye world",
    )
}

#[test]
fn test_pictured_number_output() {
    test_output(
        "
            666 S>D <# # # # # #>
            ",
        b"",
    );
    test_output(
        "
            666 S>D <# # # # # #>
            TYPE
            ",
        b"0666",
    );
    test_output(
        "
            1638 16 BASE ! S>D <# # # # # #>
            TYPE
            ",
        b"0666",
    );
}

#[test]
fn test_mode_switch_and_literals() {
    test_16_bit_results(": foo [ 1 2 + ] LITERAL + ;", &[]);
    test_16_bit_results(": foo [ 1 2 + ] LITERAL + ; 3 foo", &[6]);
}

#[test]
fn test_division_by_zero() {
    let (_machine, result) = run_with_test_input("10 0 /");
    assert!(matches!(result, Err(MachineError::DivisionByZero)));
}

#[test]
fn test_unknown_word_is_reported() {
    let (_machine, result) = run_with_test_input("1 2 NOSUCHWORD");
    assert!(matches!(result, Err(MachineError::IllegalWord(Some(_)))));
}

#[test]
fn test_nested_colon_fails() {
    // A `:` met directly in compile state is a nested definition.
    let (_machine, result) = run_with_test_input(": foo : bar ;");
    assert!(matches!(result, Err(MachineError::IllegalCompilerState)));

    // So is a `:` met through `[` while a definition is still open.
    let (_machine2, result2) = run_with_test_input(": foo [ : bar ;");
    assert!(matches!(result2, Err(MachineError::IllegalCompilerState)));
}

#[test]
fn test_unknown_opcode_does_not_advance() {
    let mut machine = TestMachine::new(StaticStringInput::new(""), StringOutput::new());

    // Write an illegal opcode byte into the dictionary, then execute it.
    machine.memory.dict_write_u8(99).unwrap();
    let before = machine.memory.clone();
    let result = rs4::opcodes::OpCode::execute_at(&mut machine, 0);

    match result {
        Err(MachineError::IllegalOpCodeError { address, op_code }) => {
            assert_eq!(address, 0);
            assert_eq!(op_code, 99);
        },
        other => panic!("expected an illegal op-code error, found {:?}", other),
    }
    assert_eq!(machine.memory.data_stack_ptr, before.data_stack_ptr);
    assert_eq!(machine.memory.call_stack_ptr, before.call_stack_ptr);
    assert_eq!(machine.memory.dictionary_size(), before.dictionary_size());
}

#[test]
fn test_push_beyond_stacks_border_fails() {
    let mut machine = TestMachine::new(StaticStringInput::new(""), StringOutput::new());

    // Extend the dictionary until a push no longer fits, then check that
    // the failing push leaves the stack pointer unchanged.
    while machine.memory.dict_write_u8(0).is_ok() {}
    while machine.memory.data_push_u16(7).is_ok() {}

    let sp = machine.memory.data_stack_ptr;
    let result = machine.memory.data_push_u16(7);
    assert!(result.is_err());
    assert_eq!(machine.memory.data_stack_ptr, sp);
}

#[test]
fn test_compile_only_word_in_interpreter_fails() {
    let (_machine, result) = run_with_test_input("1 >R");
    assert!(matches!(result, Err(MachineError::IllegalMode { .. })));
}

#[test]
fn test_immediate_twice_fails_without_change() {
    let (_machine, result) = run_with_test_input(": foo 1 ; IMMEDIATE IMMEDIATE");
    assert!(matches!(result, Err(MachineError::UnexpectedArticleType)));

    // The word still behaves as an immediate one afterwards.
    test_16_bit_results(": foo 1 ; IMMEDIATE foo", &[1]);
}

#[test]
fn test_abs_and_signed_conversion() {
    test_16_bit_results("-5 ABS 5 ABS", &[5, 5]);
    test_16_bit_results("0 1 - ABS", &[1]);
}

#[test]
fn test_string_literal_word() {
    test_output(": greet S\" hi!\" TYPE ; greet", b"hi!");
}

#[test]
fn test_machine_reset() {
    let (mut machine, result) = run_with_test_input(": foo 1 ; 42");
    result.unwrap();
    assert_eq!(machine.memory.data_stack_depth(), 1);

    machine.reset();
    assert_eq!(machine.memory.data_stack_depth(), 0);
    assert_eq!(machine.memory.dictionary_size(), 0);
    assert!(machine.memory.last_article_ptr.is_none());
}

#[test]
fn test_unexpected_eof_in_definition() {
    let (_machine, result) = run_with_test_input(": ");
    assert!(matches!(result, Err(MachineError::UnexpectedInputEOF)));

    let (_machine2, result2) = run_with_test_input("( never closed");
    assert!(matches!(result2, Err(MachineError::UnexpectedInputEOF)));
}

#[test]
fn test_immediate_without_article() {
    let (_machine, result) = run_with_test_input("IMMEDIATE");
    assert!(matches!(result, Err(MachineError::NoArticle)));
}

#[test]
fn test_fuel_exhaustion_stops_endless_loop() {
    let mut machine = TestMachine::new(
        StaticStringInput::new(": spin BEGIN 1 DROP TRUE WHILE REPEAT ; spin"),
        StringOutput::new(),
    );
    machine.fuel = 100_000;

    let result = machine.interpret_input();
    assert!(matches!(result, Err(MachineError::OutOfFuel)));
}

#[test]
fn test_wrapping_arithmetic() {
    test_16_bit_results("65535 1 +", &[0]);
    test_16_bit_results("0 1 -", &[0xFFFF]);
    test_16_bit_results("$8000 2 *", &[0]);
}

#[test]
fn test_error_leaves_machine_unchanged() {
    // A conditional jump whose operand lies outside the used dictionary
    // fails without consuming the flag it would have tested.
    let mut machine = TestMachine::new(StaticStringInput::new(""), StringOutput::new());
    machine.memory.dict_write_u8(7).unwrap(); // GoToIfZ, no operand bytes
    machine.memory.data_push_u16(0).unwrap();

    let before_sp = machine.memory.data_stack_ptr;
    let result = rs4::opcodes::OpCode::execute_at(&mut machine, 0);
    assert!(matches!(result, Err(MachineError::MemoryAccessError(_))));
    assert_eq!(machine.memory.data_stack_ptr, before_sp);
    assert_eq!(machine.memory.data_pop_u16().unwrap(), 0);

    // A `THEN` whose popped slot is no forward reference resolves nothing
    // and pops nothing.
    let (mut machine2, result2) = run_with_test_input("60000 : x THEN");
    assert!(matches!(result2, Err(MachineError::MemoryAccessError(_))));
    assert_eq!(machine2.memory.data_pop_u16().unwrap(), 60000);
}
