use rs4::input::EmptyInput;
use rs4::machine::Machine;
use rs4::output::StringOutput;
use rs4::stack_effect::{EffectShape, StackEffect};

type TestMachine = Machine<EmptyInput, StringOutput>;

fn assert_cells(machine: &mut TestMachine, cells: &[u16]) {
    assert!(
        machine.memory.data_stack_depth() == cells.len() as u16,
        "unexpected stack depth: expected {} cells, found {}",
        cells.len(),
        machine.memory.data_stack_depth()
    );

    for cell in cells.iter().rev() {
        assert_eq!(machine.memory.data_pop_u16().unwrap(), *cell);
    }
}

#[test]
fn test_2_to_1_effect() {
    let mut machine = TestMachine::default();

    machine.memory.data_push_u16(0x1234).unwrap();
    machine.memory.data_push_u16(0xabcd).unwrap();

    let fx = EffectShape { input_words: 2, output_words: 1 };
    let sp = machine.memory.data_stack_ptr;
    let segment = machine.memory.get_data_stack_segment();
    fx.validate_access(&machine.memory.raw_memory, sp, segment).unwrap();

    assert_eq!(fx.in_words(), 2);
    assert_eq!(fx.out_words(), 1);

    let a = machine.memory.raw_memory.read_u16(sp.wrapping_add(2));
    let b = machine.memory.raw_memory.read_u16(sp);
    assert_eq!(a, 0x1234);
    assert_eq!(b, 0xabcd);

    let resulting = fx.resulting_ptr(sp);
    machine.memory.raw_memory.write_u16(resulting, 0xef56);
    machine.memory.data_stack_ptr = resulting;

    assert_cells(&mut machine, &[0xef56]);
}

#[test]
fn test_1_to_2_effect() {
    let mut machine = TestMachine::default();

    machine.memory.data_push_u16(0x1234).unwrap();

    let fx = EffectShape { input_words: 1, output_words: 2 };
    let sp = machine.memory.data_stack_ptr;
    let segment = machine.memory.get_data_stack_segment();
    fx.validate_access(&machine.memory.raw_memory, sp, segment).unwrap();

    assert_eq!(fx.in_words(), 1);
    assert_eq!(fx.out_words(), 2);

    let a = machine.memory.raw_memory.read_u16(sp);
    assert_eq!(a, 0x1234);

    let resulting = fx.resulting_ptr(sp);
    machine.memory.raw_memory.write_u16(resulting.wrapping_add(2), 0xef56);
    machine.memory.raw_memory.write_u16(resulting, 0x4213);
    machine.memory.data_stack_ptr = resulting;

    assert_cells(&mut machine, &[0xef56, 0x4213]);
}

#[test]
fn test_underflow() {
    let mut machine = TestMachine::default();

    machine.memory.data_push_u16(0x1234).unwrap();

    let fx = EffectShape { input_words: 2, output_words: 1 };
    let res = fx.validate_access(
        &machine.memory.raw_memory,
        machine.memory.data_stack_ptr,
        machine.memory.get_data_stack_segment(),
    );

    assert!(res.is_err());
}

#[test]
fn test_overflow() {
    let mut machine = TestMachine::default();

    machine.memory.data_stack_ptr = 4;

    machine.memory.data_push_u16(0x1234).unwrap();

    // No overflow yet
    let fx = EffectShape { input_words: 1, output_words: 2 };
    fx.validate_access(
        &machine.memory.raw_memory,
        machine.memory.data_stack_ptr,
        machine.memory.get_data_stack_segment(),
    )
    .unwrap();

    let fx3 = EffectShape { input_words: 1, output_words: 3 };
    let res = fx3.validate_access(
        &machine.memory.raw_memory,
        machine.memory.data_stack_ptr,
        machine.memory.get_data_stack_segment(),
    );

    assert!(res.is_err(), "{:?}", res);
}
