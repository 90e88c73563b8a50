use rs4::machine_memory::{MachineMemory, MemoryLayoutConfig, ReservedAddresses};
use rs4::mem::Mem;

fn make_mem() -> MachineMemory {
    MachineMemory::new(Mem::default(), MemoryLayoutConfig::default())
}

#[test]
fn test_data_stack() {
    let mut mm = make_mem();

    assert_eq!(mm.data_stack_depth(), 0);

    mm.data_push_u16(10500).unwrap();
    assert_eq!(mm.data_stack_depth(), 1);

    mm.data_push_u16(10501).unwrap();
    assert_eq!(mm.data_stack_depth(), 2);

    mm.data_push_u32(0xf000baaa).unwrap();
    assert_eq!(mm.data_stack_depth(), 4);

    assert_eq!(mm.data_pop_u32().unwrap(), 0xf000baaa);
    assert_eq!(mm.data_pop_u16().unwrap(), 10501);
    assert_eq!(mm.data_pop_u16().unwrap(), 10500);
    assert!(mm.data_pop_u16().is_err()); // Underflow
}

#[test]
fn test_call_stack() {
    let mut mm = make_mem();

    mm.call_push_u16(0xdead).unwrap();
    mm.call_push_u16(0xc0de).unwrap();

    assert_eq!(mm.call_pop_u16().unwrap(), 0xc0de);
    assert_eq!(mm.call_pop_u16().unwrap(), 0xdead);
    assert!(mm.call_pop_u16().is_err()); // Underflow
}

#[test]
fn test_call_stack_overflow() {
    let mut mm = make_mem();

    assert!(mm.call_pop_u16().is_err()); // Underflow, to ensure that stack pointer does not change

    for i in 0..MemoryLayoutConfig::default().max_call_stack_depth {
        mm.call_push_u16(i).unwrap();
    }

    assert!(mm.call_push_u16(0xdead).is_err());

    mm.call_pop_u16().unwrap();

    mm.call_push_u16(0x0000).unwrap();
}

#[test]
fn test_reserved_variables() {
    let mm = make_mem();

    assert_eq!(
        mm.raw_memory.read_u16(mm.get_reserved_address(ReservedAddresses::BaseVar)),
        10
    );
}

#[test]
fn test_dict_write_advances_here() {
    let mut mm = make_mem();

    assert_eq!(mm.dictionary_size(), 0);
    mm.dict_write_u8(0xAA).unwrap();
    assert_eq!(mm.dictionary_size(), 1);
    mm.dict_write_u16(0xBBCC).unwrap();
    assert_eq!(mm.dictionary_size(), 3);
    mm.dict_write_u32(0x11223344).unwrap();
    assert_eq!(mm.dictionary_size(), 7);

    assert_eq!(mm.raw_memory.read_u8(0), 0xAA);
    assert_eq!(mm.raw_memory.read_u16(1), 0xBBCC);
    assert_eq!(mm.raw_memory.read_u32(3), 0x11223344);
}

#[test]
fn test_push_error_leaves_everything_unchanged() {
    let mut mm = make_mem();

    // Fill the data stack completely, then check that a failing push
    // changes neither the pointer nor the stack bytes.
    while mm.data_push_u16(0x5A5A).is_ok() {}

    let depth = mm.data_stack_depth();
    assert!(mm.data_push_u16(0x1111).is_err());
    assert_eq!(mm.data_stack_depth(), depth);
    assert_eq!(mm.data_pop_u16().unwrap(), 0x5A5A);
}

#[test]
fn test_forward_reference_round_trip() {
    let mut mm = make_mem();

    let slot = mm.create_forward_reference().unwrap();
    assert_eq!(slot, 0);
    assert_eq!(mm.raw_memory.read_u16(slot), 0xDEAD);

    mm.dict_write_u8(0).unwrap();
    mm.resolve_forward_reference(slot).unwrap();
    assert_eq!(mm.raw_memory.read_u16(slot), mm.dictionary_size());
}

#[test]
fn test_pno_buffer_prepends_backward() {
    let mut mm = make_mem();

    mm.clear_pno_buffer();
    mm.pno_put(b'3').unwrap();
    mm.pno_put(b'2').unwrap();
    mm.pno_put(b'1').unwrap();

    let (address, size) = mm.pno_finish();
    assert_eq!(size, 3);
    assert_eq!(mm.raw_memory.read_u8(address), b'1');
    assert_eq!(mm.raw_memory.read_u8(address.wrapping_add(1)), b'2');
    assert_eq!(mm.raw_memory.read_u8(address.wrapping_add(2)), b'3');
}
