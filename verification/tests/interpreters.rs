use rs4::input::StaticStringInput;
use rs4::interpreters::Interpreter;
use rs4::machine::Machine;
use rs4::output::StringOutput;

#[test]
fn test_from_integer() {
    assert_eq!(Interpreter::from_int(0), Some(Interpreter::Default),);

    assert!(Interpreter::from_int(255).is_none(),);
}

#[test]
fn test_interpret_article_runs_default_word() {
    let mut machine = Machine::new(StaticStringInput::new(": five 5 ;"), StringOutput::new());
    machine.interpret_input().unwrap();

    let body_address = {
        let article = machine.memory.lookup_article(b"five").unwrap().unwrap();
        article.body_address()
    };

    // The first body byte selects the default interpreter, which runs the
    // word at once in interpreter state.
    Interpreter::interpret_article(&mut machine, body_address).unwrap();
    assert_eq!(machine.memory.data_pop_u16().unwrap(), 5);
}
