//! The machine's interpret-vs-compile state, observable through the reserved
//! `STATE` variable of the arena.

use vstd::prelude::*;

verus! {

#[derive(Debug, PartialEq, Eq, Structural, Copy, Clone)]
pub enum MachineState {
    Interpreter,
    Compiler,
}

impl MachineState {
    /// A human-readable name for the state.
    pub fn describe(&self) -> (r: &'static str)
        ensures
            self is Compiler ==> r@ == "compiler"@,
            self is Interpreter ==> r@ == "interpreter"@,
    {
        match self {
            MachineState::Compiler => "compiler",
            MachineState::Interpreter => "interpreter",
        }
    }
}

} // verus!
