//! The machine: an arena-backed memory, an input collaborator feeding words
//! and an output collaborator receiving bytes. The interpret-vs-compile mode
//! lives in the arena's reserved `STATE` variable, so a running user program
//! can observe and toggle it.

use vstd::prelude::*;

use crate::input::{EmptyInput, Input};
use crate::machine_error::MachineError;
use crate::machine_memory::{MachineMemory, MemoryLayoutConfig};
use crate::machine_state::MachineState;
use crate::mem::Mem;
use crate::output::{Output, StringOutput};

verus! {

#[derive(Debug, PartialEq, Eq, Structural, Copy, Clone)]
pub enum MachineMode {
    Interpreter,
    Compiler,
}

impl MachineMode {
    /// A human-readable name for the mode.
    pub fn describe(&self) -> (r: &'static str)
        ensures
            self is Compiler ==> r@ == "compiler"@,
            self is Interpreter ==> r@ == "interpreter"@,
    {
        match self {
            MachineMode::Compiler => "compiler",
            MachineMode::Interpreter => "interpreter",
        }
    }

    /// The mode a machine state corresponds to.
    pub open spec fn of_state(state: MachineState) -> MachineMode {
        match state {
            MachineState::Interpreter => MachineMode::Interpreter,
            MachineState::Compiler => MachineMode::Compiler,
        }
    }
}

/// The default word-fallback handling: an unknown word is an error carrying
/// the address of its name.
pub fn default_fallback_handler<I: Input, O: Output>(
    _machine: &mut Machine<I, O>,
    name_address: u16,
) -> (r: Result<(), MachineError>)
    ensures
        r == Err::<(), MachineError>(MachineError::IllegalWord(Some(name_address))),
{
    Err(MachineError::IllegalWord(Some(name_address)))
}

pub struct Machine<I: Input, O: Output> {
    pub input: I,
    pub output: O,
    pub memory: MachineMemory,
    /// The remaining step budget: every opcode executed and every byte read
    /// costs one unit, so every run provably ends.
    pub fuel: u64,
}

impl<I: Input, O: Output> Machine<I, O> {
    pub open spec fn wf(self) -> bool {
        self.memory.wf()
    }

    /// The machine mode, as encoded by the `STATE` variable.
    pub open spec fn mode_spec(self) -> MachineMode {
        MachineMode::of_state(self.memory.state())
    }

    pub fn new(input: I, output: O) -> (r: Machine<I, O>)
        ensures
            r.wf(),
            r.memory.here() == 0,
            r.memory.state() is Interpreter,
            r.memory.base() == 10,
            r.memory.last_article_ptr is None,
            r.fuel == u64::MAX,
            r.input == input,
    {
        Machine {
            input,
            output,
            memory: MachineMemory::new(Mem::default(), MemoryLayoutConfig::default()),
            fuel: u64::MAX,
        }
    }

    /// Resets pointers, reserved variables and the mode; dictionary bytes
    /// become unreachable but are not zeroed.
    pub fn reset(&mut self)
        requires
            old(self).wf(),
        ensures
            final(self).wf(),
            final(self).memory.here() == 0,
            final(self).memory.state() is Interpreter,
            final(self).memory.base() == 10,
            final(self).memory.last_article_ptr is None,
            final(self).fuel == old(self).fuel,
    {
        self.memory.reset();
    }

    /// The current mode read from the arena.
    pub fn mode(&self) -> (r: MachineMode)
        requires
            self.wf(),
        ensures
            r == self.mode_spec(),
    {
        match self.memory.get_state() {
            MachineState::Interpreter => MachineMode::Interpreter,
            MachineState::Compiler => MachineMode::Compiler,
        }
    }

    /// Succeeds exactly in the expected mode; the error names both modes.
    pub fn expect_mode(&self, mode: MachineMode) -> (r: Result<(), MachineError>)
        requires
            self.wf(),
        ensures
            r is Ok <==> self.mode_spec() == mode,
            r is Err ==> r == Err::<(), MachineError>(
                MachineError::IllegalMode { expected: mode, actual: self.mode_spec() },
            ),
    {
        let actual = self.mode();
        if actual != mode {
            return Err(MachineError::IllegalMode { expected: mode, actual });
        }

        Ok(())
    }

    /// Succeeds exactly in the expected state.
    pub fn expect_state(&self, state: MachineState) -> (r: Result<(), MachineError>)
        requires
            self.wf(),
        ensures
            r is Ok <==> self.memory.state() == state,
            r is Err ==> r == Err::<(), MachineError>(
                MachineError::IllegalMode {
                    expected: MachineMode::of_state(state),
                    actual: self.mode_spec(),
                },
            ),
    {
        self.expect_mode(
            match state {
                MachineState::Interpreter => MachineMode::Interpreter,
                MachineState::Compiler => MachineMode::Compiler,
            },
        )
    }
}

/// Consecutive entries of `trace` are joined by successful
/// fetch-decode-execute steps: the machine in state `trace[i].0` at
/// instruction pointer `trace[i].1` steps to `trace[i + 1].0`, continuing
/// at `trace[i + 1].1`.
pub open spec fn exec_chain(trace: Seq<(MachineMemory, u16)>) -> bool {
    forall|i: int|
        0 <= i < trace.len() - 1 ==> #[trigger] crate::opcodes::machine_step(
            trace[i].0,
            trace[i].1,
            trace[i + 1].0,
            Ok(trace[i + 1].1),
        )
}

/// A bytecode run from `(m0, ip0)` ends in `post` with error `e`: some
/// chain of successful steps, after which either the step budget ran out
/// or one more step failed with `e`.
pub open spec fn run_ends(m0: MachineMemory, ip0: u16, post: MachineMemory, e: MachineError) -> bool {
    exists|trace: Seq<(MachineMemory, u16)>|
        {
            &&& #[trigger] exec_chain(trace)
            &&& trace.len() >= 1
            &&& trace[0] == (m0, ip0)
            &&& ((e == MachineError::OutOfFuel && post == trace.last().0)
                || crate::opcodes::machine_step(
                trace.last().0,
                trace.last().1,
                post,
                Err::<u16, MachineError>(e),
            ))
        }
}

/// The word buffer of `mid` was filled with a non-empty word; everything
/// else is as in `pre`.
pub open spec fn loaded_word(pre: MachineMemory, mid: MachineMemory) -> bool {
    &&& crate::builtin_words::loaded_or_same(pre, mid)
    &&& crate::sized_string::sized_str_no_wrap(
        mid.raw_memory@,
        crate::machine_memory::WORD_BUFFER_ADDR,
    )
    &&& crate::sized_string::sized_str_len(
        mid.raw_memory@,
        crate::machine_memory::WORD_BUFFER_ADDR,
    ) >= 1
}

/// One turn of the machine loop: a word lands in the buffer and is
/// dispatched.
pub open spec fn interpret_step(
    pre: MachineMemory,
    post: MachineMemory,
    r: Result<(), MachineError>,
) -> bool {
    exists|mid: MachineMemory|
        #[trigger] loaded_word(pre, mid) && word_dispatch(
            mid,
            crate::machine_memory::WORD_BUFFER_ADDR,
            post,
            r,
        )
}

/// Consecutive entries of `tr` are joined by successful word steps.
pub open spec fn interpret_chain(tr: Seq<MachineMemory>) -> bool {
    forall|i: int| 0 <= i < tr.len() - 1 ==> #[trigger] interpret_step(tr[i], tr[i + 1], Ok(()))
}

/// What executing one word does: an article found in the dictionary runs
/// as bytecode from its body (success exactly from the `Exited` sentinel);
/// any other name goes to the built-in dispatcher.
pub open spec fn word_dispatch(
    pre: MachineMemory,
    name_address: u16,
    post: MachineMemory,
    r: Result<(), MachineError>,
) -> bool {
    let name = crate::sized_string::sized_str_bytes(pre.raw_memory@, name_address);
    match pre.last_article_ptr {
        Option::None => crate::builtin_words::builtin_step(name, name_address, pre, post, r),
        Option::Some(la) => match crate::readable_article::lookup_chain(
            pre.raw_memory@,
            la,
            pre.dict_segment(),
            name,
        ) {
            Ok(found) => match found {
                Option::None => crate::builtin_words::builtin_step(
                    name,
                    name_address,
                    pre,
                    post,
                    r,
                ),
                Option::Some(a) => {
                    let body = crate::readable_article::article_body_addr(pre.raw_memory@, a);
                    &&& (r is Ok ==> run_ends(pre, body, post, MachineError::Exited))
                    &&& (r matches Err(e) ==> !(e is Exited) && run_ends(pre, body, post, e))
                },
            },
            Err(_) => post == pre && r matches Err(MachineError::MemoryAccessError(_)),
        },
    }
}

impl<I: Input, O: Output> Machine<I, O> {
    /// Executes bytecode from `start_address` until an error ends the run;
    /// the `Exited` sentinel stands for a clean return past the outermost
    /// call. Every instruction costs one unit of fuel, so the run always
    /// ends, in a state reached from the start state by a chain of
    /// instruction steps.
    pub fn run_forever(&mut self, start_address: u16) -> (r: Result<(), MachineError>)
        requires
            old(self).wf(),
        ensures
            final(self).wf(),
            final(self).memory.same_layout(old(self).memory),
            final(self).fuel <= old(self).fuel,
            r is Err,
            run_ends(old(self).memory, start_address, final(self).memory, r->Err_0),
            r == Err::<(), MachineError>(MachineError::OutOfFuel) ==> final(self).fuel == 0,
    {
        let mut address = start_address;
        let ghost mut trace: Seq<(MachineMemory, u16)> = seq![(old(self).memory, start_address)];

        loop
            invariant
                self.wf(),
                self.memory.same_layout(old(self).memory),
                self.fuel <= old(self).fuel,
                trace.len() >= 1,
                trace[0] == (old(self).memory, start_address),
                trace.last() == (self.memory, address),
                exec_chain(trace),
            decreases self.fuel,
        {
            if self.fuel == 0 {
                proof {
                    assert(run_ends(
                        old(self).memory,
                        start_address,
                        self.memory,
                        MachineError::OutOfFuel,
                    ));
                }
                return Err(MachineError::OutOfFuel);
            }
            self.fuel = self.fuel - 1;

            address = match crate::opcodes::OpCode::execute_at(self, address) {
                Ok(a) => {
                    proof {
                        let prev = trace;
                        trace = trace.push((self.memory, a));
                        assert(trace[prev.len() - 1] == prev.last());
                        assert(trace.last() == (self.memory, a));
                        assert forall|i: int|
                            0 <= i < trace.len() - 1 implies #[trigger] crate::opcodes::machine_step(
                            trace[i].0,
                            trace[i].1,
                            trace[i + 1].0,
                            Ok(trace[i + 1].1),
                        ) by {
                            if i < prev.len() - 1 {
                                assert(trace[i] == prev[i]);
                                assert(trace[i + 1] == prev[i + 1]);
                                assert(crate::opcodes::machine_step(
                                    prev[i].0,
                                    prev[i].1,
                                    prev[i + 1].0,
                                    Ok(prev[i + 1].1),
                                ));
                            } else {
                                assert(trace[i] == prev.last());
                                assert(trace[i + 1] == (self.memory, a));
                            }
                        }
                    }
                    a
                },
                Err(e) => {
                    proof {
                        assert(crate::opcodes::machine_step(
                            trace.last().0,
                            trace.last().1,
                            self.memory,
                            Err::<u16, MachineError>(e),
                        ));
                        assert(run_ends(old(self).memory, start_address, self.memory, e));
                    }
                    return Err(e);
                },
            };
        }
    }

    /// Executes bytecode from `start_address`, treating the `Exited`
    /// sentinel as clean termination: success comes exactly from a run
    /// that ended with the sentinel, and any other error propagates.
    pub fn run_until_exit(&mut self, start_address: u16) -> (r: Result<(), MachineError>)
        requires
            old(self).wf(),
        ensures
            final(self).wf(),
            final(self).memory.same_layout(old(self).memory),
            final(self).fuel <= old(self).fuel,
            r is Ok ==> run_ends(
                old(self).memory,
                start_address,
                final(self).memory,
                MachineError::Exited,
            ),
            r matches Err(e) ==> !(e is Exited) && run_ends(
                old(self).memory,
                start_address,
                final(self).memory,
                e,
            ),
            r == Err::<(), MachineError>(MachineError::OutOfFuel) ==> final(self).fuel == 0,
    {
        match self.run_forever(start_address) {
            Err(MachineError::Exited) => Ok(()),
            res => res,
        }
    }

    /// Executes the word whose name is the sized string at `name_address`:
    /// a dictionary article wins over a built-in of the same name; an
    /// unknown name falls back to numeric-literal parsing.
    pub fn execute_word(&mut self, name_address: u16) -> (r: Result<(), MachineError>)
        requires
            old(self).wf(),
            crate::sized_string::sized_str_no_wrap(old(self).memory.raw_memory@, name_address),
        ensures
            final(self).wf(),
            final(self).memory.same_layout(old(self).memory),
            final(self).fuel <= old(self).fuel,
            word_dispatch(old(self).memory, name_address, final(self).memory, r),
            r == Err::<(), MachineError>(MachineError::OutOfFuel) ==> final(self).fuel == 0,
    {
        let body: Option<u16> = match self.memory.lookup_article_name_buf(name_address) {
            Ok(Some(article)) => Some(article.body_address()),
            Ok(None) => None,
            Err(e) => {
                return Err(MachineError::MemoryAccessError(e));
            },
        };

        match body {
            Some(b) => self.run_until_exit(b),
            None => crate::builtin_words::process_builtin_word(self, name_address),
        }
    }

    /// Reads the next word from the input into the reserved word buffer;
    /// `None` at end of input.
    pub fn read_input_word(&mut self) -> (r: Result<Option<u16>, MachineError>)
        requires
            old(self).wf(),
        ensures
            final(self).wf(),
            final(self).memory.same_layout(old(self).memory),
            final(self).fuel <= old(self).fuel,
            r matches Ok(Some(a)) ==> a == crate::machine_memory::WORD_BUFFER_ADDR
                && crate::sized_string::sized_str_no_wrap(final(self).memory.raw_memory@, a)
                && crate::sized_string::sized_str_len(final(self).memory.raw_memory@, a) >= 1,
            r is Ok ==> crate::builtin_words::loaded_or_same(old(self).memory, final(self).memory),
            r matches Ok(w) ==> ({
                let len = crate::sized_string::sized_str_len(
                    final(self).memory.raw_memory@,
                    crate::machine_memory::WORD_BUFFER_ADDR,
                );
                &&& len == crate::input::take_token(
                    crate::input::skip_ws(old(self).input.remaining()),
                ).len()
                &&& (w is Some <==> len >= 1)
                &&& final(self).input.remaining() == crate::input::after_token(
                    old(self).input.remaining(),
                )
            }),
            r is Err ==> (r matches Err(MachineError::InputError(_))) && final(self).memory
                == old(self).memory,
    {
        match self.memory.read_input_word(&mut self.input, &mut self.fuel) {
            Ok(w) => Ok(w),
            Err(e) => Err(MachineError::InputError(e)),
        }
    }

    /// The machine loop: reads whitespace-delimited words and executes each
    /// until the input ends. The final state is reached from the start
    /// state by a chain of word steps; success comes exactly at the end of
    /// the input.
    pub fn interpret_input(&mut self) -> (r: Result<(), MachineError>)
        requires
            old(self).wf(),
        ensures
            final(self).wf(),
            final(self).memory.same_layout(old(self).memory),
            final(self).fuel <= old(self).fuel,
            exists|tr: Seq<MachineMemory>|
                {
                    &&& #[trigger] interpret_chain(tr)
                    &&& tr.len() >= 1
                    &&& tr[0] == old(self).memory
                    &&& match r {
                        Ok(()) => crate::builtin_words::loaded_or_same(
                            tr.last(),
                            final(self).memory,
                        ) && crate::sized_string::sized_str_len(
                            final(self).memory.raw_memory@,
                            crate::machine_memory::WORD_BUFFER_ADDR,
                        ) == 0 && final(self).input.remaining() == Seq::<u8>::empty(),
                        Err(e) => ((e == MachineError::OutOfFuel && final(self).memory
                            == tr.last() && final(self).fuel == 0) || (e matches
                        MachineError::InputError(_) && final(self).memory == tr.last()) || (
                        exists|mid: MachineMemory|
                            #[trigger] loaded_word(tr.last(), mid) && word_dispatch(
                                mid,
                                crate::machine_memory::WORD_BUFFER_ADDR,
                                final(self).memory,
                                Err(e),
                            ))),
                    }
                },
    {
        let ghost mut tr: Seq<MachineMemory> = seq![old(self).memory];

        loop
            invariant
                self.wf(),
                self.memory.same_layout(old(self).memory),
                self.fuel <= old(self).fuel,
                tr.len() >= 1,
                tr[0] == old(self).memory,
                tr.last() == self.memory,
                interpret_chain(tr),
            decreases self.fuel,
        {
            if self.fuel == 0 {
                return Err(MachineError::OutOfFuel);
            }
            self.fuel = self.fuel - 1;

            let ghost rem_b = self.input.remaining();
            let word = match self.read_input_word() {
                Ok(w) => w,
                Err(e) => {
                    return Err(e);
                },
            };

            match word {
                Some(name_address) => {
                    let ghost mid = self.memory;
                    proof {
                        assert(loaded_word(tr.last(), mid));
                    }
                    match self.execute_word(name_address) {
                        Ok(()) => {
                            proof {
                                let prev = tr;
                                tr = tr.push(self.memory);
                                assert(tr[prev.len() - 1] == prev.last());
                                assert(tr.last() == self.memory);
                                assert(word_dispatch(
                                    mid,
                                    crate::machine_memory::WORD_BUFFER_ADDR,
                                    self.memory,
                                    Ok(()),
                                ));
                                assert(interpret_step(prev.last(), self.memory, Ok(())));
                                assert forall|i: int|
                                    0 <= i < tr.len() - 1 implies #[trigger] interpret_step(
                                    tr[i],
                                    tr[i + 1],
                                    Ok(()),
                                ) by {
                                    if i < prev.len() - 1 {
                                        assert(tr[i] == prev[i]);
                                        assert(tr[i + 1] == prev[i + 1]);
                                        assert(interpret_step(prev[i], prev[i + 1], Ok(())));
                                    } else {
                                        assert(tr[i] == prev.last());
                                        assert(tr[i + 1] == self.memory);
                                    }
                                }
                            }
                        },
                        Err(e) => {
                            proof {
                                assert(loaded_word(tr.last(), mid) && word_dispatch(
                                    mid,
                                    crate::machine_memory::WORD_BUFFER_ADDR,
                                    self.memory,
                                    Err(e),
                                ));
                            }
                            return Err(e);
                        },
                    }
                },
                None => {
                    proof {
                        assert(crate::input::take_token(crate::input::skip_ws(rem_b)).len() == 0);
                        crate::input::lemma_skip_ws_head(rem_b);
                        if crate::input::skip_ws(rem_b).len() > 0 {
                            assert(crate::input::take_token(crate::input::skip_ws(rem_b)).len()
                                >= 1);
                        }
                        assert(crate::input::skip_ws(rem_b).len() == 0);
                        assert(self.input.remaining() =~= Seq::<u8>::empty());
                        assert(crate::builtin_words::loaded_or_same(tr.last(), self.memory));
                    }
                    return Ok(());
                },
            }
        }
    }
}

impl Default for Machine<EmptyInput, StringOutput> {
    /// A machine with no input that collects its output in memory.
    fn default() -> (r: Machine<EmptyInput, StringOutput>)
        ensures
            r.wf(),
            r.memory.here() == 0,
            r.memory.state() is Interpreter,
            r.memory.base() == 10,
            r.memory.last_article_ptr is None,
            r.fuel == u64::MAX,
    {
        Machine::new(EmptyInput {  }, StringOutput::new())
    }
}

} // verus!
