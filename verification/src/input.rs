//! Byte sources feeding the machine: a trait for collaborators, an empty
//! source and a string-backed source. Reading a whitespace-delimited word is
//! implemented once, over any source, with a step budget so that every loop
//! provably terminates.

use vstd::prelude::*;
use vstd::string::StringSliceAdditionalSpecFns;

verus! {

#[derive(Debug)]
pub enum InputError {
    /// An error of the host's own input channel, described as text.
    StdIOError(String),
    IllegalOffset,
    BufferOverflow,
    /// The step budget ran out before the read finished.
    OutOfFuel,
}

pub fn is_whitespace(chr: u8) -> (r: bool)
    ensures
        r == byte_is_whitespace(chr),
{
    chr == 0x20 || chr == 0x09 || chr == 0x0A || chr == 0x0C || chr == 0x0D
}

/// ASCII whitespace, as word separators are classified.
pub open spec fn byte_is_whitespace(chr: u8) -> bool {
    chr == 0x20 || chr == 0x09 || chr == 0x0A || chr == 0x0C || chr == 0x0D
}

/// A byte source: reports one byte at a time, `None` on end of input. The
/// specification view `remaining` is the sequence of bytes still to come;
/// a source implemented outside the library is trusted to follow it, in
/// particular to report end of input only when no byte is left.
pub trait Input {
    /// The bytes this source will still deliver, in order.
    spec fn remaining(&self) -> Seq<u8>;

    fn read(&mut self) -> (r: Result<Option<u8>, InputError>)
        ensures
            r matches Ok(Some(b)) ==> old(self).remaining().len() > 0 && b == old(self).remaining()[0] && final(self).remaining() == old(self).remaining().drop_first(),
            r matches Ok(None) ==> old(self).remaining().len() == 0 && final(self).remaining()
                == old(self).remaining(),
            r is Err ==> r matches Err(InputError::StdIOError(_)) || r matches Err(
                InputError::IllegalOffset,
            ),
    ;

    fn tell(&self) -> Result<u32, InputError>;

    fn seek(&mut self, offset: u32) -> Result<(), InputError>;
}

/// Leading ASCII whitespace removed.
pub open spec fn skip_ws(s: Seq<u8>) -> Seq<u8>
    decreases s.len(),
{
    if s.len() == 0 {
        s
    } else if byte_is_whitespace(s[0]) {
        skip_ws(s.drop_first())
    } else {
        s
    }
}

/// The longest whitespace-free prefix.
pub open spec fn take_token(s: Seq<u8>) -> Seq<u8>
    decreases s.len(),
{
    if s.len() == 0 || byte_is_whitespace(s[0]) {
        Seq::empty()
    } else {
        seq![s[0]] + take_token(s.drop_first())
    }
}

/// The bytes left after the first token and its terminating whitespace
/// byte, if one follows it.
pub open spec fn after_token(s: Seq<u8>) -> Seq<u8> {
    let t = skip_ws(s);
    let token = take_token(t);
    if token.len() < t.len() {
        t.skip(token.len() + 1int)
    } else {
        t.skip(token.len() as int)
    }
}

/// The bytes before the first occurrence of `b`.
pub open spec fn upto_byte(s: Seq<u8>, b: u8) -> Seq<u8>
    decreases s.len(),
{
    if s.len() == 0 || s[0] == b {
        Seq::empty()
    } else {
        seq![s[0]] + upto_byte(s.drop_first(), b)
    }
}

/// `b` occurs somewhere in `s`.
pub open spec fn has_byte(s: Seq<u8>, b: u8) -> bool {
    exists|i: int| 0 <= i < s.len() && s[i] == b
}

/// A prefix free of `b` passes through `upto_byte` unchanged.
pub proof fn lemma_upto_byte_prepend(a: Seq<u8>, c: Seq<u8>, b: u8)
    requires
        forall|j: int| 0 <= j < a.len() ==> #[trigger] a[j] != b,
    ensures
        upto_byte(a + c, b) == a + upto_byte(c, b),
    decreases a.len(),
{
    if a.len() == 0 {
        assert(a + c =~= c);
        assert(a + upto_byte(c, b) =~= upto_byte(c, b));
    } else {
        lemma_upto_byte_prepend(a.drop_first(), c, b);
        assert((a + c).drop_first() =~= a.drop_first() + c);
        assert(upto_byte(a + c, b) =~= seq![(a + c)[0]] + upto_byte(a.drop_first() + c, b));
        assert(seq![(a + c)[0]] + (a.drop_first() + upto_byte(c, b)) =~= a + upto_byte(c, b));
    }
}

/// The result of `skip_ws` never starts with whitespace.
pub proof fn lemma_skip_ws_head(s: Seq<u8>)
    ensures
        skip_ws(s).len() > 0 ==> !byte_is_whitespace(skip_ws(s)[0]),
    decreases s.len(),
{
    if s.len() > 0 && byte_is_whitespace(s[0]) {
        lemma_skip_ws_head(s.drop_first());
    }
}

/// A whitespace-free prefix passes through `take_token` unchanged.
pub proof fn lemma_take_token_prepend(a: Seq<u8>, b: Seq<u8>)
    requires
        forall|j: int| 0 <= j < a.len() ==> !byte_is_whitespace(#[trigger] a[j]),
    ensures
        take_token(a + b) == a + take_token(b),
    decreases a.len(),
{
    if a.len() == 0 {
        assert(a + b =~= b);
        assert(a + take_token(b) =~= take_token(b));
    } else {
        lemma_take_token_prepend(a.drop_first(), b);
        assert((a + b).drop_first() =~= a.drop_first() + b);
        assert(take_token(a + b) =~= seq![(a + b)[0]] + take_token(a.drop_first() + b));
        assert(seq![(a + b)[0]] + (a.drop_first() + take_token(b)) =~= a + take_token(b));
    }
}

/// Skips leading whitespace, then reads non-whitespace bytes into a fresh
/// buffer of at most `max_len` bytes; a longer token fails with
/// `BufferOverflow`, end of input mid-token yields the partial token. Each
/// byte read costs one unit of `fuel`.
pub fn read_word<I: Input>(input: &mut I, max_len: usize, fuel: &mut u64) -> (r: Result<
    Vec<u8>,
    InputError,
>)
    ensures
        *final(fuel) <= *old(fuel),
        r matches Ok(w) ==> w@.len() <= max_len,
        r matches Ok(w) ==> forall|j: int| 0 <= j < w@.len() ==> !byte_is_whitespace(#[trigger] w@[j]),
        r matches Ok(w) ==> w@ == take_token(skip_ws(old(input).remaining())) && final(input).remaining() == after_token(old(input).remaining()),
        r == Err::<Vec<u8>, InputError>(InputError::BufferOverflow) ==> take_token(
            skip_ws(old(input).remaining()),
        ).len() > max_len,
        r == Err::<Vec<u8>, InputError>(InputError::OutOfFuel) ==> *final(fuel) == 0,
{
    let mut buffer: Vec<u8> = Vec::new();
    let mut started = false;
    let ghost rem0 = input.remaining();

    loop
        invariant
            *fuel <= *old(fuel),
            buffer@.len() <= max_len,
            !started ==> buffer@.len() == 0,
            forall|j: int| 0 <= j < buffer@.len() ==> !byte_is_whitespace(#[trigger] buffer@[j]),
            !started ==> skip_ws(input.remaining()) == skip_ws(rem0),
            started ==> skip_ws(rem0) =~= buffer@ + input.remaining(),
            rem0 == old(input).remaining(),
        decreases *fuel,
    {
        if *fuel == 0 {
            return Err(InputError::OutOfFuel);
        }
        *fuel = *fuel - 1;

        let ghost rem_before = input.remaining();
        match input.read()? {
            None => {
                proof {
                    if !started {
                        assert(skip_ws(rem0) =~= Seq::<u8>::empty());
                        assert(take_token(skip_ws(rem0)) =~= buffer@);
                    } else {
                        assert(input.remaining() =~= Seq::<u8>::empty());
                        assert(skip_ws(rem0) =~= buffer@ + Seq::<u8>::empty());
                        lemma_take_token_prepend(buffer@, Seq::<u8>::empty());
                        assert(take_token(skip_ws(rem0)) =~= buffer@);
                        assert(after_token(rem0) =~= Seq::<u8>::empty());
                    }
                    assert(after_token(rem0) =~= input.remaining());
                }
                return Ok(buffer);
            },
            Some(chr) => {
                if is_whitespace(chr) {
                    if started {
                        proof {
                            lemma_take_token_prepend(buffer@, rem_before);
                            assert(take_token(rem_before) =~= Seq::<u8>::empty());
                            assert(take_token(skip_ws(rem0)) =~= buffer@);
                            assert(skip_ws(rem0).skip(buffer@.len() as int) =~= rem_before);
                            assert(after_token(rem0) =~= input.remaining());
                        }
                        return Ok(buffer);
                    }
                    proof {
                        assert(skip_ws(rem_before) =~= skip_ws(rem_before.drop_first()));
                    }
                } else {
                    if buffer.len() >= max_len {
                        proof {
                            if !started {
                                assert(skip_ws(rem0) == skip_ws(rem_before));
                                assert(skip_ws(rem_before) =~= rem_before);
                                assert(buffer@ + rem_before =~= rem_before);
                            }
                            assert(skip_ws(rem0) =~= buffer@ + rem_before);
                            lemma_take_token_prepend(buffer@, rem_before);
                            assert(take_token(rem_before).len() >= 1);
                        }
                        return Err(InputError::BufferOverflow);
                    }
                    proof {
                        if !started {
                            assert(skip_ws(rem0) == skip_ws(rem_before));
                            assert(skip_ws(rem_before) =~= rem_before);
                        }
                        assert(buffer@.push(chr) + rem_before.drop_first() =~= buffer@
                            + rem_before);
                    }
                    buffer.push(chr);
                    started = true;
                }
            },
        }
    }
}

/// A source that is always at its end.
pub struct EmptyInput {}

impl Input for EmptyInput {
    open spec fn remaining(&self) -> Seq<u8> {
        Seq::empty()
    }

    fn read(&mut self) -> Result<Option<u8>, InputError> {
        Ok(None)
    }

    fn tell(&self) -> Result<u32, InputError> {
        Ok(0)
    }

    fn seek(&mut self, offset: u32) -> Result<(), InputError> {
        if offset != 0 {
            Err(InputError::IllegalOffset)
        } else {
            Ok(())
        }
    }
}

/// A source reading from a fixed string.
pub struct StaticStringInput {
    text: &'static str,
    offset: u32,
}

impl Default for StaticStringInput {
    fn default() -> Self {
        StaticStringInput { text: "", offset: 0 }
    }
}

impl StaticStringInput {
    pub fn new(text: &'static str) -> StaticStringInput {
        StaticStringInput { text, offset: 0 }
    }
}

impl Input for StaticStringInput {
    /// The text's bytes from the current offset on; a text longer than the
    /// offset type can address is cut there.
    closed spec fn remaining(&self) -> Seq<u8> {
        let b = self.text.spec_bytes();
        let end = if b.len() <= 0xFFFFFFFF {
            b.len() as int
        } else {
            0xFFFFFFFF
        };
        if self.offset <= end {
            b.subrange(self.offset as int, end)
        } else {
            Seq::empty()
        }
    }

    fn read(&mut self) -> (r: Result<Option<u8>, InputError>) {
        let b_str = self.text.as_bytes();
        let offset = self.offset as usize;

        if offset < b_str.len() && self.offset < u32::MAX {
            self.offset = self.offset + 1;

            proof {
                assert(old(self).remaining()[0] == self.text.spec_bytes()[offset as int]);
                assert(self.remaining() =~= old(self).remaining().drop_first());
            }
            Ok(Some(b_str[offset]))
        } else {
            proof {
                assert(old(self).remaining().len() == 0);
            }
            Ok(None)
        }
    }

    fn tell(&self) -> Result<u32, InputError> {
        Ok(self.offset)
    }

    fn seek(&mut self, offset: u32) -> Result<(), InputError> {
        if (offset as usize) >= self.text.as_bytes().len() {
            return Err(InputError::IllegalOffset);
        }

        self.offset = offset;

        Ok(())
    }
}

/// A source reading from an owned byte buffer, handed over by the host
/// one chunk at a time.
pub struct StringInput {
    text: Vec<u8>,
    offset: usize,
}

impl StringInput {
    pub fn new(text: Vec<u8>) -> (r: StringInput)
        ensures
            r.remaining() == text@,
    {
        StringInput { text, offset: 0 }
    }
}

impl Input for StringInput {
    /// The buffer's bytes from the current offset on.
    closed spec fn remaining(&self) -> Seq<u8> {
        if self.offset <= self.text@.len() {
            self.text@.subrange(self.offset as int, self.text@.len() as int)
        } else {
            Seq::empty()
        }
    }

    fn read(&mut self) -> (r: Result<Option<u8>, InputError>) {
        if self.offset < self.text.len() {
            let b = self.text[self.offset];
            self.offset = self.offset + 1;
            proof {
                assert(old(self).remaining()[0] == b);
                assert(self.remaining() =~= old(self).remaining().drop_first());
            }
            Ok(Some(b))
        } else {
            proof {
                assert(old(self).remaining().len() == 0);
            }
            Ok(None)
        }
    }

    fn tell(&self) -> Result<u32, InputError> {
        if self.offset > 0xFFFFFFFFusize {
            Err(InputError::IllegalOffset)
        } else {
            Ok(self.offset as u32)
        }
    }

    fn seek(&mut self, offset: u32) -> Result<(), InputError> {
        if (offset as usize) >= self.text.len() {
            return Err(InputError::IllegalOffset);
        }

        self.offset = offset as usize;

        Ok(())
    }
}

} // verus!
