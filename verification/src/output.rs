//! Byte sinks the machine writes to: a trait for collaborators and an
//! in-memory sink that collects everything written.

use vstd::prelude::*;

verus! {

/// The low byte of a cell, as written by `EMIT`.
pub fn word_to_char(word: u16) -> (r: u8)
    ensures
        r == word % 256,
{
    (word % 256) as u8
}

#[derive(Debug)]
pub enum OutputError {
    /// An error of the host's own output channel, described as text.
    StdIOError(String),
}

/// A byte sink.
pub trait Output {
    fn putc(&mut self, character: u16) -> Result<(), OutputError>;

    fn puts(&mut self, data: &[u8]) -> Result<(), OutputError>;

    fn flush(&mut self) -> Result<(), OutputError>;
}

/// A sink that collects every written byte in memory.
pub struct StringOutput {
    pub content: Vec<u8>,
}

impl StringOutput {
    pub fn new() -> (r: StringOutput)
        ensures
            r.content@.len() == 0,
    {
        StringOutput { content: Vec::new() }
    }
}

impl Output for StringOutput {
    fn putc(&mut self, character: u16) -> Result<(), OutputError> {
        self.content.push(word_to_char(character));

        Ok(())
    }

    fn puts(&mut self, data: &[u8]) -> Result<(), OutputError> {
        let mut i: usize = 0;
        let n: usize = data.len();
        while i < n
            invariant
                n == data@.len(),
            decreases n - i,
        {
            self.content.push(data[i]);
            i = i + 1;
        }

        Ok(())
    }

    fn flush(&mut self) -> Result<(), OutputError> {
        Ok(())
    }
}

} // verus!
