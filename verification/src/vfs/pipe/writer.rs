//! The write end of a pipe.
use vstd::prelude::*;
use super::{Pipe, Step, BUFFER_SIZE};

verus! {

/// A write end of a pipe. It is opened by [`Pipe::create_writer`] and
/// closed by [`Pipe::close_writer`], which keep the count of the write ends.
#[derive(Debug)]
pub struct PipeWriter {
    end: (),
}

/// Why a byte could not be written.
#[derive(Clone, Copy, PartialEq, Eq, Structural, Debug, Hash)]
pub enum WriteError {
    /// The pipe is full and has no reader left: nothing will ever be read
    /// from it again.
    BrokenPipe,
}

impl PipeWriter {
    /// A write end; [`Pipe::create_writer`] counts it.
    pub(crate) fn new() -> (r: Self) {
        PipeWriter { end: () }
    }

    /// Appends a byte to the pipe. On a full pipe, waits while a read end is
    /// open, and fails when none is.
    pub fn write_byte(&self, pipe: &mut Pipe, data: u8) -> (r: Step<Result<(), WriteError>>)
        requires
            old(pipe).wf(),
        ensures
            final(pipe).wf(),
            final(pipe).readers() == old(pipe).readers(),
            final(pipe).writers() == old(pipe).writers(),
            old(pipe).contents().len() < BUFFER_SIZE ==> r == Step::Done(Ok::<(), WriteError>(()))
                && final(pipe).contents() == old(pipe).contents().push(data),
            old(pipe).contents().len() >= BUFFER_SIZE ==> final(pipe).contents() == old(pipe).contents()
                && r == (if old(pipe).readers() == 0 {
                Step::Done(Err::<(), WriteError>(WriteError::BrokenPipe))
            } else {
                Step::Wait(0)
            }),
    {
        if pipe.push_byte(data) {
            Step::Done(Ok(()))
        } else if pipe.reader_count() == 0 {
            Step::Done(Err(WriteError::BrokenPipe))
        } else {
            Step::Wait(0)
        }
    }
}

} // verus!
