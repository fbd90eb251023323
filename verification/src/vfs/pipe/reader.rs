//! The read end of a pipe.
use vstd::prelude::*;
use super::{Pipe, Step};

verus! {

/// A read end of a pipe. It is opened by [`Pipe::create_reader`] and closed
/// by [`Pipe::close_reader`], which keep the count of the read ends.
#[derive(Debug)]
pub struct PipeReader {
    end: (),
}

/// Why a byte could not be read.
#[derive(Clone, Copy, PartialEq, Eq, Structural, Debug, Hash)]
pub enum ReadError {
    /// The pipe is empty and has no writer left: nothing will ever be
    /// written to it again.
    BrokenPipe,
}

impl PipeReader {
    /// A read end; [`Pipe::create_reader`] counts it.
    pub(crate) fn new() -> (r: Self) {
        PipeReader { end: () }
    }

    /// Reads the byte at the front of the pipe and removes it. On an empty
    /// pipe, waits while a write end is open, and fails when none is.
    pub fn read_byte(&self, pipe: &mut Pipe) -> (r: Step<Result<u8, ReadError>>)
        requires
            old(pipe).wf(),
        ensures
            final(pipe).wf(),
            final(pipe).readers() == old(pipe).readers(),
            final(pipe).writers() == old(pipe).writers(),
            old(pipe).contents().len() > 0 ==> r == Step::Done(Ok::<u8, ReadError>(old(pipe).contents()[0]))
                && final(pipe).contents() == old(pipe).contents().drop_first(),
            old(pipe).contents().len() == 0 ==> final(pipe).contents() == old(pipe).contents() && r == (
            if old(pipe).writers() == 0 {
                Step::Done(Err::<u8, ReadError>(ReadError::BrokenPipe))
            } else {
                Step::Wait(0)
            }),
    {
        match pipe.pop_byte() {
            Some(byte) => Step::Done(Ok(byte)),
            None => {
                if pipe.writer_count() == 0 {
                    Step::Done(Err(ReadError::BrokenPipe))
                } else {
                    Step::Wait(0)
                }
            },
        }
    }
}

} // verus!
