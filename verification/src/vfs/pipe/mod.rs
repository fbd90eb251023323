//! Pipes: a buffer of bytes with a read end and a write end, first in,
//! first out.
//!
//! A read or a write on a pipe may have to wait: for data when the pipe is
//! empty, for room when it is full. The functions here decide, and say so
//! with [`Step::Wait`]; the caller then wakes up a thread waiting on the
//! other end, puts the current thread to sleep, and calls again.
use vstd::prelude::*;
use circular_buffer::CircularBuffer;
use self::reader::PipeReader;
use self::writer::PipeWriter;
use super::file;

pub mod reader;
pub mod writer;

verus! {

/// The number of bytes a pipe holds at most.
pub const BUFFER_SIZE: usize = 4096;

#[verifier::external_type_specification]
#[verifier::external_body]
#[verifier::reject_recursive_types(T)]
pub struct ExCircularBuffer<const N: usize, T>(CircularBuffer<N, T>);

/// What the buffer of a pipe holds, front first.
pub uninterp spec fn buffer_contents(buffer: CircularBuffer<BUFFER_SIZE, u8>) -> Seq<u8>;

/// `CircularBuffer::boxed`: an empty buffer on the heap.
#[verifier::external_body]
fn new_buffer() -> (r: Box<CircularBuffer<BUFFER_SIZE, u8>>)
    ensures
        buffer_contents(*r) == Seq::<u8>::empty(),
{
    CircularBuffer::boxed()
}

/// `CircularBuffer::try_push_back`: appends the byte when the buffer is not
/// full; leaves the buffer as it was, and hands the byte back as an error,
/// when it is. The result says whether the byte went in.
#[verifier::external_body]
fn try_push_back(buffer: &mut CircularBuffer<BUFFER_SIZE, u8>, byte: u8) -> (pushed: bool)
    ensures
        pushed == (buffer_contents(*old(buffer)).len() < BUFFER_SIZE),
        pushed ==> buffer_contents(*final(buffer)) == buffer_contents(*old(buffer)).push(byte),
        !pushed ==> buffer_contents(*final(buffer)) == buffer_contents(*old(buffer)),
{
    match buffer.try_push_back(byte) {
        Ok(()) => true,
        Err(_) => false,
    }
}

/// `CircularBuffer::pop_front`: removes and returns the front byte, or
/// `None` when the buffer is empty.
#[verifier::external_body]
fn pop_front(buffer: &mut CircularBuffer<BUFFER_SIZE, u8>) -> (r: Option<u8>)
    ensures
        buffer_contents(*old(buffer)).len() == 0 ==> r is None && buffer_contents(*final(buffer))
            == buffer_contents(*old(buffer)),
        buffer_contents(*old(buffer)).len() > 0 ==> r == Some(buffer_contents(*old(buffer))[0])
            && buffer_contents(*final(buffer)) == buffer_contents(*old(buffer)).drop_first(),
{
    buffer.pop_front()
}

/// A pipe: the bytes written to its write end and not yet read from its
/// read end, and the number of open ends of each kind.
pub struct Pipe {
    buffer: Box<CircularBuffer<BUFFER_SIZE, u8>>,
    readers: usize,
    writers: usize,
}

/// What a pipe operation asks of its caller.
#[derive(Clone, Copy, PartialEq, Eq, Structural, Debug)]
pub enum Step<T> {
    /// The operation is over, with this outcome.
    Done(T),
    /// The operation must wait, having moved the given number of bytes so
    /// far: the caller wakes up a thread waiting on the other end, puts the
    /// current thread to sleep, and calls again with that number.
    Wait(usize),
}

/// The smaller of two integers.
pub open spec fn min(a: int, b: int) -> int {
    if a <= b {
        a
    } else {
        b
    }
}

/// The number of bytes a write appends, from position `from` of `buf`, to
/// a pipe that holds `contents`: as many as fit.
pub open spec fn pushed(contents: Seq<u8>, buf: Seq<u8>, from: int) -> int {
    min(buf.len() - from, BUFFER_SIZE - contents.len())
}

/// The outcome of a write of `buf`, from position `from`, that appended
/// `k` bytes, on a pipe with `readers` open read ends: done when the whole
/// buffer went in; otherwise the pipe is full, and the write waits while
/// someone may still read, ends with what went in when nobody can, or
/// fails if nothing went in at all.
pub open spec fn write_outcome(buf: Seq<u8>, from: int, k: int, readers: usize) -> Step<
    Result<usize, file::WriteError>,
> {
    if from + k == buf.len() {
        Step::Done(Ok(buf.len() as usize))
    } else if readers > 0 {
        Step::Wait((from + k) as usize)
    } else if from + k == 0 {
        Step::Done(Err(file::WriteError::BrokenPipe))
    } else {
        Step::Done(Ok((from + k) as usize))
    }
}

/// The number of bytes a read of at most `want` bytes takes from a pipe
/// that holds `contents`: as many as there are.
pub open spec fn popped(contents: Seq<u8>, want: int) -> int {
    min(want, contents.len() as int)
}

/// The outcome of a read into a buffer of length `len`, from position
/// `from`, that took `k` bytes, on a pipe with `writers` open write ends:
/// done when the buffer is full; otherwise the pipe is empty, and the read
/// waits while someone may still write, ends with what it took when nobody
/// can, or fails if it took nothing at all.
pub open spec fn read_outcome(len: int, from: int, k: int, writers: usize) -> Step<
    Result<usize, file::ReadError>,
> {
    if from + k == len {
        Step::Done(Ok(len as usize))
    } else if writers > 0 {
        Step::Wait((from + k) as usize)
    } else if from + k == 0 {
        Step::Done(Err(file::ReadError::BrokenPipe))
    } else {
        Step::Done(Ok((from + k) as usize))
    }
}

impl Pipe {
    /// The size of the buffer of a pipe, in bytes.
    pub const BUFFER_SIZE: usize = 4096;

    /// The bytes in the pipe, in the order they were written.
    pub closed spec fn contents(self) -> Seq<u8> {
        buffer_contents(*self.buffer)
    }

    /// The number of open read ends.
    pub closed spec fn readers(self) -> usize {
        self.readers
    }

    /// The number of open write ends.
    pub closed spec fn writers(self) -> usize {
        self.writers
    }

    /// The pipe holds at most [`BUFFER_SIZE`] bytes.
    pub open spec fn wf(self) -> bool {
        self.contents().len() <= BUFFER_SIZE
    }

    /// Creates an empty pipe, without any open end.
    pub fn new() -> (r: Self)
        ensures
            r.wf(),
            r.contents() == Seq::<u8>::empty(),
            r.readers() == 0,
            r.writers() == 0,
    {
        Pipe { buffer: new_buffer(), readers: 0, writers: 0 }
    }

    /// Opens a read end of the pipe.
    pub fn create_reader(&mut self) -> (r: PipeReader)
        requires
            old(self).readers() < usize::MAX,
        ensures
            final(self).readers() == old(self).readers() + 1,
            final(self).writers() == old(self).writers(),
            final(self).contents() == old(self).contents(),
    {
        self.increment_readers();
        PipeReader::new()
    }

    /// Opens a write end of the pipe.
    pub fn create_writer(&mut self) -> (r: PipeWriter)
        requires
            old(self).writers() < usize::MAX,
        ensures
            final(self).writers() == old(self).writers() + 1,
            final(self).readers() == old(self).readers(),
            final(self).contents() == old(self).contents(),
    {
        self.increment_writers();
        PipeWriter::new()
    }

    /// Closes a read end of the pipe. A writer waiting on a full pipe must
    /// then be woken up: this end may have been the last one.
    pub fn close_reader(&mut self, reader: PipeReader)
        requires
            old(self).readers() > 0,
        ensures
            final(self).readers() == old(self).readers() - 1,
            final(self).writers() == old(self).writers(),
            final(self).contents() == old(self).contents(),
    {
        self.decrement_readers();
    }

    /// Closes a write end of the pipe. A reader waiting on an empty pipe
    /// must then be woken up: this end may have been the last one.
    pub fn close_writer(&mut self, writer: PipeWriter)
        requires
            old(self).writers() > 0,
        ensures
            final(self).writers() == old(self).writers() - 1,
            final(self).readers() == old(self).readers(),
            final(self).contents() == old(self).contents(),
    {
        self.decrement_writers();
    }

    /// Increments the number of readers and returns the new value.
    fn increment_readers(&mut self) -> (r: usize)
        requires
            old(self).readers < usize::MAX,
        ensures
            r == old(self).readers + 1,
            *final(self) == (Pipe { readers: r, ..*old(self) }),
    {
        self.readers = self.readers + 1;
        self.readers
    }

    /// Decrements the number of readers and returns the new value.
    fn decrement_readers(&mut self) -> (r: usize)
        requires
            old(self).readers > 0,
        ensures
            r == old(self).readers - 1,
            *final(self) == (Pipe { readers: r, ..*old(self) }),
    {
        self.readers = self.readers - 1;
        self.readers
    }

    /// Increments the number of writers and returns the new value.
    fn increment_writers(&mut self) -> (r: usize)
        requires
            old(self).writers < usize::MAX,
        ensures
            r == old(self).writers + 1,
            *final(self) == (Pipe { writers: r, ..*old(self) }),
    {
        self.writers = self.writers + 1;
        self.writers
    }

    /// Decrements the number of writers and returns the new value.
    fn decrement_writers(&mut self) -> (r: usize)
        requires
            old(self).writers > 0,
        ensures
            r == old(self).writers - 1,
            *final(self) == (Pipe { writers: r, ..*old(self) }),
    {
        self.writers = self.writers - 1;
        self.writers
    }

    /// Returns the number of readers.
    pub fn reader_count(&self) -> (r: usize)
        ensures
            r == self.readers(),
    {
        self.readers
    }

    /// Returns the number of writers.
    pub fn writer_count(&self) -> (r: usize)
        ensures
            r == self.writers(),
    {
        self.writers
    }

    /// Appends a byte, if the pipe has room for it.
    pub fn push_byte(&mut self, byte: u8) -> (r: bool)
        requires
            old(self).wf(),
        ensures
            final(self).wf(),
            final(self).readers() == old(self).readers(),
            final(self).writers() == old(self).writers(),
            r == (old(self).contents().len() < BUFFER_SIZE),
            r ==> final(self).contents() == old(self).contents().push(byte),
            !r ==> final(self).contents() == old(self).contents(),
    {
        try_push_back(&mut *self.buffer, byte)
    }

    /// Removes and returns the byte at the front of the pipe, if any.
    pub fn pop_byte(&mut self) -> (r: Option<u8>)
        requires
            old(self).wf(),
        ensures
            final(self).wf(),
            final(self).readers() == old(self).readers(),
            final(self).writers() == old(self).writers(),
            old(self).contents().len() == 0 ==> r is None
                && final(self).contents() == old(self).contents(),
            old(self).contents().len() > 0 ==> r == Some(old(self).contents()[0])
                && final(self).contents() == old(self).contents().drop_first(),
    {
        pop_front(&mut *self.buffer)
    }

    /// Writes `buf`, from position `written` on, to the pipe: appends as
    /// many bytes as fit, then says whether the write is over or must wait.
    /// The offset of a pipe is meaningless, so there is none.
    pub fn write(&mut self, buf: &[u8], written: usize) -> (r: Step<Result<usize, file::WriteError>>)
        requires
            old(self).wf(),
            written <= buf@.len(),
        ensures
            final(self).wf(),
            final(self).readers() == old(self).readers(),
            final(self).writers() == old(self).writers(),
            ({
                let k = pushed(old(self).contents(), buf@, written as int);
                &&& final(self).contents() == old(self).contents() + buf@.subrange(
                    written as int,
                    written + k,
                )
                &&& r == write_outcome(buf@, written as int, k, old(self).readers())
            }),
    {
        let mut i = written;
        while i < buf.len()
            invariant_except_break
                i < buf@.len() ==> self.contents().len() == old(self).contents().len() + (i - written),
            invariant
                self.wf(),
                written <= i <= buf@.len(),
                self.readers() == old(self).readers(),
                self.writers() == old(self).writers(),
                old(self).contents().len() + (i - written) <= BUFFER_SIZE,
                self.contents() == old(self).contents() + buf@.subrange(written as int, i as int),
            ensures
                i == buf@.len() || old(self).contents().len() + (i - written) == BUFFER_SIZE,
                self.contents() == old(self).contents() + buf@.subrange(written as int, i as int),
            decreases buf@.len() - i,
        {
            if !self.push_byte(buf[i]) {
                break;
            }
            assert(buf@.subrange(written as int, i + 1) =~= buf@.subrange(written as int, i as int).push(buf@[i as int]));
            i = i + 1;
        }
        if i == buf.len() {
            Step::Done(Ok(buf.len()))
        } else if self.readers > 0 {
            Step::Wait(i)
        } else if i == 0 {
            Step::Done(Err(file::WriteError::BrokenPipe))
        } else {
            Step::Done(Ok(i))
        }
    }

    /// Reads into `buf`, from position `readed` on, from the pipe: takes as
    /// many bytes as there are, then says whether the read is over or must
    /// wait. The offset of a pipe is meaningless, so there is none.
    pub fn read(&mut self, buf: &mut Vec<u8>, readed: usize) -> (r: Step<Result<usize, file::ReadError>>)
        requires
            old(self).wf(),
            readed <= old(buf)@.len(),
        ensures
            final(self).wf(),
            final(self).readers() == old(self).readers(),
            final(self).writers() == old(self).writers(),
            final(buf)@.len() == old(buf)@.len(),
            ({
                let k = popped(old(self).contents(), old(buf)@.len() - readed);
                &&& final(self).contents() == old(self).contents().skip(k)
                &&& final(buf)@ == old(buf)@.take(readed as int) + old(self).contents().take(k)
                    + old(buf)@.skip(readed + k)
                &&& r == read_outcome(old(buf)@.len() as int, readed as int, k, old(self).writers())
            }),
    {
        let mut i = readed;
        let ghost c0 = self.contents();
        let ghost b0 = buf@;
        assert(c0.skip(0) =~= c0);
        assert(b0 =~= b0.take(readed as int) + c0.take(0) + b0.skip(readed as int));
        while i < buf.len()
            invariant_except_break
                i < b0.len() ==> i - readed <= c0.len(),
            invariant
                self.wf(),
                readed <= i <= b0.len(),
                buf@.len() == b0.len(),
                self.readers() == old(self).readers(),
                self.writers() == old(self).writers(),
                c0 == old(self).contents(),
                b0 == old(buf)@,
                i - readed <= c0.len(),
                self.contents() == c0.skip(i - readed),
                buf@ == b0.take(readed as int) + c0.take(i - readed) + b0.skip(i as int),
            ensures
                i == b0.len() || i - readed == c0.len(),
                self.contents() == c0.skip(i - readed),
                buf@ == b0.take(readed as int) + c0.take(i - readed) + b0.skip(i as int),
            decreases b0.len() - i,
        {
            match self.pop_byte() {
                Some(byte) => {
                    proof {
                        assert(c0.skip(i - readed)[0] == c0[i - readed]);
                        assert(c0.skip(i - readed).drop_first() =~= c0.skip(i + 1 - readed));
                    }
                    buf.set(i, byte);
                    proof {
                        assert(c0.take(i + 1 - readed) =~= c0.take(i - readed).push(byte));
                        assert(buf@ =~= b0.take(readed as int) + c0.take(i + 1 - readed) + b0.skip(i + 1));
                    }
                    i = i + 1;
                },
                None => {
                    assert(c0.skip(i - readed).len() == 0);
                    break;
                },
            }
        }
        if i == buf.len() {
            Step::Done(Ok(buf.len()))
        } else if self.writers > 0 {
            Step::Wait(i)
        } else if i == 0 {
            Step::Done(Err(file::ReadError::BrokenPipe))
        } else {
            Step::Done(Ok(i))
        }
    }

    /// Seeking in a pipe makes no sense: its bytes are made and consumed,
    /// not stored. It is always refused.
    pub fn seek(offset: isize, whence: file::Whence) -> (r: Result<file::Offset, file::SeekError>)
        ensures
            r == Err::<file::Offset, file::SeekError>(file::SeekError::NotSeekable),
    {
        Err(file::SeekError::NotSeekable)
    }
}

/// Creates a pipe with one read end and one write end, and the open files
/// of both ends: the first for reading, the second for writing.
pub fn create_pair() -> (r: (Pipe, file::File<PipeReader>, file::File<PipeWriter>))
    ensures
        r.0.wf(),
        r.0.contents() == Seq::<u8>::empty(),
        r.0.readers() == 1,
        r.0.writers() == 1,
        r.1.inode is None,
        r.1.operation == file::Operation::File(file::FileOperation),
        r.1.open_flags.spec_bits() == 1,
        r.1.state.offset == file::Offset(0),
        r.2.inode is None,
        r.2.operation == file::Operation::File(file::FileOperation),
        r.2.open_flags.spec_bits() == 2,
        r.2.state.offset == file::Offset(0),
{
    let mut pipe = Pipe::new();
    let reader = pipe.create_reader();
    let writer = pipe.create_writer();
    let reader_file = file::File::new(
        file::FileCreateInfo {
            operation: file::Operation::File(file::FileOperation),
            open_flags: file::OpenFlags::read(),
            data: reader,
            inode: None,
        },
    );
    let writer_file = file::File::new(
        file::FileCreateInfo {
            operation: file::Operation::File(file::FileOperation),
            open_flags: file::OpenFlags::write(),
            data: writer,
            inode: None,
        },
    );
    (pipe, reader_file, writer_file)
}

/// What is written to a pipe is read from it in the same order: after a
/// write that fits, a read of everything the pipe holds gives back what it
/// held before, then the bytes written.
pub proof fn law_fifo(contents: Seq<u8>, buf: Seq<u8>)
    requires
        contents.len() + buf.len() <= BUFFER_SIZE,
    ensures
        ({
            let k = pushed(contents, buf, 0);
            let after = contents + buf.subrange(0, k);
            &&& k == buf.len()
            &&& popped(after, after.len() as int) == after.len()
            &&& after.take(after.len() as int) == contents + buf
            &&& after.skip(after.len() as int) == Seq::<u8>::empty()
        }),
{
    let k = pushed(contents, buf, 0);
    let after = contents + buf.subrange(0, k);
    assert(buf.subrange(0, k) =~= buf);
    assert(after.take(after.len() as int) =~= after);
    assert(after.skip(after.len() as int) =~= Seq::<u8>::empty());
}

/// A write that finds a pipe full, while a read end is open, waits and
/// moves nothing: it never fails.
pub proof fn law_full_pipe_waits(contents: Seq<u8>, buf: Seq<u8>, from: int, readers: usize)
    requires
        contents.len() == BUFFER_SIZE,
        0 <= from < buf.len(),
        readers > 0,
    ensures
        pushed(contents, buf, from) == 0,
        write_outcome(buf, from, 0, readers) == Step::<Result<usize, file::WriteError>>::Wait(
            from as usize,
        ),
{
}

/// A read that finds a pipe empty, while a write end is open, waits and
/// moves nothing: it never fails.
pub proof fn law_empty_pipe_waits(len: int, from: int, writers: usize)
    requires
        0 <= from < len,
        writers > 0,
    ensures
        popped(Seq::<u8>::empty(), len - from) == 0,
        read_outcome(len, from, 0, writers) == Step::<Result<usize, file::ReadError>>::Wait(
            from as usize,
        ),
{
}

/// A pipe that is broken fails a write only when nothing went in: a write
/// that moved some bytes reports them, and the failure comes on the next
/// write.
pub proof fn law_broken_pipe_partial_write(buf: Seq<u8>, from: int, k: int)
    requires
        0 <= from,
        0 <= k,
        from + k < buf.len(),
    ensures
        write_outcome(buf, from, k, 0usize) == (if from + k == 0 {
            Step::Done(Err(file::WriteError::BrokenPipe))
        } else {
            Step::<Result<usize, file::WriteError>>::Done(Ok((from + k) as usize))
        }),
{
}

/// A pipe that is broken fails a read only when nothing was read: a read
/// that took some bytes reports them, and the failure comes on the next
/// read.
pub proof fn law_broken_pipe_partial_read(len: int, from: int, k: int)
    requires
        0 <= from,
        0 <= k,
        from + k < len,
    ensures
        read_outcome(len, from, k, 0usize) == (if from + k == 0 {
            Step::Done(Err(file::ReadError::BrokenPipe))
        } else {
            Step::<Result<usize, file::ReadError>>::Done(Ok((from + k) as usize))
        }),
{
}

} // verus!
