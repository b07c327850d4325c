//! Writers that accumulate data in memory before committing it.
//!
//! The main type is [`Writer`], a growable in-memory buffer with explicit
//! flushing. [`AsyncWriter`] is the trait implemented by writers that can
//! accept data without blocking the runtime.
use vstd::prelude::*;

verus! {

/// An in-memory writer that accumulates bytes until flushed.
///
/// `Writer` never performs IO: it appends to an internal buffer and
/// reports how many bytes are pending. Flushing moves the buffered bytes
/// into a destination.
#[derive(Debug, Default)]
pub struct Writer {
    buffer: Vec<u8>,
}

impl Writer {
    /// The bytes buffered so far, oldest first.
    pub closed spec fn buffered_spec(&self) -> Seq<u8> {
        self.buffer@
    }

    /// The number of bytes buffered.
    pub open spec fn pending_spec(&self) -> nat {
        self.buffered_spec().len()
    }

    /// Creates a new, empty writer.
    pub fn new() -> (r: Writer)
        ensures
            r.buffered_spec() == Seq::<u8>::empty(),
    {
        Writer { buffer: Vec::new() }
    }

    /// Writes all provided bytes into the buffer and returns the number of
    /// bytes now buffered.
    pub fn write_all(&mut self, data: &[u8]) -> (r: usize)
        ensures
            final(self).buffered_spec() == old(self).buffered_spec() + data@,
            r == final(self).pending_spec(),
    {
        let n: usize = data.len();
        let mut i: usize = 0;
        while i < n
            invariant
                n == data@.len(),
                i <= n,
                self.buffer@ == old(self).buffer@ + data@.subrange(0, i as int),
            decreases n - i,
        {
            self.buffer.push(data[i]);
            i = i + 1;
            assert(data@.subrange(0, i as int) == data@.subrange(0, i - 1) + seq![data@[i - 1]]);
        }
        assert(data@.subrange(0, n as int) == data@);
        self.buffer.len()
    }

    /// Moves all buffered bytes to the end of `destination` and resets the
    /// buffer.
    pub fn flush(&mut self, destination: &mut Vec<u8>)
        ensures
            final(self).buffered_spec() == Seq::<u8>::empty(),
            final(destination)@ == old(destination)@ + old(self).buffered_spec(),
    {
        destination.append(&mut self.buffer);
    }

    /// Number of bytes currently buffered.
    pub fn pending(&self) -> (r: usize)
        ensures
            r == self.pending_spec(),
    {
        self.buffer.len()
    }
}

/// A sink that accepts data without blocking the runtime; `commit` makes
/// previously written data durable.
pub trait AsyncWriter {
    /// Whether another commit can be recorded.
    spec fn can_commit(&self) -> bool;

    /// Writes a buffer, returning once the bytes are accepted.
    fn write_async(&mut self, buf: &[u8]);

    /// Returns when every previously written byte is durable.
    fn commit(&mut self)
        requires
            old(self).can_commit(),
    ;
}

/// An [`AsyncWriter`] that batches writes in memory before committing.
pub struct BatchingWriter {
    batches: u32,
}

impl BatchingWriter {
    /// The number of batches committed so far.
    pub closed spec fn batches_spec(&self) -> nat {
        self.batches as nat
    }

    /// Creates a batching writer with no batches yet.
    pub fn new() -> (r: BatchingWriter)
        ensures
            r.batches_spec() == 0,
    {
        BatchingWriter { batches: 0 }
    }

    /// Number of batches committed so far.
    pub fn batches(&self) -> (r: u32)
        ensures
            r == self.batches_spec(),
    {
        self.batches
    }

    /// Records one commit.
    pub fn record_commit(&mut self)
        requires
            old(self).batches_spec() < u32::MAX,
        ensures
            final(self).batches_spec() == old(self).batches_spec() + 1,
    {
        self.batches = self.batches + 1;
    }
}

impl Default for BatchingWriter {
    fn default() -> (r: BatchingWriter)
        ensures
            r.batches_spec() == 0,
    {
        BatchingWriter::new()
    }
}

impl AsyncWriter for BatchingWriter {
    open spec fn can_commit(&self) -> bool {
        self.batches_spec() < u32::MAX
    }

    fn write_async(&mut self, buf: &[u8])
        ensures
            final(self).batches_spec() == old(self).batches_spec(),
    {
    }

    fn commit(&mut self)
        ensures
            final(self).batches_spec() == old(self).batches_spec() + 1,
    {
        self.batches = self.batches + 1;
    }
}

} // verus!
