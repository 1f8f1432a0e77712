//! The writer itself.

use vstd::prelude::*;
use digest::{FixedOutput, Input};
use std::io::Write;
use crate::chain::{tied, State};
use crate::history::{after_flush, after_write, Call};
use crate::laws::{lemma_flush_keeps_tied, lemma_write_keeps_tied};
use crate::tap::{answered, fed_into, flushed, is_output, Tap};

verus! {

/// A writer that feeds a hasher with everything it forwards to a sink.
///
/// Its view is the hasher and the sink as they stand, as they were when the
/// writer was built, and the log of the calls made on them since.
pub struct HashWriter<H, W> {
    tap: Tap<H, W>,
    first_hasher: Ghost<H>,
    first_sink: Ghost<W>,
}

impl<H, W> View for HashWriter<H, W> {
    type V = State<H, W>;

    closed spec fn view(&self) -> State<H, W> {
        State {
            first_hasher: self.first_hasher@,
            first_sink: self.first_sink@,
            hasher: self.tap.hasher(),
            sink: self.tap.sink(),
            log: self.tap.log(),
        }
    }
}

impl<H, W> HashWriter<H, W> {
    /// Builds a writer around `hash`, in whatever state it is, and `writer`.
    /// Neither is called.
    pub fn new(hash: H, writer: W) -> (r: Self)
        ensures
            r@.first_hasher == hash,
            r@.first_sink == writer,
            r@.hasher == hash,
            r@.sink == writer,
            r@.log == Seq::<Call>::empty(),
    {
        let ghost first_hasher = hash;
        let ghost first_sink = writer;
        HashWriter {
            tap: Tap::open(hash, writer),
            first_hasher: Ghost(first_hasher),
            first_sink: Ghost(first_sink),
        }
    }
}

impl<H: Default, W> HashWriter<H, W> {
    /// Builds a writer around a hasher in its default state and `writer`.
    pub fn from_writer(writer: W) -> (r: Self)
        ensures
            call_ensures(H::default, (), r@.hasher),
            r@.first_hasher == r@.hasher,
            r@.first_sink == writer,
            r@.sink == writer,
            r@.log == Seq::<Call>::empty(),
    {
        let hash = H::default();
        HashWriter::new(hash, writer)
    }
}

impl<H: Input, W: Write> HashWriter<H, W> {
    /// Feeds the hasher all of `buf` in one call, then offers `buf` to the
    /// sink in one call and returns the sink's answer as it is. What was
    /// hashed stays hashed when the sink takes less than `buf` or fails.
    pub fn write(&mut self, buf: &[u8]) -> (r: Result<usize, std::io::Error>)
        ensures
            fed_into(old(self)@.hasher, buf@, final(self)@.hasher),
            answered(old(self)@.sink, buf@, final(self)@.sink, r),
            final(self)@.log == after_write(old(self)@.log, buf@, r),
            final(self)@.first_hasher == old(self)@.first_hasher,
            final(self)@.first_sink == old(self)@.first_sink,
            tied(old(self)@) ==> tied(final(self)@),
    {
        self.tap.absorb(buf);
        let r = self.tap.offer(buf);
        proof {
            if tied(old(self)@) {
                lemma_write_keeps_tied(old(self)@, buf@, r, self@);
            }
        }
        r
    }

    /// Asks the sink to flush in one call and returns its answer as it is.
    /// The hasher is left as it was.
    pub fn flush(&mut self) -> (r: Result<(), std::io::Error>)
        ensures
            flushed(old(self)@.sink, final(self)@.sink, r),
            final(self)@.hasher == old(self)@.hasher,
            final(self)@.log == after_flush(old(self)@.log, r),
            final(self)@.first_hasher == old(self)@.first_hasher,
            final(self)@.first_sink == old(self)@.first_sink,
            tied(old(self)@) ==> tied(final(self)@),
    {
        let r = self.tap.drain();
        proof {
            if tied(old(self)@) {
                lemma_flush_keeps_tied(old(self)@, r, self@);
            }
        }
        r
    }
}

impl<H: FixedOutput, W> HashWriter<H, W> {
    /// Ends the hasher and returns its output. The writer is consumed and
    /// the sink is dropped.
    ///
    /// The bytes are those that the hasher, as the last write left it, gave
    /// when it was ended. Which bytes those are is the hasher's to say.
    pub fn digest(self) -> (out: Vec<u8>)
        ensures
            is_output(self@.hasher, out),
    {
        self.tap.conclude()
    }
}

impl<H: Input, W: Write> Write for HashWriter<H, W> {
    /// [`HashWriter::write`], under the name by which `std::io` calls it.
    fn write(&mut self, buf: &[u8]) -> (r: Result<usize, std::io::Error>)
        ensures
            fed_into(old(self)@.hasher, buf@, final(self)@.hasher),
            answered(old(self)@.sink, buf@, final(self)@.sink, r),
            final(self)@.log == after_write(old(self)@.log, buf@, r),
            final(self)@.first_hasher == old(self)@.first_hasher,
            final(self)@.first_sink == old(self)@.first_sink,
            tied(old(self)@) ==> tied(final(self)@),
    {
        HashWriter::write(self, buf)
    }

    /// [`HashWriter::flush`], under the name by which `std::io` calls it.
    fn flush(&mut self) -> (r: Result<(), std::io::Error>)
        ensures
            flushed(old(self)@.sink, final(self)@.sink, r),
            final(self)@.hasher == old(self)@.hasher,
            final(self)@.log == after_flush(old(self)@.log, r),
            final(self)@.first_hasher == old(self)@.first_hasher,
            final(self)@.first_sink == old(self)@.first_sink,
            tied(old(self)@) ==> tied(final(self)@),
    {
        HashWriter::flush(self)
    }
}

} // verus!
