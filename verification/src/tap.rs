//! The one place where the library calls code it cannot see into.
//!
//! The hasher and the sink are any `digest::Input + digest::FixedOutput` and
//! any `std::io::Write`, so nothing can be said here of what a call does to
//! them. What can be said is that a call was made, on which value, with
//! which bytes, and what came back. Four relations say so: [`fed_into`],
//! [`answered`], [`flushed`] and [`is_output`]. Nothing in the library can
//! show that one of them holds but the trusted function that makes the call.
//!
//! A [`Tap`] owns the hasher and the sink and is the only code that touches
//! them. Each of its operations makes one call on one of the two and enters
//! it in a ghost log.

use vstd::prelude::*;
use digest::{FixedOutput, Input};
use std::io::Write;
use crate::history::Call;

verus! {

/// `std::io::Error`, carried through unopened.
#[verifier::external_type_specification]
#[verifier::external_body]
pub struct ExIoError(std::io::Error);

/// `digest::Input::process` with the hasher passed in and handed back.
///
/// Trusted, and without a promise. It stands for the call where the hasher
/// before it and the hasher after it must be two values: [`fed_into`] is
/// stated over it.
#[verifier::external_body]
fn process_by_value<H: Input>(hasher: H, input: &[u8]) -> H {
    let mut hasher = hasher;
    hasher.process(input);
    hasher
}

/// `std::io::Write::write` with the sink passed in and handed back beside
/// its answer.
///
/// Trusted, and without a promise. [`answered`] is stated over it.
#[verifier::external_body]
fn write_by_value<W: Write>(sink: W, buf: &[u8]) -> (W, Result<usize, std::io::Error>) {
    let mut sink = sink;
    let outcome = sink.write(buf);
    (sink, outcome)
}

/// `std::io::Write::flush` with the sink passed in and handed back beside
/// its answer.
///
/// Trusted, and without a promise. [`flushed`] is stated over it.
#[verifier::external_body]
fn flush_by_value<W: Write>(sink: W) -> (W, Result<(), std::io::Error>) {
    let mut sink = sink;
    let ack = sink.flush();
    (sink, ack)
}

/// Whether one call of `digest::Input::process` with exactly `bytes` took
/// the hasher from `before` to `after`. It is a relation and no function:
/// nothing here says that a hasher fed the same bytes ends the same.
pub closed spec fn fed_into<H: Input>(before: H, bytes: Seq<u8>, after: H) -> bool {
    exists|input: &[u8]|
        input@ == bytes && #[trigger] call_ensures(process_by_value::<H>, (before, input), after)
}

/// Whether one call of `std::io::Write::write` with exactly `bytes` took the
/// sink from `before` to `after` and was answered with `outcome`.
pub closed spec fn answered<W: Write>(
    before: W,
    bytes: Seq<u8>,
    after: W,
    outcome: Result<usize, std::io::Error>,
) -> bool {
    exists|buf: &[u8]|
        buf@ == bytes && #[trigger] call_ensures(
            write_by_value::<W>,
            (before, buf),
            (after, outcome),
        )
}

/// Whether one call of `std::io::Write::flush` took the sink from `before`
/// to `after` and was answered with `ack`.
pub closed spec fn flushed<W: Write>(before: W, after: W, ack: Result<(), std::io::Error>) -> bool {
    call_ensures(flush_by_value::<W>, (before,), (after, ack))
}

/// Whether `out` is what ending `hasher` gave: the bytes that the call of
/// `digest::FixedOutput::fixed_result` on `hasher` returned. It is a relation
/// and no function: nothing here says that a hasher has one output only.
pub closed spec fn is_output<H: FixedOutput>(hasher: H, out: Vec<u8>) -> bool {
    call_ensures(hasher_fixed_result::<H>, (hasher,), out)
}

/// Calls `digest::Input::process` on `hasher` with `input`.
///
/// Trusted. The contract says that this one call, with these bytes, took
/// the hasher from what it was to what it is. Of what it is, nothing is
/// known.
#[verifier::external_body]
fn hasher_process<H: Input>(hasher: &mut H, input: &[u8])
    ensures
        fed_into(*old(hasher), input@, *final(hasher)),
{
    hasher.process(input)
}

/// Calls `digest::FixedOutput::fixed_result` on `hasher` and copies the
/// array that it returns, byte for byte, into a `Vec`.
///
/// Trusted, and without a promise: the bytes are whatever the hasher makes
/// of its state.
#[verifier::external_body]
fn hasher_fixed_result<H: FixedOutput>(hasher: H) -> Vec<u8> {
    hasher.fixed_result().to_vec()
}

/// Calls `std::io::Write::write` on `sink` with `buf` and returns its answer.
///
/// Trusted. The contract says that this one call, with these bytes, took
/// the sink from what it was to what it is and gave the answer returned. Of
/// the sink and of the answer themselves, nothing is known.
#[verifier::external_body]
fn sink_write<W: Write>(sink: &mut W, buf: &[u8]) -> (outcome: Result<usize, std::io::Error>)
    ensures
        answered(*old(sink), buf@, *final(sink), outcome),
{
    sink.write(buf)
}

/// Calls `std::io::Write::flush` on `sink` and returns its answer.
///
/// Trusted. The contract says that this one call took the sink from what it
/// was to what it is and gave the answer returned.
#[verifier::external_body]
fn sink_flush<W: Write>(sink: &mut W) -> (ack: Result<(), std::io::Error>)
    ensures
        flushed(*old(sink), *final(sink), ack),
{
    sink.flush()
}

/// A hasher and a sink, with the log of the calls made on them.
pub struct Tap<H, W> {
    hasher: H,
    sink: W,
    log: Ghost<Seq<Call>>,
}

impl<H, W> Tap<H, W> {
    /// The calls made through the tap since it was opened, oldest first.
    pub closed spec fn log(&self) -> Seq<Call> {
        self.log@
    }

    /// The hasher as it stands.
    pub closed spec fn hasher(&self) -> H {
        self.hasher
    }

    /// The sink as it stands.
    pub closed spec fn sink(&self) -> W {
        self.sink
    }

    /// Takes the two in as they are, with an empty log.
    pub(crate) fn open(hasher: H, sink: W) -> (tap: Self)
        ensures
            tap.hasher() == hasher,
            tap.sink() == sink,
            tap.log() == Seq::<Call>::empty(),
    {
        Tap { hasher, sink, log: Ghost(Seq::empty()) }
    }
}

impl<H: Input, W> Tap<H, W> {
    /// Feeds the hasher the chunk `buf` in one call. The sink is not
    /// touched.
    pub(crate) fn absorb(&mut self, buf: &[u8])
        ensures
            fed_into(old(self).hasher(), buf@, final(self).hasher()),
            final(self).sink() == old(self).sink(),
            final(self).log() == old(self).log().push(Call::Update { bytes: buf@ }),
    {
        hasher_process(&mut self.hasher, buf);
        self.log = Ghost(self.log@.push(Call::Update { bytes: buf@ }));
    }
}

impl<H, W: Write> Tap<H, W> {
    /// Offers the sink the chunk `buf` in one call and returns its answer.
    /// The hasher is not touched.
    pub(crate) fn offer(&mut self, buf: &[u8]) -> (outcome: Result<usize, std::io::Error>)
        ensures
            answered(old(self).sink(), buf@, final(self).sink(), outcome),
            final(self).hasher() == old(self).hasher(),
            final(self).log() == old(self).log().push(Call::Write { bytes: buf@, outcome }),
    {
        let outcome = sink_write(&mut self.sink, buf);
        self.log = Ghost(self.log@.push(Call::Write { bytes: buf@, outcome }));
        outcome
    }

    /// Asks the sink to flush in one call and returns its answer. The
    /// hasher is not touched.
    pub(crate) fn drain(&mut self) -> (ack: Result<(), std::io::Error>)
        ensures
            flushed(old(self).sink(), final(self).sink(), ack),
            final(self).hasher() == old(self).hasher(),
            final(self).log() == old(self).log().push(Call::Flush { ack }),
    {
        let ack = sink_flush(&mut self.sink);
        self.log = Ghost(self.log@.push(Call::Flush { ack }));
        ack
    }
}

impl<H: FixedOutput, W> Tap<H, W> {
    /// Ends the hasher as it stands and returns its output. The sink is
    /// dropped.
    pub(crate) fn conclude(self) -> (out: Vec<u8>)
        ensures
            is_output(self.hasher(), out),
    {
        hasher_fixed_result(self.hasher)
    }
}

} // verus!
