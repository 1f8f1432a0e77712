//! What a writer is, as the contracts see it, and how its log is tied to
//! the hasher and the sink that it holds.

use vstd::prelude::*;
use digest::{FixedOutput, Input};
use std::io::Write;
use crate::history::{fed, received, well_formed, Call, Op};
use crate::tap::{answered, fed_into, flushed, is_output};

verus! {

/// The view of a writer.
pub struct State<H, W> {
    /// The hasher that the writer was built around, as it then was.
    pub first_hasher: H,
    /// The sink that the writer was built around, as it then was.
    pub first_sink: W,
    /// The hasher as it stands.
    pub hasher: H,
    /// The sink as it stands.
    pub sink: W,
    /// The calls made on the two since the writer was built, oldest first.
    pub log: Seq<Call>,
}

/// Whether `states` are the hasher before, between and after the calls
/// that fed it `chunks`, one call for each chunk and in their order.
pub open spec fn feeds<H: Input>(states: Seq<H>, chunks: Seq<Seq<u8>>) -> bool {
    &&& states.len() == chunks.len() + 1
    &&& forall|i: int|
        0 <= i < chunks.len() ==> #[trigger] fed_into(states[i], chunks[i], states[i + 1])
}

/// Whether feeding `chunks` to the hasher, one call for each and in their
/// order, took it from `start` to `end`.
pub open spec fn fed_through<H: Input>(start: H, chunks: Seq<Seq<u8>>, end: H) -> bool {
    exists|states: Seq<H>|
        #[trigger] feeds(states, chunks) && states.first() == start && states.last() == end
}

/// Whether the one call that `op` names took the sink from `before` to
/// `after` and was answered as `op` says.
pub open spec fn serves<W: Write>(before: W, op: Op, after: W) -> bool {
    match op {
        Op::Write { bytes, outcome } => answered(before, bytes, after, outcome),
        Op::Flush { ack } => flushed(before, after, ack),
    }
}

/// Whether `states` are the sink before, between and after the calls that
/// `ops` name, one call for each and in their order, each answered as `ops`
/// say.
pub open spec fn serving<W: Write>(states: Seq<W>, ops: Seq<Op>) -> bool {
    &&& states.len() == ops.len() + 1
    &&& forall|i: int| 0 <= i < ops.len() ==> #[trigger] serves(states[i], ops[i], states[i + 1])
}

/// Whether the calls that `ops` name, one for each and in their order, took
/// the sink from `start` to `end` and were answered as `ops` say.
pub open spec fn served<W: Write>(start: W, ops: Seq<Op>, end: W) -> bool {
    exists|states: Seq<W>|
        #[trigger] serving(states, ops) && states.first() == start && states.last() == end
}

/// The invariant of a writer. Its log is that of a run of writes and
/// flushes; its hasher is the one it was built around after exactly the
/// chunks fed in the log, and after nothing else; its sink is the one it was
/// built around after exactly the calls received in the log, each answered
/// as the log says.
pub open spec fn tied<H: Input, W: Write>(state: State<H, W>) -> bool {
    &&& well_formed(state.log)
    &&& fed_through(state.first_hasher, fed(state.log), state.hasher)
    &&& served(state.first_sink, received(state.log), state.sink)
}

/// What is asked of a hasher for chunks to count as their concatenation:
/// feeding it nothing is a step that leaves it as it was, and what two calls
/// in a row lead to, one call with the two chunks end to end leads to.
pub open spec fn streaming<H: Input>() -> bool {
    &&& forall|hasher: H| #[trigger] fed_into(hasher, Seq::<u8>::empty(), hasher)
    &&& forall|start: H, one: Seq<u8>, mid: H, other: Seq<u8>, end: H|
        #[trigger] fed_into(start, one, mid) && #[trigger] fed_into(mid, other, end)
            ==> fed_into(start, one + other, end)
}

/// What is asked of a hasher for equal feeds to give equal digests: the same
/// bytes take the same hasher to the same hasher, and the same hasher gives
/// the same output.
pub open spec fn deterministic<H: Input + FixedOutput>() -> bool {
    &&& forall|start: H, bytes: Seq<u8>, one: H, other: H|
        #[trigger] fed_into(start, bytes, one) && #[trigger] fed_into(start, bytes, other)
            ==> one == other
    &&& forall|hasher: H, one: Vec<u8>, other: Vec<u8>|
        #[trigger] is_output(hasher, one) && #[trigger] is_output(hasher, other) ==> one@
            == other@
}

} // verus!
