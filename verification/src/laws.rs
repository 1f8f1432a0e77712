//! What holds of every writer: of its log, and of the hasher and the sink
//! that the log is tied to.

use vstd::prelude::*;
use digest::{FixedOutput, Input};
use std::io::Write;
use crate::chain::{
    deterministic, fed_through, feeds, served, serves, serving, streaming, tied, State,
};
use crate::history::{
    accepted, after, after_flush, after_write, chunks, fed, hashed, offered, received, run,
    well_formed, writes, written, Call, Op,
};
use crate::tap::{answered, fed_into, flushed, is_output};

verus! {

/// One more item adds what `pick` makes of it, if anything, to what `pick`
/// made of the items before it.
pub proof fn lemma_filter_map_push<A, B>(items: Seq<A>, pick: spec_fn(A) -> Option<B>, item: A)
    ensures
        items.push(item).filter_map(pick) == match pick(item) {
            Some(picked) => items.filter_map(pick).push(picked),
            None => items.filter_map(pick),
        },
{
    assert(items.push(item).drop_last() == items);
    if let Some(picked) = pick(item) {
        assert(items.filter_map(pick) + seq![picked] == items.filter_map(pick).push(picked));
    }
}

/// One more call adds the bytes that the sink took in it to the bytes
/// accepted.
pub proof fn lemma_accepted_push(log: Seq<Call>, call: Call)
    ensures
        accepted(log.push(call)) == accepted(log) + call.taken(),
{
    let taken = log.map_values(|call: Call| call.taken());
    assert(log.push(call).map_values(|call: Call| call.taken()) == taken.push(call.taken()));
    taken.lemma_flatten_push(call.taken());
}

/// One more operation adds its chunk, if it has one, to the chunks written.
pub proof fn lemma_chunks_push(ops: Seq<Op>, op: Op)
    ensures
        chunks(ops.push(op)) == match op.chunk() {
            Some(bytes) => chunks(ops).push(bytes),
            None => chunks(ops),
        },
{
    lemma_filter_map_push(ops, |op: Op| op.chunk(), op);
}

/// What one operation does to a log: the sink receives it; a write adds its
/// chunk to the chunks fed and to the chunks offered, and a flush adds none;
/// and where the sink takes the operation whole, it takes its chunk.
pub proof fn lemma_after(log: Seq<Call>, op: Op)
    ensures
        received(after(log, op)) == received(log).push(op),
        fed(after(log, op)) == match op.chunk() {
            Some(bytes) => fed(log).push(bytes),
            None => fed(log),
        },
        offered(after(log, op)) == match op.chunk() {
            Some(bytes) => offered(log).push(bytes),
            None => offered(log),
        },
        op.whole() ==> accepted(after(log, op)) == match op.chunk() {
            Some(bytes) => accepted(log) + bytes,
            None => accepted(log),
        },
{
    let to_fed = |call: Call| call.fed();
    let to_offered = |call: Call| call.offered();
    let to_received = |call: Call| call.received();
    match op {
        Op::Write { bytes, outcome } => {
            let update = Call::Update { bytes };
            let write = Call::Write { bytes, outcome };
            lemma_filter_map_push(log, to_received, update);
            lemma_filter_map_push(log.push(update), to_received, write);
            lemma_filter_map_push(log, to_fed, update);
            lemma_filter_map_push(log.push(update), to_fed, write);
            lemma_filter_map_push(log, to_offered, update);
            lemma_filter_map_push(log.push(update), to_offered, write);
            lemma_accepted_push(log, update);
            lemma_accepted_push(log.push(update), write);
            if op.whole() {
                assert(write.taken() == bytes);
                assert(accepted(log) + Seq::<u8>::empty() + bytes == accepted(log) + bytes);
            }
        },
        Op::Flush { ack } => {
            let flush = Call::Flush { ack };
            lemma_filter_map_push(log, to_received, flush);
            lemma_filter_map_push(log, to_fed, flush);
            lemma_filter_map_push(log, to_offered, flush);
            lemma_accepted_push(log, flush);
            assert(accepted(log) + Seq::<u8>::empty() == accepted(log));
        },
    }
}

/// No operation breaks the invariant of the log.
pub proof fn lemma_after_keeps_well_formed(log: Seq<Call>, op: Op)
    requires
        well_formed(log),
    ensures
        well_formed(after(log, op)),
{
    lemma_after(log, op);
    assert(received(log).push(op).drop_last() == received(log));
}

/// A new writer taken through `ops` has made its sink receive exactly
/// `ops`, and has fed its hasher, and offered its sink, exactly the chunks
/// that `ops` write.
pub proof fn lemma_run(ops: Seq<Op>)
    ensures
        received(run(ops)) == ops,
        fed(run(ops)) == chunks(ops),
        offered(run(ops)) == chunks(ops),
        well_formed(run(ops)),
    decreases ops.len(),
{
    if ops.len() > 0 {
        let front = ops.drop_last();
        lemma_run(front);
        lemma_after(run(front), ops.last());
        lemma_chunks_push(front, ops.last());
        assert(front.push(ops.last()) == ops);
    }
}

/// Where the sink took every operation whole, what it took is what was
/// written.
pub proof fn lemma_whole_runs_accept_all(ops: Seq<Op>)
    requires
        forall|i: int| 0 <= i < ops.len() ==> (#[trigger] ops[i]).whole(),
    ensures
        accepted(run(ops)) == chunks(ops).flatten(),
    decreases ops.len(),
{
    if ops.len() == 0 {
        assert(run(ops).map_values(|call: Call| call.taken()) == Seq::<Seq<u8>>::empty());
    } else {
        let front = ops.drop_last();
        let last = ops.last();
        lemma_whole_runs_accept_all(front);
        lemma_after(run(front), last);
        lemma_chunks_push(front, last);
        assert(front.push(last) == ops);
        if let Some(bytes) = last.chunk() {
            chunks(front).lemma_flatten_push(bytes);
        }
    }
}

/// The writes among `ops` write all of its chunks.
pub proof fn lemma_chunks_of_writes(ops: Seq<Op>)
    ensures
        chunks(writes(ops)) == chunks(ops),
    decreases ops.len(),
{
    reveal(Seq::filter);
    if ops.len() > 0 {
        let front = ops.drop_last();
        let last = ops.last();
        lemma_chunks_of_writes(front);
        lemma_chunks_push(front, last);
        assert(front.push(last) == ops);
        if last is Write {
            assert(writes(ops) == writes(front).push(last));
            lemma_chunks_push(writes(front), last);
        } else {
            assert(writes(ops) == writes(front));
        }
    }
}

/// No call at all leaves the hasher where it was.
pub proof fn lemma_fed_through_nothing<H: Input>(hasher: H)
    ensures
        fed_through(hasher, Seq::<Seq<u8>>::empty(), hasher),
{
    assert(feeds(seq![hasher], Seq::<Seq<u8>>::empty()));
}

/// One more call on the hasher lengthens the way that it has come.
pub proof fn lemma_fed_through_push<H: Input>(
    start: H,
    chunks: Seq<Seq<u8>>,
    mid: H,
    bytes: Seq<u8>,
    end: H,
)
    requires
        fed_through(start, chunks, mid),
        fed_into(mid, bytes, end),
    ensures
        fed_through(start, chunks.push(bytes), end),
{
    let states = choose|states: Seq<H>|
        #[trigger] feeds(states, chunks) && states.first() == start && states.last() == mid;
    let longer = states.push(end);
    assert forall|i: int| 0 <= i < chunks.push(bytes).len() implies #[trigger] fed_into(
        longer[i],
        chunks.push(bytes)[i],
        longer[i + 1],
    ) by {
        if i < chunks.len() {
            assert(fed_into(states[i], chunks[i], states[i + 1]));
        }
    }
    assert(feeds(longer, chunks.push(bytes)));
}

/// No call at all leaves the sink where it was.
pub proof fn lemma_served_nothing<W: Write>(sink: W)
    ensures
        served(sink, Seq::<Op>::empty(), sink),
{
    assert(serving(seq![sink], Seq::<Op>::empty()));
}

/// One more call on the sink lengthens the way that it has come.
pub proof fn lemma_served_push<W: Write>(start: W, ops: Seq<Op>, mid: W, op: Op, end: W)
    requires
        served(start, ops, mid),
        serves(mid, op, end),
    ensures
        served(start, ops.push(op), end),
{
    let states = choose|states: Seq<W>|
        #[trigger] serving(states, ops) && states.first() == start && states.last() == mid;
    let longer = states.push(end);
    assert forall|i: int| 0 <= i < ops.push(op).len() implies #[trigger] serves(
        longer[i],
        ops.push(op)[i],
        longer[i + 1],
    ) by {
        if i < ops.len() {
            assert(serves(states[i], ops[i], states[i + 1]));
        }
    }
    assert(serving(longer, ops.push(op)));
}

/// A writer that has done nothing yet meets the invariant.
pub proof fn law_new_writer_is_tied<H: Input, W: Write>(state: State<H, W>)
    requires
        state.hasher == state.first_hasher,
        state.sink == state.first_sink,
        state.log == Seq::<Call>::empty(),
    ensures
        tied(state),
{
    lemma_fed_through_nothing(state.hasher);
    lemma_served_nothing(state.sink);
}

/// A write keeps the invariant: the step that it makes on the hasher and
/// the step that it makes on the sink are the ones that its entries in the
/// log name.
pub proof fn lemma_write_keeps_tied<H: Input, W: Write>(
    before: State<H, W>,
    bytes: Seq<u8>,
    outcome: Result<usize, std::io::Error>,
    after: State<H, W>,
)
    requires
        tied(before),
        fed_into(before.hasher, bytes, after.hasher),
        answered(before.sink, bytes, after.sink, outcome),
        after.log == after_write(before.log, bytes, outcome),
        after.first_hasher == before.first_hasher,
        after.first_sink == before.first_sink,
    ensures
        tied(after),
{
    let op = Op::Write { bytes, outcome };
    lemma_after_keeps_well_formed(before.log, op);
    lemma_after(before.log, op);
    lemma_fed_through_push(before.first_hasher, fed(before.log), before.hasher, bytes, after.hasher);
    lemma_served_push(before.first_sink, received(before.log), before.sink, op, after.sink);
}

/// A flush keeps the invariant: the hasher has made no step, and the step
/// that the sink has made is the one that the log names.
pub proof fn lemma_flush_keeps_tied<H: Input, W: Write>(
    before: State<H, W>,
    ack: Result<(), std::io::Error>,
    after: State<H, W>,
)
    requires
        tied(before),
        flushed(before.sink, after.sink, ack),
        after.hasher == before.hasher,
        after.log == after_flush(before.log, ack),
        after.first_hasher == before.first_hasher,
        after.first_sink == before.first_sink,
    ensures
        tied(after),
{
    let op = Op::Flush { ack };
    lemma_after_keeps_well_formed(before.log, op);
    lemma_after(before.log, op);
    lemma_served_push(before.first_sink, received(before.log), before.sink, op, after.sink);
}

/// What a streaming hasher was fed chunk by chunk up to a point, it was fed
/// in one piece.
pub proof fn lemma_streamed_up_to<H: Input>(states: Seq<H>, chunks: Seq<Seq<u8>>, upto: int)
    requires
        streaming::<H>(),
        feeds(states, chunks),
        0 <= upto <= chunks.len(),
    ensures
        fed_into(states.first(), chunks.take(upto).flatten(), states[upto]),
    decreases upto,
{
    if upto == 0 {
        assert(chunks.take(0).flatten() == Seq::<u8>::empty());
    } else {
        lemma_streamed_up_to(states, chunks, upto - 1);
        assert(fed_into(states[upto - 1], chunks[upto - 1], states[upto - 1 + 1]));
        assert(chunks.take(upto) == chunks.take(upto - 1).push(chunks[upto - 1]));
        chunks.take(upto - 1).lemma_flatten_push(chunks[upto - 1]);
    }
}

/// What a streaming hasher was fed chunk by chunk, it was fed in one piece.
pub proof fn lemma_streamed<H: Input>(start: H, chunks: Seq<Seq<u8>>, end: H)
    requires
        streaming::<H>(),
        fed_through(start, chunks, end),
    ensures
        fed_into(start, chunks.flatten(), end),
{
    let states = choose|states: Seq<H>|
        #[trigger] feeds(states, chunks) && states.first() == start && states.last() == end;
    lemma_streamed_up_to(states, chunks, chunks.len() as int);
    assert(chunks.take(chunks.len() as int) == chunks);
}

/// The same chunks take a deterministic hasher from the same start through
/// the same states.
pub proof fn lemma_same_feed_same_states<H: Input + FixedOutput>(
    one: Seq<H>,
    other: Seq<H>,
    chunks: Seq<Seq<u8>>,
    upto: int,
)
    requires
        deterministic::<H>(),
        feeds(one, chunks),
        feeds(other, chunks),
        one.first() == other.first(),
        0 <= upto <= chunks.len(),
    ensures
        one[upto] == other[upto],
    decreases upto,
{
    if upto > 0 {
        lemma_same_feed_same_states(one, other, chunks, upto - 1);
        assert(fed_into(one[upto - 1], chunks[upto - 1], one[upto - 1 + 1]));
        assert(fed_into(other[upto - 1], chunks[upto - 1], other[upto - 1 + 1]));
    }
}

/// The same chunks take a deterministic hasher from the same start to the
/// same end.
pub proof fn lemma_same_feed_same_hasher<H: Input + FixedOutput>(
    start: H,
    chunks: Seq<Seq<u8>>,
    one: H,
    other: H,
)
    requires
        deterministic::<H>(),
        fed_through(start, chunks, one),
        fed_through(start, chunks, other),
    ensures
        one == other,
{
    let to_one = choose|states: Seq<H>|
        #[trigger] feeds(states, chunks) && states.first() == start && states.last() == one;
    let to_other = choose|states: Seq<H>|
        #[trigger] feeds(states, chunks) && states.first() == start && states.last() == other;
    lemma_same_feed_same_states(to_one, to_other, chunks, chunks.len() as int);
}

/// Pass-through. Over any run of writes and flushes the sink receives
/// exactly the operations asked of the writer, in their order: each write as
/// one call with the very bytes it was given, cut where the caller cut them,
/// and each answer in the log is the answer that the caller got.
pub proof fn law_pass_through(ops: Seq<Op>)
    ensures
        received(run(ops)) == ops,
        offered(run(ops)) == chunks(ops),
{
    lemma_run(ops);
}

/// Pass-through, of the sink itself. The sink of any writer is the sink it
/// was built around after exactly the calls in its log: one `write` for each
/// write of the writer, with the bytes of that write and the answer that the
/// writer returned, one `flush` for each flush, and no other call.
pub proof fn law_sink_is_served<H: Input, W: Write>(state: State<H, W>)
    requires
        tied(state),
    ensures
        served(state.first_sink, received(state.log), state.sink),
        offered(state.log) == chunks(received(state.log)),
{
    lemma_run(received(state.log));
}

/// No rollback. Whatever the sink answers, the bytes hashed after any run
/// of writes and flushes are all the bytes written, chunk after chunk:
/// nothing is held back, and nothing is taken back when the sink takes less
/// than it was offered or fails.
pub proof fn law_hashed_is_written(ops: Seq<Op>)
    ensures
        hashed(run(ops)) == chunks(ops).flatten(),
        hashed(run(ops)) == written(run(ops)),
{
    lemma_run(ops);
}

/// No rollback, of the hasher itself. The hasher of any writer is the
/// hasher it was built around after exactly the chunks offered to the sink,
/// each fed whole in one call, whatever the sink answered.
pub proof fn law_hasher_is_fed_what_was_offered<H: Input, W: Write>(state: State<H, W>)
    requires
        tied(state),
    ensures
        fed_through(state.first_hasher, offered(state.log), state.hasher),
        hashed(state.log) == written(state.log),
{
    lemma_run(received(state.log));
}

/// Accumulation. After any run of operations that the sink took whole, the
/// bytes hashed are the chunks written laid end to end, and they are the
/// bytes that the sink took.
pub proof fn law_accumulation(ops: Seq<Op>)
    requires
        forall|i: int| 0 <= i < ops.len() ==> (#[trigger] ops[i]).whole(),
    ensures
        hashed(run(ops)) == chunks(ops).flatten(),
        hashed(run(ops)) == accepted(run(ops)),
{
    lemma_run(ops);
    lemma_whole_runs_accept_all(ops);
}

/// Accumulation, of the hasher itself. Where the hasher is a streaming one,
/// the hasher of any writer is the hasher it was built around after one call
/// with all the bytes written, end to end. So the digest of the writer is
/// the output of a hasher that was fed the concatenation in one piece.
pub proof fn law_hasher_took_the_concatenation<H: Input, W: Write>(state: State<H, W>)
    requires
        streaming::<H>(),
        tied(state),
    ensures
        fed_into(state.first_hasher, written(state.log), state.hasher),
{
    lemma_run(received(state.log));
    lemma_streamed(state.first_hasher, fed(state.log), state.hasher);
}

/// Flush independence. Flushes, however many and wherever they fall among
/// the writes, change nothing of what the hasher is fed: the run with the
/// flushes and the run of its writes alone feed it the same chunks.
pub proof fn law_flush_independence(ops: Seq<Op>)
    ensures
        fed(run(ops)) == fed(run(writes(ops))),
        hashed(run(ops)) == hashed(run(writes(ops))),
{
    lemma_run(ops);
    lemma_run(writes(ops));
    lemma_chunks_of_writes(ops);
}

/// Determinism. Two runs that write the same chunks in the same order feed
/// the hasher the same chunks, whatever their sinks answered and wherever
/// they flushed.
pub proof fn law_same_writes_same_feed(one: Seq<Op>, other: Seq<Op>)
    requires
        chunks(one) == chunks(other),
    ensures
        fed(run(one)) == fed(run(other)),
        hashed(run(one)) == hashed(run(other)),
{
    lemma_run(one);
    lemma_run(other);
}

/// Determinism and flush independence, of the digest itself. Two writers,
/// built around the same hasher in the same state and given the same chunks
/// to write in the same order, give the same digest where the hasher is a
/// deterministic one, whatever their sinks were and answered and wherever
/// either was flushed.
pub proof fn law_same_writes_same_digest<H: Input + FixedOutput, W: Write, V: Write>(
    one: State<H, W>,
    other: State<H, V>,
    out_one: Vec<u8>,
    out_other: Vec<u8>,
)
    requires
        deterministic::<H>(),
        tied(one),
        tied(other),
        one.first_hasher == other.first_hasher,
        offered(one.log) == offered(other.log),
        is_output(one.hasher, out_one),
        is_output(other.hasher, out_other),
    ensures
        one.hasher == other.hasher,
        out_one@ == out_other@,
{
    lemma_run(received(one.log));
    lemma_run(received(other.log));
    lemma_same_feed_same_hasher(one.first_hasher, fed(one.log), one.hasher, other.hasher);
}

} // verus!
