//! The ghost model that the contracts speak of: the log of the calls that a
//! writer has made on its hasher and on its sink.

use vstd::prelude::*;

verus! {

/// One operation of a writer, with the answer that its sink gave.
pub enum Op {
    /// A write of `bytes`, answered with `outcome`.
    Write { bytes: Seq<u8>, outcome: Result<usize, std::io::Error> },
    /// A flush, answered with `ack`.
    Flush { ack: Result<(), std::io::Error> },
}

impl Op {
    /// The chunk that the operation writes: a flush writes none.
    pub open spec fn chunk(self) -> Option<Seq<u8>> {
        match self {
            Op::Write { bytes, .. } => Some(bytes),
            Op::Flush { .. } => None,
        }
    }

    /// Whether the sink took all that the operation gave it: a write is
    /// whole when it is answered with the length of its chunk, a flush
    /// always.
    pub open spec fn whole(self) -> bool {
        match self {
            Op::Write { bytes, outcome } => outcome matches Ok(n) && n == bytes.len(),
            Op::Flush { .. } => true,
        }
    }
}

/// One call made on a collaborator, with what it was given and, for the
/// sink, what it answered.
pub enum Call {
    /// The hasher was fed `bytes`.
    Update { bytes: Seq<u8> },
    /// The sink was offered `bytes` in one `write` and answered `outcome`.
    Write { bytes: Seq<u8>, outcome: Result<usize, std::io::Error> },
    /// The sink was asked to `flush` and answered `ack`.
    Flush { ack: Result<(), std::io::Error> },
}

impl Call {
    /// The chunk that the call fed to the hasher, if it is one on the hasher.
    pub open spec fn fed(self) -> Option<Seq<u8>> {
        match self {
            Call::Update { bytes } => Some(bytes),
            _ => None,
        }
    }

    /// The chunk that the call offered to the sink, if it is a write.
    pub open spec fn offered(self) -> Option<Seq<u8>> {
        match self {
            Call::Write { bytes, .. } => Some(bytes),
            _ => None,
        }
    }

    /// The operation that the call served on the sink, if it is one on the
    /// sink: what the sink was given and what it answered.
    pub open spec fn received(self) -> Option<Op> {
        match self {
            Call::Update { .. } => None,
            Call::Write { bytes, outcome } => Some(Op::Write { bytes, outcome }),
            Call::Flush { ack } => Some(Op::Flush { ack }),
        }
    }

    /// The bytes that the sink took in the call: the first `n` of a write
    /// answered `Ok(n)`, and none in any other call.
    pub open spec fn taken(self) -> Seq<u8> {
        match self {
            Call::Write { bytes, outcome: Ok(n) } => if n <= bytes.len() {
                bytes.take(n as int)
            } else {
                bytes
            },
            _ => Seq::empty(),
        }
    }
}

/// The chunks fed to the hasher over `log`, in order.
pub open spec fn fed(log: Seq<Call>) -> Seq<Seq<u8>> {
    log.filter_map(|call: Call| call.fed())
}

/// The chunks offered to the sink over `log`, one per write, in order.
pub open spec fn offered(log: Seq<Call>) -> Seq<Seq<u8>> {
    log.filter_map(|call: Call| call.offered())
}

/// The calls that the sink received over `log`, in order, each with the
/// answer it gave.
pub open spec fn received(log: Seq<Call>) -> Seq<Op> {
    log.filter_map(|call: Call| call.received())
}

/// Every byte fed to the hasher over `log`, in order. The output of a
/// streaming hasher is the digest of these bytes.
pub open spec fn hashed(log: Seq<Call>) -> Seq<u8> {
    fed(log).flatten()
}

/// Every byte offered to the sink over `log`, in order.
pub open spec fn written(log: Seq<Call>) -> Seq<u8> {
    offered(log).flatten()
}

/// Every byte that the sink took over `log`, in order.
pub open spec fn accepted(log: Seq<Call>) -> Seq<u8> {
    log.map_values(|call: Call| call.taken()).flatten()
}

/// The chunks that `ops` write, in order.
pub open spec fn chunks(ops: Seq<Op>) -> Seq<Seq<u8>> {
    ops.filter_map(|op: Op| op.chunk())
}

/// The writes among `ops`, in order.
pub open spec fn writes(ops: Seq<Op>) -> Seq<Op> {
    ops.filter(|op: Op| op is Write)
}

/// The log after one more write of `bytes` that the sink answered with
/// `outcome`: first the hasher is fed the whole chunk, then the sink is
/// offered the same chunk. The answer changes nothing of what was hashed.
pub open spec fn after_write(
    log: Seq<Call>,
    bytes: Seq<u8>,
    outcome: Result<usize, std::io::Error>,
) -> Seq<Call> {
    log.push(Call::Update { bytes }).push(Call::Write { bytes, outcome })
}

/// The log after one more flush that the sink answered with `ack`: the
/// hasher is not called.
pub open spec fn after_flush(log: Seq<Call>, ack: Result<(), std::io::Error>) -> Seq<Call> {
    log.push(Call::Flush { ack })
}

/// The log after one more operation.
pub open spec fn after(log: Seq<Call>, op: Op) -> Seq<Call> {
    match op {
        Op::Write { bytes, outcome } => after_write(log, bytes, outcome),
        Op::Flush { ack } => after_flush(log, ack),
    }
}

/// The log of a new writer taken through `ops`, one after the other.
pub open spec fn run(ops: Seq<Op>) -> Seq<Call>
    decreases ops.len(),
{
    if ops.len() == 0 {
        Seq::empty()
    } else {
        after(run(ops.drop_last()), ops.last())
    }
}

/// The invariant of a writer's log: it is the log of a new writer taken
/// through the operations that its sink received. So every write in it
/// stands right behind the feeding of the same chunk to the hasher, and the
/// hasher is fed at no other time.
pub open spec fn well_formed(log: Seq<Call>) -> bool {
    log == run(received(log))
}

} // verus!
