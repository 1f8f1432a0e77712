//! A pass-through writer that hashes what it forwards.
//!
//! [`HashWriter`] owns a hasher and a sink. Every chunk given to
//! [`HashWriter::write`] is first handed whole to the hasher and then offered
//! to the sink; the sink's answer is returned as it is. When writing is over,
//! [`HashWriter::digest`] consumes the writer and yields the hasher's output.
//!
//! The hasher and the sink are opaque collaborators: any `digest::Input +
//! digest::FixedOutput` and any `std::io::Write`. What they do with a call
//! is theirs to say. What is proved here is which calls the writer makes on
//! them: on which value, with which bytes, in which order, and that what it
//! returns is what came back. The contracts state it twice over: as
//! relations between the hasher or the sink before a call and after it
//! ([`fed_into`], [`answered`], [`flushed`], [`is_output`]), and as a ghost
//! log of [`Call`]s in the [`State`] that is the view of a writer.

pub mod chain;
pub mod history;
pub mod laws;
pub mod tap;
pub mod writer;

pub use chain::State;
pub use history::{Call, Op};
pub use tap::{answered, fed_into, flushed, is_output};
pub use writer::HashWriter;
