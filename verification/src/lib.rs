//! Combinators for asynchronous values, sequences and consumers, written as
//! explicit state machines.
//!
//! A combinator owns its source, its step function and the steps that are
//! suspended. It never polls anything itself: it tells its driver what to
//! poll next, is handed the outcome, and decides what the current poll call
//! returns. Every decision carries a contract, and the laws that relate
//! whole runs of a combinator to the items of its source are proved beside
//! it.
//!
//! - [`poll`]: the polling protocol shared by all of them.
//! - [`future`]: futures; [`stream`]: combinators over plain streams;
//!   [`try_stream`]: combinators over streams of results.
//! - [`sink`]: backpressured consumers, the channel senders among them, and
//!   the rule that a combinator passes the sink half of its source through.
//! - [`io`]: a stream of byte chunks as a reader, and wrappers for writers.

pub mod future;
pub mod io;
pub mod poll;
pub mod sink;
pub mod stream;
pub mod try_stream;
