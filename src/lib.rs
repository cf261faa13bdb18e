//! Composable, non-blocking asynchronous computations, sequences and
//! consumers, driven by explicit calls to `poll`.
//!
//! Every combinator is a plain state machine over explicit state. Each
//! abstraction carries a specification model: a computation relates the
//! state before a poll, the state after it and the result it reported; a
//! consumer exposes the items it has accepted so far.

pub mod poll;
pub mod future;
pub mod stream;
pub mod sink;
pub mod sync;

pub use poll::{Async, AsyncSink, Poll, StartSend};
pub use future::Future;
pub use stream::Stream;
pub use sink::Sink;
