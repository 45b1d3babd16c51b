//! Length-prefixed message framing over a byte stream, and the decisions of a poll-driven
//! sink that sends and receives whole messages.

pub mod async_buffer;
pub mod frame;
pub mod sink;

pub use async_buffer::AsyncBuffer;
pub use frame::{Frame, ParseError};
pub use sink::{Delivery, MessageSink, PollStep, SinkError, SinkStatus};
