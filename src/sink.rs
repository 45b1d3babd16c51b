use crate::async_buffer::AsyncBuffer;
use crate::frame::{
    after_frame, encoding, frame_payload, header_overflows, holds_frame, Frame, ParseError,
    MAX_PAYLOAD,
};
use std::task::Context;
use vstd::prelude::*;

verus! {

#[verifier::external_type_specification]
#[verifier::external_body]
pub struct ExIoError(std::io::Error);

/// A fault that ends the sink's work.
#[derive(Debug)]
pub enum SinkError {
    /// The stream refused a write.
    Write(std::io::Error),
    /// The stream refused a read.
    Read(std::io::Error),
    /// More unparsed bytes arrived than the configured limit allows.
    LimitExceeded,
    /// The inbound bytes hold a malformed frame.
    Parse(ParseError),
    /// The sink was polled after it closed, or its close completed.
    Closed,
}

impl SinkError {
    /// A short description of the fault.
    pub fn to_string(&self) -> (r: String)
        ensures
            self is Write ==> r@.take(13) == "Write Error: "@,
            self is Read ==> r@.take(12) == "Read Error: "@,
            self is LimitExceeded ==> r@ == "Limit Exceeded"@,
            *self == SinkError::Parse(ParseError::NotReady) ==> r@ == "Parse Error: Not ready"@,
            *self == SinkError::Parse(ParseError::Corrupt) ==> r@ == "Parse Error: Corrupt"@,
            self is Closed ==> r@ == "Stream Error: poll after closed"@,
    {
        proof {
            reveal_strlit("Write Error: ");
            reveal_strlit("Read Error: ");
            reveal_strlit("Parse Error: ");
            reveal_strlit("Not ready");
            reveal_strlit("Corrupt");
            reveal_strlit("Parse Error: Not ready");
            reveal_strlit("Parse Error: Corrupt");
        }
        match self {
            SinkError::Write(e) => {
                let detail = e.to_string();
                let r = String::from_str("Write Error: ").concat(detail.as_str());
                assert(r@.take(13) =~= "Write Error: "@);
                r
            },
            SinkError::Read(e) => {
                let detail = e.to_string();
                let r = String::from_str("Read Error: ").concat(detail.as_str());
                assert(r@.take(12) =~= "Read Error: "@);
                r
            },
            SinkError::LimitExceeded => String::from_str("Limit Exceeded"),
            SinkError::Parse(e) => {
                let detail = e.to_string();
                let r = String::from_str("Parse Error: ").concat(detail.as_str());
                assert(r@ =~= "Parse Error: "@ + detail@);
                r
            },
            SinkError::Closed => String::from_str("Stream Error: poll after closed"),
        }
    }
}

/// Where the sink stands in its life.
#[derive(Debug, Clone, Copy, PartialEq, Eq, Structural)]
pub enum SinkStatus {
    /// Reading and writing.
    Open,
    /// Shutting the stream's write side down.
    Closing,
    /// Done: every further poll reports `SinkError::Closed`.
    Closed,
}

/// What a poll does first, given the sink's status.
#[derive(Debug)]
pub enum PollStep {
    /// Drive the stream's shutdown, and hand its progress to `on_close_progress`.
    Shutdown,
    /// Report this fault at once, touching the stream no further.
    Report(SinkError),
    /// Write the pending output, then read.
    Exchange,
}

/// What one read-side decision leads to: `None` while no frame is complete, otherwise
/// the message delivered or the fault that closed the sink.
pub type Delivery = Option<Result<Vec<u8>, SinkError>>;

/// How a decode attempt on the inbound bytes `before` ends: `r` is what is reported,
/// `after` the inbound bytes left, and `closes` whether the sink closes.
pub open spec fn decode_step(r: Delivery, before: Seq<u8>, after: Seq<u8>, closes: bool) -> bool {
    if header_overflows(before) {
        &&& r == Some(Err::<Vec<u8>, SinkError>(SinkError::Parse(ParseError::Corrupt)))
        &&& after == before
        &&& closes
    } else if holds_frame(before) {
        &&& (match r {
            Some(Ok(m)) => m@ == frame_payload(before),
            _ => false,
        })
        &&& after == after_frame(before)
        &&& !closes
    } else {
        &&& r is None
        &&& after == before
        &&& !closes
    }
}

/// Sends and receives whole messages over a byte stream `S`.
///
/// The sink holds the stream, the outbound bytes not yet written, the inbound bytes not
/// yet formed into a frame, its status and the inbound limit. Whoever polls it performs
/// the stream's operations and hands each outcome to the method named for it.
pub struct MessageSink<S> {
    stream: S,
    read_buffer: Vec<u8>,
    write_buffer: AsyncBuffer,
    status: SinkStatus,
    limit: usize,
}

impl<S> MessageSink<S> {
    /// The stream the sink runs over.
    pub closed spec fn stream_spec(&self) -> S {
        self.stream
    }

    /// Inbound bytes not yet formed into a frame.
    pub closed spec fn inbound(&self) -> Seq<u8> {
        self.read_buffer@
    }

    /// Outbound bytes not yet written to the stream.
    pub closed spec fn outbound(&self) -> Seq<u8> {
        self.write_buffer.contents()
    }

    /// Whether a polling task is registered to be woken by the next `write`.
    pub closed spec fn has_waiter(&self) -> bool {
        self.write_buffer.has_waiter()
    }

    /// The sink's status.
    pub closed spec fn status_spec(&self) -> SinkStatus {
        self.status
    }

    /// The most inbound bytes the sink keeps before it faults.
    pub closed spec fn max_inbound(&self) -> usize {
        self.limit
    }

    /// Whether `other` differs from `self` in the outbound side only.
    pub open spec fn same_but_outbound(&self, other: &Self) -> bool {
        &&& other.stream_spec() == self.stream_spec()
        &&& other.inbound() == self.inbound()
        &&& other.status_spec() == self.status_spec()
        &&& other.max_inbound() == self.max_inbound()
    }

    /// An open sink over `socket`, with nothing queued and no limit.
    pub fn new(socket: S) -> (r: MessageSink<S>)
        ensures
            r.stream_spec() == socket,
            r.inbound() == Seq::<u8>::empty(),
            r.outbound() == Seq::<u8>::empty(),
            !r.has_waiter(),
            r.status_spec() == SinkStatus::Open,
            r.max_inbound() == usize::MAX,
    {
        MessageSink {
            stream: socket,
            read_buffer: Vec::new(),
            write_buffer: AsyncBuffer::new(),
            status: SinkStatus::Open,
            limit: usize::MAX,
        }
    }

    /// Sets the most inbound bytes the sink keeps before it faults.
    pub fn limit(&mut self, length: usize)
        ensures
            final(self).max_inbound() == length,
            final(self).stream_spec() == old(self).stream_spec(),
            final(self).inbound() == old(self).inbound(),
            final(self).outbound() == old(self).outbound(),
            final(self).has_waiter() == old(self).has_waiter(),
            final(self).status_spec() == old(self).status_spec(),
    {
        self.limit = length;
    }

    /// Queues `message` for sending, framed, and wakes the polling task. A message too
    /// long for the header is refused with `Corrupt` and the sink is left as it was.
    pub fn write(&mut self, message: Vec<u8>) -> (r: Result<(), ParseError>)
        ensures
            message@.len() <= MAX_PAYLOAD ==> {
                &&& r is Ok
                &&& final(self).outbound() == old(self).outbound() + encoding(message@)
                &&& !final(self).has_waiter()
                &&& old(self).same_but_outbound(final(self))
            },
            message@.len() > MAX_PAYLOAD ==> {
                &&& r == Err::<(), ParseError>(ParseError::Corrupt)
                &&& *final(self) == *old(self)
            },
    {
        match Frame::new(message).try_into() {
            Ok(bytes) => {
                self.write_buffer.extend(bytes);
                Ok(())
            },
            Err(e) => Err(e),
        }
    }

    /// Asks for the stream to be shut down on the next poll. A sink that has already
    /// closed stays closed.
    pub fn close(&mut self)
        ensures
            final(self).status_spec() == (if old(self).status_spec() == SinkStatus::Closed {
                SinkStatus::Closed
            } else {
                SinkStatus::Closing
            }),
            final(self).stream_spec() == old(self).stream_spec(),
            final(self).inbound() == old(self).inbound(),
            final(self).outbound() == old(self).outbound(),
            final(self).has_waiter() == old(self).has_waiter(),
            final(self).max_inbound() == old(self).max_inbound(),
    {
        if self.status != SinkStatus::Closed {
            self.status = SinkStatus::Closing;
        }
    }

    /// The sink's status.
    pub fn status(&self) -> (r: SinkStatus)
        ensures
            r == self.status_spec(),
    {
        self.status
    }

    /// How a poll starts: a closing sink drives the shutdown, a closed one reports
    /// `Closed`, an open one exchanges bytes with the stream.
    pub fn begin_poll(&self) -> (r: PollStep)
        ensures
            self.status_spec() == SinkStatus::Closing ==> r is Shutdown,
            self.status_spec() == SinkStatus::Closed ==> r == PollStep::Report(SinkError::Closed),
            self.status_spec() == SinkStatus::Open ==> r is Exchange,
    {
        match self.status {
            SinkStatus::Closing => PollStep::Shutdown,
            SinkStatus::Closed => PollStep::Report(SinkError::Closed),
            SinkStatus::Open => PollStep::Exchange,
        }
    }

    /// The stream, for the poller to operate on.
    pub fn stream_mut(&mut self) -> (r: &mut S)
        ensures
            *r == old(self).stream_spec(),
            final(self).stream_spec() == *final(r),
            final(self).inbound() == old(self).inbound(),
            final(self).outbound() == old(self).outbound(),
            final(self).has_waiter() == old(self).has_waiter(),
            final(self).status_spec() == old(self).status_spec(),
            final(self).max_inbound() == old(self).max_inbound(),
    {
        &mut self.stream
    }

    /// The outbound bytes, to offer to the stream's write.
    pub fn pending_output(&mut self) -> (r: &Vec<u8>)
        ensures
            r@ == old(self).outbound(),
            *final(self) == *old(self),
    {
        self.write_buffer.as_ref()
    }

    /// A poll of a closing sink learnt whether the stream's shutdown has completed. Once it
    /// has, the sink is closed and reports `Closed`; until then there is nothing to report.
    pub fn on_close_progress(&mut self, complete: bool) -> (r: Option<SinkError>)
        requires
            old(self).status_spec() == SinkStatus::Closing,
        ensures
            complete ==> r == Some(SinkError::Closed) && final(self).status_spec()
                == SinkStatus::Closed,
            !complete ==> r is None && final(self).status_spec() == SinkStatus::Closing,
            final(self).stream_spec() == old(self).stream_spec(),
            final(self).inbound() == old(self).inbound(),
            final(self).outbound() == old(self).outbound(),
            final(self).has_waiter() == old(self).has_waiter(),
            final(self).max_inbound() == old(self).max_inbound(),
    {
        if complete {
            self.status = SinkStatus::Closed;
            Some(SinkError::Closed)
        } else {
            None
        }
    }

    /// The stream took the first `n` outbound bytes: they leave the queue.
    pub fn on_written(&mut self, n: usize)
        requires
            n <= old(self).outbound().len(),
        ensures
            final(self).outbound() == old(self).outbound().skip(n as int),
            final(self).has_waiter() == old(self).has_waiter(),
            old(self).same_but_outbound(final(self)),
    {
        self.write_buffer.drain(0..n);
        proof {
            assert(old(self).outbound().take(0) + old(self).outbound().skip(n as int)
                =~= old(self).outbound().skip(n as int));
        }
    }

    /// The stream refused a write: the sink closes and reports the fault.
    pub fn on_write_failed(&mut self, e: std::io::Error) -> (r: SinkError)
        ensures
            r == SinkError::Write(e),
            final(self).status_spec() == SinkStatus::Closed,
            final(self).stream_spec() == old(self).stream_spec(),
            final(self).inbound() == old(self).inbound(),
            final(self).outbound() == old(self).outbound(),
            final(self).has_waiter() == old(self).has_waiter(),
            final(self).max_inbound() == old(self).max_inbound(),
    {
        self.status = SinkStatus::Closed;
        SinkError::Write(e)
    }

    /// Registers the task polled in `cx`, so that the next `write` wakes it.
    pub fn register_waker(&mut self, cx: &mut Context<'_>)
        ensures
            final(self).has_waiter(),
            final(self).outbound() == old(self).outbound(),
            old(self).same_but_outbound(final(self)),
    {
        self.write_buffer.set_waker(cx);
    }

    /// The stream delivered `data`. Past the limit the sink closes with `LimitExceeded`
    /// and keeps none of it; otherwise the bytes join the inbound ones and a frame is
    /// sought at their front.
    pub fn on_read(&mut self, data: &[u8]) -> (r: Delivery)
        requires
            old(self).status_spec() == SinkStatus::Open,
        ensures
            old(self).inbound().len() + data@.len() > old(self).max_inbound() ==> {
                &&& r == Some(Err::<Vec<u8>, SinkError>(SinkError::LimitExceeded))
                &&& final(self).inbound() == old(self).inbound()
                &&& final(self).status_spec() == SinkStatus::Closed
            },
            old(self).inbound().len() + data@.len() <= old(self).max_inbound() ==> {
                &&& decode_step(
                    r,
                    old(self).inbound() + data@,
                    final(self).inbound(),
                    final(self).status_spec() == SinkStatus::Closed,
                )
                &&& final(self).status_spec() != SinkStatus::Closed ==> final(self).status_spec()
                    == old(self).status_spec()
                &&& final(self).inbound().len() <= final(self).max_inbound()
            },
            final(self).stream_spec() == old(self).stream_spec(),
            final(self).outbound() == old(self).outbound(),
            final(self).has_waiter() == old(self).has_waiter(),
            final(self).max_inbound() == old(self).max_inbound(),
    {
        if self.read_buffer.len() > self.limit || data.len() > self.limit
            - self.read_buffer.len() {
            self.status = SinkStatus::Closed;
            return Some(Err(SinkError::LimitExceeded));
        }
        self.read_buffer.extend_from_slice(data);
        proof {
            assert(self.read_buffer@ =~= old(self).inbound() + data@);
        }
        self.take_frame()
    }

    /// The stream refused a read: the sink closes and reports the fault.
    pub fn on_read_failed(&mut self, e: std::io::Error) -> (r: SinkError)
        ensures
            r == SinkError::Read(e),
            final(self).status_spec() == SinkStatus::Closed,
            final(self).stream_spec() == old(self).stream_spec(),
            final(self).inbound() == old(self).inbound(),
            final(self).outbound() == old(self).outbound(),
            final(self).has_waiter() == old(self).has_waiter(),
            final(self).max_inbound() == old(self).max_inbound(),
    {
        self.status = SinkStatus::Closed;
        SinkError::Read(e)
    }

    /// The stream has no more bytes for now: a frame is sought in what is already held.
    /// `None` means the poll is pending.
    pub fn on_read_blocked(&mut self) -> (r: Delivery)
        requires
            old(self).status_spec() == SinkStatus::Open,
        ensures
            decode_step(
                r,
                old(self).inbound(),
                final(self).inbound(),
                final(self).status_spec() == SinkStatus::Closed,
            ),
            final(self).status_spec() != SinkStatus::Closed ==> final(self).status_spec()
                == old(self).status_spec(),
            final(self).stream_spec() == old(self).stream_spec(),
            final(self).outbound() == old(self).outbound(),
            final(self).has_waiter() == old(self).has_waiter(),
            final(self).max_inbound() == old(self).max_inbound(),
    {
        self.take_frame()
    }

    /// Takes a frame from the front of the inbound bytes, closing on a malformed one.
    fn take_frame(&mut self) -> (r: Delivery)
        requires
            old(self).status_spec() == SinkStatus::Open,
        ensures
            decode_step(
                r,
                old(self).inbound(),
                final(self).inbound(),
                final(self).status_spec() == SinkStatus::Closed,
            ),
            final(self).status_spec() != SinkStatus::Closed ==> final(self).status_spec()
                == old(self).status_spec(),
            final(self).stream_spec() == old(self).stream_spec(),
            final(self).outbound() == old(self).outbound(),
            final(self).has_waiter() == old(self).has_waiter(),
            final(self).max_inbound() == old(self).max_inbound(),
    {
        match Frame::try_from(&mut self.read_buffer) {
            Ok(frame) => Some(Ok(frame.into_message())),
            Err(ParseError::NotReady) => None,
            Err(e) => {
                self.status = SinkStatus::Closed;
                Some(Err(SinkError::Parse(e)))
            },
        }
    }
}

} // verus!
