//! The two poll state machines: one that yields whole messages, one that
//! yields their frames one at a time.
//!
//! A poll runs in two steps. `poll_next` answers from the stream's own state
//! where it can; where it answers `NeedReadiness`, the caller asks the reactor
//! whether the socket is readable, reads one message if it is, and hands what
//! happened to `resume`. The caller then acts on the step that comes back.
use vstd::prelude::*;
use std::collections::VecDeque;
use crate::codec::{BcmMsgHead, IoError};
use crate::frame::CanFrame;

verus! {

/// What a poll asks of its caller.
#[derive(Clone, Debug)]
pub enum PollStep<T> {
    /// Yield this item.
    Item(T),
    /// Yield this error; the stream is exhausted from now on.
    Failed(IoError),
    /// Yield "no more items".
    Exhausted,
    /// Suspend; the reactor holds the waker.
    Suspend,
    /// Clear the readiness bit, then suspend.
    ClearAndSuspend,
    /// Ask the reactor for readiness, read if ready, and call `resume`.
    NeedReadiness,
}

/// What the caller found after a `NeedReadiness` step.
#[derive(Debug)]
pub enum Event {
    /// The socket is not readable.
    NotReady,
    /// The socket was readable, and one read gave this.
    Read(Result<BcmMsgHead, IoError>),
    /// The reactor failed to poll or clear readiness.
    ReactorError(IoError),
}

/// The state of a frame stream: frames still to yield, and whether it ended.
pub struct FrameStreamModel {
    pub buffer: Seq<CanFrame>,
    pub exhausted: bool,
}

impl FrameStreamModel {
    /// Nothing buffered and not ended: the next poll needs the reactor.
    pub open spec fn wants_read(self) -> bool {
        self.buffer.len() == 0 && !self.exhausted
    }
}

/// The step on an error: a transient one suspends, any other ends the stream.
pub open spec fn frame_error_spec(s: FrameStreamModel, e: IoError) -> (
    FrameStreamModel,
    PollStep<CanFrame>,
) {
    if e is WouldBlock {
        (s, PollStep::ClearAndSuspend)
    } else {
        (FrameStreamModel { exhausted: true, ..s }, PollStep::Failed(e))
    }
}

/// First step of a poll of a frame stream.
pub open spec fn frame_poll_spec(s: FrameStreamModel) -> (FrameStreamModel, PollStep<CanFrame>) {
    if s.buffer.len() > 0 {
        (FrameStreamModel { buffer: s.buffer.drop_first(), ..s }, PollStep::Item(s.buffer[0]))
    } else if s.exhausted {
        (s, PollStep::Exhausted)
    } else {
        (s, PollStep::NeedReadiness)
    }
}

/// Second step of a poll of a frame stream: a message without frames
/// suspends, one with frames yields the first and buffers the rest.
pub open spec fn frame_resume_spec(s: FrameStreamModel, ev: Event) -> (
    FrameStreamModel,
    PollStep<CanFrame>,
) {
    match ev {
        Event::NotReady => (s, PollStep::Suspend),
        Event::ReactorError(e) => frame_error_spec(s, e),
        Event::Read(Err(e)) => frame_error_spec(s, e),
        Event::Read(Ok(m)) => if m.frames@.len() == 0 {
            (s, PollStep::ClearAndSuspend)
        } else {
            (
                FrameStreamModel { buffer: m.frames@.drop_first(), ..s },
                PollStep::Item(m.frames@[0]),
            )
        },
    }
}

/// A stream of the frames of the messages that a socket receives.
pub struct BcmFrameStream {
    frame_buffer: VecDeque<CanFrame>,
    exhausted: bool,
}

impl View for BcmFrameStream {
    type V = FrameStreamModel;

    closed spec fn view(&self) -> FrameStreamModel {
        FrameStreamModel { buffer: self.frame_buffer@, exhausted: self.exhausted }
    }
}

impl BcmFrameStream {
    /// A live stream with nothing buffered.
    pub fn new() -> (r: BcmFrameStream)
        ensures
            r@.buffer.len() == 0,
            !r@.exhausted,
    {
        BcmFrameStream { frame_buffer: VecDeque::new(), exhausted: false }
    }

    /// True where the next poll needs the reactor: `resume` may be called.
    pub fn wants_read(&self) -> (r: bool)
        ensures
            r == self@.wants_read(),
    {
        self.frame_buffer.len() == 0 && !self.exhausted
    }

    /// First step of a poll: a buffered frame, the end, or `NeedReadiness`.
    pub fn poll_next(&mut self) -> (r: PollStep<CanFrame>)
        ensures
            (final(self)@, r) == frame_poll_spec(old(self)@),
    {
        match self.frame_buffer.pop_front() {
            Some(frame) => {
                proof {
                    assert(self.frame_buffer@ =~= old(self)@.buffer.drop_first());
                }
                PollStep::Item(frame)
            },
            None => if self.exhausted {
                PollStep::Exhausted
            } else {
                PollStep::NeedReadiness
            },
        }
    }

    fn on_error(&mut self, e: IoError) -> (r: PollStep<CanFrame>)
        ensures
            (final(self)@, r) == frame_error_spec(old(self)@, e),
    {
        if e.is_would_block() {
            PollStep::ClearAndSuspend
        } else {
            self.exhausted = true;
            PollStep::Failed(e)
        }
    }

    /// Second step of a poll, with what the reactor and the read gave.
    pub fn resume(&mut self, ev: Event) -> (r: PollStep<CanFrame>)
        requires
            old(self)@.wants_read(),
        ensures
            (final(self)@, r) == frame_resume_spec(old(self)@, ev),
    {
        match ev {
            Event::NotReady => PollStep::Suspend,
            Event::ReactorError(e) => self.on_error(e),
            Event::Read(Err(e)) => self.on_error(e),
            Event::Read(Ok(m)) => {
                let n = m.frames.len();
                if n == 0 {
                    return PollStep::ClearAndSuspend;
                }
                let first = m.frames[0];
                let mut i: usize = 1;
                while i < n
                    invariant
                        n == m.frames@.len(),
                        1 <= i <= n,
                        self.frame_buffer@ == m.frames@.subrange(1, i as int),
                        self.exhausted == old(self)@.exhausted,
                    decreases n - i,
                {
                    self.frame_buffer.push_back(m.frames[i]);
                    proof {
                        assert(self.frame_buffer@ =~= m.frames@.subrange(1, i + 1));
                    }
                    i = i + 1;
                }
                proof {
                    assert(self.frame_buffer@ =~= m.frames@.drop_first());
                }
                PollStep::Item(first)
            },
        }
    }
}

/// The step on an error for a message stream, whose state is whether it ended.
pub open spec fn msg_error_spec(exhausted: bool, e: IoError) -> (bool, PollStep<BcmMsgHead>) {
    if e is WouldBlock {
        (exhausted, PollStep::ClearAndSuspend)
    } else {
        (true, PollStep::Failed(e))
    }
}

/// First step of a poll of a message stream.
pub open spec fn msg_poll_spec(exhausted: bool) -> (bool, PollStep<BcmMsgHead>) {
    if exhausted {
        (exhausted, PollStep::Exhausted)
    } else {
        (exhausted, PollStep::NeedReadiness)
    }
}

/// Second step of a poll of a message stream: every message is yielded,
/// also one without frames.
pub open spec fn msg_resume_spec(exhausted: bool, ev: Event) -> (bool, PollStep<BcmMsgHead>) {
    match ev {
        Event::NotReady => (exhausted, PollStep::Suspend),
        Event::ReactorError(e) => msg_error_spec(exhausted, e),
        Event::Read(Err(e)) => msg_error_spec(exhausted, e),
        Event::Read(Ok(m)) => (exhausted, PollStep::Item(m)),
    }
}

/// A stream of the whole messages that a socket receives.
pub struct BcmStream {
    exhausted: bool,
}

impl View for BcmStream {
    type V = bool;

    /// Whether the stream has ended.
    closed spec fn view(&self) -> bool {
        self.exhausted
    }
}

impl BcmStream {
    /// A live stream.
    pub fn new() -> (r: BcmStream)
        ensures
            !r@,
    {
        BcmStream { exhausted: false }
    }

    /// True where the next poll needs the reactor: `resume` may be called.
    pub fn wants_read(&self) -> (r: bool)
        ensures
            r == !self@,
    {
        !self.exhausted
    }

    /// First step of a poll: the end, or `NeedReadiness`.
    pub fn poll_next(&mut self) -> (r: PollStep<BcmMsgHead>)
        ensures
            (final(self)@, r) == msg_poll_spec(old(self)@),
    {
        if self.exhausted {
            PollStep::Exhausted
        } else {
            PollStep::NeedReadiness
        }
    }

    /// Second step of a poll, with what the reactor and the read gave.
    pub fn resume(&mut self, ev: Event) -> (r: PollStep<BcmMsgHead>)
        requires
            !old(self)@,
        ensures
            (final(self)@, r) == msg_resume_spec(old(self)@, ev),
    {
        match ev {
            Event::NotReady => PollStep::Suspend,
            Event::Read(Ok(m)) => PollStep::Item(m),
            Event::Read(Err(e)) | Event::ReactorError(e) => if e.is_would_block() {
                PollStep::ClearAndSuspend
            } else {
                self.exhausted = true;
                PollStep::Failed(e)
            },
        }
    }
}

} // verus!
