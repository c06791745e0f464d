//! What holds of every run of the two streams, proved over the step
//! functions that `poll_next` and `resume` follow exactly.
use vstd::prelude::*;
use crate::codec::{BcmMsgHead, IoError};
use crate::frame::CanFrame;
use crate::stream::{
    Event, FrameStreamModel, PollStep, frame_poll_spec, frame_resume_spec, msg_poll_spec,
    msg_resume_spec,
};

verus! {

/// The state after `n` first-step polls of a frame stream, and what they
/// yielded. None of them reads: a read follows only a `NeedReadiness`.
pub open spec fn frame_polls(s: FrameStreamModel, n: nat) -> (
    FrameStreamModel,
    Seq<PollStep<CanFrame>>,
)
    decreases n,
{
    if n == 0 {
        (s, Seq::empty())
    } else {
        let (s1, o) = frame_poll_spec(s);
        let (s2, os) = frame_polls(s1, (n - 1) as nat);
        (s2, seq![o] + os)
    }
}

/// The state after `n` first-step polls of a message stream, and what they
/// yielded.
pub open spec fn msg_polls(exhausted: bool, n: nat) -> (bool, Seq<PollStep<BcmMsgHead>>)
    decreases n,
{
    if n == 0 {
        (exhausted, Seq::empty())
    } else {
        let (e1, o) = msg_poll_spec(exhausted);
        let (e2, os) = msg_polls(e1, (n - 1) as nat);
        (e2, seq![o] + os)
    }
}

/// Polling a frame stream whose buffer is not empty yields the buffer's
/// front frame, and leaves the rest in order, without asking for a read.
pub proof fn lemma_buffered_front_first(s: FrameStreamModel)
    requires
        s.buffer.len() > 0,
    ensures
        frame_poll_spec(s).1 == PollStep::Item(s.buffer[0]),
        frame_poll_spec(s).0.buffer == s.buffer.drop_first(),
        frame_poll_spec(s).0.exhausted == s.exhausted,
{
}

/// `n` polls of a frame stream with at least `n` buffered frames yield those
/// frames in order, and ask for no read.
pub proof fn lemma_drain(s: FrameStreamModel, n: nat)
    requires
        n <= s.buffer.len(),
    ensures
        frame_polls(s, n).0.buffer == s.buffer.subrange(n as int, s.buffer.len() as int),
        frame_polls(s, n).0.exhausted == s.exhausted,
        frame_polls(s, n).1.len() == n,
        forall|i: int| 0 <= i < n ==> #[trigger] frame_polls(s, n).1[i] == PollStep::Item(s.buffer[i]),
    decreases n,
{
    if n > 0 {
        let s1 = frame_poll_spec(s).0;
        lemma_drain(s1, (n - 1) as nat);
        assert(s1.buffer.subrange((n - 1) as int, s1.buffer.len() as int) =~= s.buffer.subrange(
            n as int,
            s.buffer.len() as int,
        ));
        let os = frame_polls(s1, (n - 1) as nat).1;
        assert forall|i: int| 0 <= i < n implies #[trigger] frame_polls(s, n).1[i] == PollStep::Item(
            s.buffer[i],
        ) by {
            if i > 0 {
                assert(frame_polls(s, n).1[i] == os[i - 1]);
            }
        }
    }
}

/// A message without frames yields no frame: the frame stream clears
/// readiness and suspends, and its state does not change.
pub proof fn lemma_empty_message_suspends(s: FrameStreamModel, m: BcmMsgHead)
    requires
        s.wants_read(),
        m.frames@.len() == 0,
    ensures
        frame_resume_spec(s, Event::Read(Ok(m))) == (s, PollStep::<CanFrame>::ClearAndSuspend),
{
}

/// A message with k >= 1 frames yields exactly its k frames, in order, over
/// the poll that read it and the k - 1 polls after it, with no read between;
/// the poll after those asks for readiness again.
pub proof fn lemma_batch_in_order(s: FrameStreamModel, m: BcmMsgHead)
    requires
        s.wants_read(),
        m.frames@.len() >= 1,
    ensures
        ({
            let k = m.frames@.len();
            let (s1, first) = frame_resume_spec(s, Event::Read(Ok(m)));
            let (s2, rest) = frame_polls(s1, (k - 1) as nat);
            &&& first == PollStep::Item(m.frames@[0])
            &&& rest.len() == k - 1
            &&& forall|i: int| 0 <= i < k - 1 ==> #[trigger] rest[i] == PollStep::Item(m.frames@[i + 1])
            &&& s2.wants_read()
            &&& frame_poll_spec(s2).1 == PollStep::<CanFrame>::NeedReadiness
        }),
{
    let k = m.frames@.len();
    let s1 = frame_resume_spec(s, Event::Read(Ok(m))).0;
    lemma_drain(s1, (k - 1) as nat);
}

/// An event whose error is the transient "would block" suspends both
/// streams, and neither stream ever yields that error.
pub proof fn lemma_would_block_suspends(s: FrameStreamModel, exhausted: bool, ev: Event)
    requires
        s.wants_read(),
        !exhausted,
    ensures
        !(frame_resume_spec(s, ev).1 matches PollStep::Failed(IoError::WouldBlock)),
        !(msg_resume_spec(exhausted, ev).1 matches PollStep::Failed(IoError::WouldBlock)),
        !(frame_poll_spec(s).1 is Failed),
        !(msg_poll_spec(exhausted).1 is Failed),
        (ev matches Event::Read(Err(IoError::WouldBlock))) || (ev matches Event::ReactorError(
            IoError::WouldBlock,
        )) ==> frame_resume_spec(s, ev) == (s, PollStep::<CanFrame>::ClearAndSuspend)
            && msg_resume_spec(exhausted, ev) == (
            exhausted,
            PollStep::<BcmMsgHead>::ClearAndSuspend,
        ),
{
}

/// A frame stream that has ended, with nothing buffered, yields "no more
/// items" on every poll, and asks for no read.
pub proof fn lemma_frame_exhausted_stays(s: FrameStreamModel, n: nat)
    requires
        s.exhausted,
        s.buffer.len() == 0,
    ensures
        frame_polls(s, n).0 == s,
        frame_polls(s, n).1.len() == n,
        forall|i: int| 0 <= i < n ==> #[trigger] frame_polls(s, n).1[i] == PollStep::<CanFrame>::Exhausted,
    decreases n,
{
    if n > 0 {
        lemma_frame_exhausted_stays(s, (n - 1) as nat);
        let os = frame_polls(s, (n - 1) as nat).1;
        assert forall|i: int| 0 <= i < n implies #[trigger] frame_polls(s, n).1[i]
            == PollStep::<CanFrame>::Exhausted by {
            if i > 0 {
                assert(frame_polls(s, n).1[i] == os[i - 1]);
            }
        }
    }
}

/// After a frame stream yields an error once, every later poll yields
/// "no more items" and asks for no read.
pub proof fn lemma_frame_error_is_terminal(s: FrameStreamModel, ev: Event, n: nat)
    requires
        s.wants_read(),
        frame_resume_spec(s, ev).1 is Failed,
    ensures
        ({
            let s1 = frame_resume_spec(s, ev).0;
            &&& frame_polls(s1, n).0 == s1
            &&& frame_polls(s1, n).1.len() == n
            &&& forall|i: int| 0 <= i < n ==> #[trigger] frame_polls(s1, n).1[i] == PollStep::<CanFrame>::Exhausted
        }),
{
    lemma_frame_exhausted_stays(frame_resume_spec(s, ev).0, n);
}

/// After a message stream yields an error once, every later poll yields
/// "no more items" and asks for no read.
pub proof fn lemma_msg_error_is_terminal(ev: Event, n: nat)
    requires
        msg_resume_spec(false, ev).1 is Failed,
    ensures
        ({
            let e1 = msg_resume_spec(false, ev).0;
            &&& msg_polls(e1, n).0 == e1
            &&& msg_polls(e1, n).1.len() == n
            &&& forall|i: int| 0 <= i < n ==> #[trigger] msg_polls(e1, n).1[i] == PollStep::<BcmMsgHead>::Exhausted
        }),
    decreases n,
{
    if n > 0 {
        lemma_msg_error_is_terminal(ev, (n - 1) as nat);
        let os = msg_polls(true, (n - 1) as nat).1;
        assert forall|i: int| 0 <= i < n implies #[trigger] msg_polls(true, n).1[i]
            == PollStep::<BcmMsgHead>::Exhausted by {
            if i > 0 {
                assert(msg_polls(true, n).1[i] == os[i - 1]);
            }
        }
    }
}

} // verus!
