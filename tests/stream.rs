use canbcm::codec::{decode, Abi, BcmMsgHead, IoError, DecodeError, RX_CHANGED, RX_TIMEOUT};
use canbcm::frame::CanFrame;
use canbcm::id::CanMessageId;
use canbcm::stream::{BcmFrameStream, BcmStream, Event, PollStep};

const LE64: Abi = Abi { big_endian: false, word64: true };

fn message(opcode: u32, ids: &[u32]) -> BcmMsgHead {
    let mut v = Vec::new();
    v.extend_from_slice(&opcode.to_le_bytes());
    v.extend_from_slice(&[0; 44]);
    v.extend_from_slice(&0x123u32.to_le_bytes());
    v.extend_from_slice(&(ids.len() as u32).to_le_bytes());
    for (i, id) in ids.iter().enumerate() {
        v.extend_from_slice(&id.to_le_bytes());
        v.push(1);
        v.extend_from_slice(&[0, 0, 0]);
        v.extend_from_slice(&[i as u8, 0, 0, 0, 0, 0, 0, 0]);
    }
    decode(&v, LE64).unwrap()
}

fn frame(step: PollStep<CanFrame>) -> CanFrame {
    match step {
        PollStep::Item(f) => f,
        other => panic!("expected a frame, got {:?}", other),
    }
}

#[test]
fn buffered_frames_come_first_then_suspend() {
    let mut s = BcmFrameStream::new();
    assert!(matches!(s.poll_next(), PollStep::NeedReadiness));
    let m = message(RX_CHANGED, &[0x10, 0xa, 0xb]);
    let (fa, fb) = (m.frames()[1], m.frames()[2]);
    assert_eq!(frame(s.resume(Event::Read(Ok(m)))).id(), 0x10);
    assert!(!s.wants_read());
    assert_eq!(frame(s.poll_next()), fa);
    assert_eq!(frame(s.poll_next()), fb);
    assert!(s.wants_read());
    assert!(matches!(s.poll_next(), PollStep::NeedReadiness));
    assert!(matches!(s.resume(Event::NotReady), PollStep::Suspend));
    assert!(matches!(s.poll_next(), PollStep::NeedReadiness));
}

#[test]
fn three_frame_batch_drains_in_order() {
    let mut s = BcmFrameStream::new();
    let m = message(RX_CHANGED, &[0x20, 0x21, 0x22]);
    let f = m.frames().to_vec();
    assert!(matches!(s.poll_next(), PollStep::NeedReadiness));
    assert_eq!(frame(s.resume(Event::Read(Ok(m)))), f[0]);
    assert_eq!(frame(s.poll_next()), f[1]);
    assert_eq!(frame(s.poll_next()), f[2]);
    assert_eq!(f[2].data(), &[2]);
    assert!(matches!(s.poll_next(), PollStep::NeedReadiness));
}

#[test]
fn subscribed_standard_id_is_yielded() {
    let mut s = BcmFrameStream::new();
    assert!(matches!(s.poll_next(), PollStep::NeedReadiness));
    let f = frame(s.resume(Event::Read(Ok(message(RX_CHANGED, &[0x123])))));
    assert_eq!(f.id(), 0x123);
    assert!(!f.is_extended());
    assert_eq!(f.id, CanMessageId::SFF(0x123));
}

#[test]
fn hard_error_is_yielded_once_then_exhausted() {
    let mut s = BcmFrameStream::new();
    assert!(matches!(s.poll_next(), PollStep::NeedReadiness));
    assert!(matches!(s.resume(Event::Read(Err(IoError::Os(5)))), PollStep::Failed(IoError::Os(5))));
    for _ in 0..5 {
        assert!(matches!(s.poll_next(), PollStep::Exhausted));
        assert!(!s.wants_read());
    }
}

#[test]
fn frameless_message_clears_and_suspends() {
    let mut s = BcmFrameStream::new();
    assert!(matches!(s.poll_next(), PollStep::NeedReadiness));
    assert!(matches!(s.resume(Event::Read(Ok(message(RX_TIMEOUT, &[])))), PollStep::ClearAndSuspend));
    assert!(s.wants_read());
    assert!(matches!(s.poll_next(), PollStep::NeedReadiness));
}

#[test]
fn would_block_only_suspends() {
    let mut s = BcmFrameStream::new();
    assert!(matches!(s.resume(Event::Read(Err(IoError::WouldBlock))), PollStep::ClearAndSuspend));
    assert!(matches!(s.resume(Event::ReactorError(IoError::WouldBlock)), PollStep::ClearAndSuspend));
    assert!(s.wants_read());
    let mut m = BcmStream::new();
    assert!(matches!(m.resume(Event::Read(Err(IoError::WouldBlock))), PollStep::ClearAndSuspend));
    assert!(m.wants_read());
}

#[test]
fn reactor_and_decode_failures_are_terminal() {
    let mut s = BcmFrameStream::new();
    assert!(matches!(s.resume(Event::ReactorError(IoError::Other)), PollStep::Failed(IoError::Other)));
    assert!(matches!(s.poll_next(), PollStep::Exhausted));
    let mut t = BcmFrameStream::new();
    let bad = Err(IoError::Malformed(DecodeError::Truncated));
    assert!(matches!(
        t.resume(Event::Read(bad)),
        PollStep::Failed(IoError::Malformed(DecodeError::Truncated))
    ));
    assert!(matches!(t.poll_next(), PollStep::Exhausted));
}

#[test]
fn message_stream_yields_every_message() {
    let mut s = BcmStream::new();
    assert!(matches!(s.poll_next(), PollStep::NeedReadiness));
    match s.resume(Event::Read(Ok(message(RX_TIMEOUT, &[])))) {
        PollStep::Item(m) => {
            assert_eq!(m.opcode, RX_TIMEOUT);
            assert_eq!(m.frames().len(), 0);
        }
        other => panic!("expected a message, got {:?}", other),
    }
    match s.resume(Event::Read(Ok(message(RX_CHANGED, &[0x1, 0x2])))) {
        PollStep::Item(m) => assert_eq!(m.frames().len(), 2),
        other => panic!("expected a message, got {:?}", other),
    }
    assert!(matches!(s.resume(Event::NotReady), PollStep::Suspend));
    assert!(matches!(s.resume(Event::Read(Err(IoError::Os(19)))), PollStep::Failed(IoError::Os(19))));
    assert!(matches!(s.poll_next(), PollStep::Exhausted));
    assert!(matches!(s.poll_next(), PollStep::Exhausted));
    assert!(!s.wants_read());
}
