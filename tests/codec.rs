use canbcm::codec::{
    decode, encode_head, filter_delete_request, filter_id_request, head_len, read_msg, Abi,
    DecodeError, IoError, Timeval, RX_CHANGED, RX_DELETE, RX_SETUP,
};
use canbcm::id::CanMessageId;

const LE64: Abi = Abi { big_endian: false, word64: true };
const BE32: Abi = Abi { big_endian: true, word64: false };

fn word(v: &mut Vec<u8>, x: u32, big: bool) {
    if big {
        v.extend_from_slice(&x.to_be_bytes());
    } else {
        v.extend_from_slice(&x.to_le_bytes());
    }
}

/// A received message on a little-endian 64-bit host.
fn message_le64(can_id: u32, frames: &[(u32, u8, [u8; 8])]) -> Vec<u8> {
    let mut v = Vec::new();
    word(&mut v, RX_CHANGED, false);
    word(&mut v, 0x21, false);
    word(&mut v, 7, false);
    word(&mut v, 0, false);
    v.extend_from_slice(&3i64.to_le_bytes());
    v.extend_from_slice(&500i64.to_le_bytes());
    v.extend_from_slice(&(-1i64).to_le_bytes());
    v.extend_from_slice(&9i64.to_le_bytes());
    word(&mut v, can_id, false);
    word(&mut v, frames.len() as u32, false);
    for (id, dlc, data) in frames {
        word(&mut v, *id, false);
        v.push(*dlc);
        v.extend_from_slice(&[0, 0, 0]);
        v.extend_from_slice(data);
    }
    v
}

#[test]
fn decodes_header_and_frames() {
    let b = message_le64(
        0x123,
        &[(0x123, 2, [1, 2, 0, 0, 0, 0, 0, 0]), (0x8000_0456 | 0x4000_0000, 0, [0; 8])],
    );
    assert_eq!(b.len(), 56 + 32);
    let m = decode(&b, LE64).unwrap();
    assert_eq!(m.opcode, RX_CHANGED);
    assert_eq!(m.flags, 0x21);
    assert_eq!(m.count, 7);
    assert_eq!(m.ival1, Timeval { sec: 3, usec: 500 });
    assert_eq!(m.ival2, Timeval { sec: -1, usec: 9 });
    assert_eq!(m.can_id(), 0x123);
    assert_eq!(m.nframes(), 2);
    let f = m.frames();
    assert_eq!(f[0].id, CanMessageId::SFF(0x123));
    assert_eq!(f[0].data(), &[1, 2]);
    assert!(!f[0].is_rtr());
    assert_eq!(f[1].id, CanMessageId::EFF(0x456));
    assert!(f[1].is_rtr());
    assert!(f[1].is_extended());
    assert_eq!(f[1].data().len(), 0);
}

#[test]
fn decodes_big_endian_32_bit_layout() {
    let mut v = Vec::new();
    for x in [RX_CHANGED, 1, 2, 0xffff_fffe, 4, 5, 6, 0x8000_0042, 1, 0] {
        word(&mut v, x, true);
    }
    word(&mut v, 0x8000_0042, true);
    v.push(1);
    v.extend_from_slice(&[0, 0, 0]);
    v.extend_from_slice(&[0xaa, 0, 0, 0, 0, 0, 0, 0]);
    assert_eq!(head_len(BE32), 40);
    let m = decode(&v, BE32).unwrap();
    assert_eq!(m.opcode, RX_CHANGED);
    assert_eq!(m.flags, 1);
    assert_eq!(m.count, 2);
    assert_eq!(m.ival1, Timeval { sec: -2, usec: 4 });
    assert_eq!(m.ival2, Timeval { sec: 5, usec: 6 });
    assert_eq!(m.can_id, 0x8000_0042);
    assert_eq!(m.frames.len(), 1);
    assert_eq!(m.frames[0].id, CanMessageId::EFF(0x42));
    assert_eq!(m.frames[0].data(), &[0xaa]);
}

#[test]
fn decode_errors() {
    let good = message_le64(0x123, &[(0x123, 1, [5; 8])]);
    assert_eq!(decode(&good[..55], LE64).unwrap_err(), DecodeError::Truncated);
    assert_eq!(decode(&good[..71], LE64).unwrap_err(), DecodeError::Truncated);
    assert_eq!(decode(&[], LE64).unwrap_err(), DecodeError::Truncated);
    let mut many = message_le64(0x123, &[]);
    many[52..56].copy_from_slice(&257u32.to_le_bytes());
    assert_eq!(decode(&many, LE64).unwrap_err(), DecodeError::TooManyFrames);
    let long = message_le64(0x123, &[(0x123, 1, [0; 8]), (0x123, 9, [0; 8])]);
    assert_eq!(decode(&long, LE64).unwrap_err(), DecodeError::BadFrameLength);
}

#[test]
fn empty_message_has_no_frames() {
    let m = decode(&message_le64(0x123, &[]), LE64).unwrap();
    assert_eq!(m.frames().len(), 0);
}

#[test]
fn read_msg_classifies() {
    assert_eq!(read_msg(Err(IoError::WouldBlock), LE64).unwrap_err(), IoError::WouldBlock);
    assert_eq!(read_msg(Err(IoError::Os(5)), LE64).unwrap_err(), IoError::Os(5));
    assert_eq!(
        read_msg(Ok(vec![0; 10]), LE64).unwrap_err(),
        IoError::Malformed(DecodeError::Truncated)
    );
    let m = read_msg(Ok(message_le64(0x7ff, &[(0x7ff, 0, [0; 8])])), LE64).unwrap();
    assert_eq!(m.frames()[0].id(), 0x7ff);
    assert!(IoError::WouldBlock.is_would_block());
    assert!(!IoError::Other.is_would_block());
}

#[test]
fn filter_id_request_bytes() {
    let ival = Timeval::from_parts(1, 2_500_000);
    assert_eq!(ival, Timeval { sec: 1, usec: 2500 });
    let r = filter_id_request(CanMessageId::SFF(0x123), ival, ival, LE64);
    assert_eq!(r.len(), 56);
    assert_eq!(&r[0..4], &[5, 0, 0, 0]);
    assert_eq!(&r[4..8], &[0x21, 0, 0, 0]);
    assert_eq!(&r[8..16], &[0; 8]);
    assert_eq!(&r[16..24], &1i64.to_le_bytes());
    assert_eq!(&r[24..32], &2500i64.to_le_bytes());
    assert_eq!(&r[48..52], &[0x23, 0x01, 0, 0]);
    assert_eq!(&r[52..56], &[0; 4]);
    let m = decode(&r, LE64).unwrap();
    assert_eq!(m.opcode, RX_SETUP);
    assert_eq!(m.ival2, ival);
    assert_eq!(m.frames().len(), 0);
}

#[test]
fn filter_requests_mark_extended_ids() {
    let r = filter_delete_request(CanMessageId::EFF(0x123), BE32);
    assert_eq!(r.len(), 40);
    assert_eq!(&r[0..4], &[0, 0, 0, 6]);
    assert_eq!(&r[28..32], &[0x80, 0, 0x01, 0x23]);
    let m = decode(&r, BE32).unwrap();
    assert_eq!(m.opcode, RX_DELETE);
    assert_eq!(m.ival1, Timeval { sec: 0, usec: 0 });
    assert_eq!(CanMessageId::from_word(m.can_id), CanMessageId::EFF(0x123));
}

#[test]
fn encode_head_round_trips_negative_times() {
    let t1 = Timeval { sec: -5, usec: 7 };
    let t2 = Timeval { sec: 2147483647, usec: -2147483648 };
    for abi in [LE64, BE32, Abi { big_endian: true, word64: true }, Abi { big_endian: false, word64: false }] {
        let r = encode_head(11, 3, 9, t1, t2, 0xdead_beef, abi);
        let m = decode(&r, abi).unwrap();
        assert_eq!((m.opcode, m.flags, m.count, m.can_id), (11, 3, 9, 0xdead_beef));
        assert_eq!(m.ival1, t1);
        assert_eq!(m.ival2, t2);
    }
}
