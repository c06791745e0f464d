//! The broadcast-manager message: a fixed-layout header followed by up to
//! `MAX_NFRAMES` frame slots, read in the byte order and word width of the
//! host.
use vstd::prelude::*;
use crate::frame::CanFrame;
use crate::id::{CanMessageId, ERR_FLAG, RTR_FLAG, id_of_word};
use vstd::arithmetic::div_mod::lemma_fundamental_div_mod;

verus! {

/// Most frame slots that follow a header.
pub const MAX_NFRAMES: u32 = 256;

/// Bytes in one frame slot: identifier word, length byte, padding, payload.
pub const FRAME_SLOT_LEN: usize = 16;

/// Create an RX content filter subscription.
pub const RX_SETUP: u32 = 5;

/// Remove an RX content filter subscription.
pub const RX_DELETE: u32 = 6;

/// A cyclic message is absent.
pub const RX_TIMEOUT: u32 = 11;

/// The first or a revised CAN message was received.
pub const RX_CHANGED: u32 = 12;

/// Set the values of ival1, ival2 and count.
pub const SETTIMER: u32 = 0x0001;

/// Filter by identifier alone, no frames required.
pub const RX_FILTER_ID: u32 = 0x0020;

/// Byte order and word width of the host that the kernel writes for.
#[derive(Clone, Copy, Debug, PartialEq, Eq, Structural)]
pub struct Abi {
    pub big_endian: bool,
    /// 64-bit pointers and time words; else 32-bit ones.
    pub word64: bool,
}

/// A time interval as seconds and microseconds.
#[derive(Clone, Copy, Debug, PartialEq, Eq, Structural)]
pub struct Timeval {
    pub sec: i64,
    pub usec: i64,
}

impl Timeval {
    /// The interval of `secs` seconds and `nanos` nanoseconds, to the
    /// microsecond below.
    pub fn from_parts(secs: u64, nanos: u32) -> (r: Timeval)
        requires
            secs <= i64::MAX,
            nanos < 1_000_000_000,
        ensures
            r.sec == secs,
            r.usec == nanos / 1000,
    {
        Timeval { sec: secs as i64, usec: (nanos / 1000) as i64 }
    }

    /// True where the interval fits the time words of `abi`.
    pub fn fits(&self, abi: Abi) -> (r: bool)
        ensures
            r == timeval_fits(*self, abi),
    {
        abi.word64 || (i32::MIN as i64 <= self.sec && self.sec <= i32::MAX as i64
            && i32::MIN as i64 <= self.usec && self.usec <= i32::MAX as i64)
    }
}

/// Why bytes do not hold a message.
#[derive(Clone, Copy, Debug, PartialEq, Eq, Structural)]
pub enum DecodeError {
    /// Fewer bytes than the header and its declared frames take.
    Truncated,
    /// The header declares more than `MAX_NFRAMES` frames.
    TooManyFrames,
    /// A frame slot declares more than eight payload bytes.
    BadFrameLength,
}

/// How a read on the socket, or a readiness call to the reactor, failed.
#[derive(Clone, Copy, Debug, PartialEq, Eq, Structural)]
pub enum IoError {
    /// No data yet: a transient outcome.
    WouldBlock,
    /// Any other failure, with the operating system's error number.
    Os(i32),
    /// Any other failure without an error number.
    Other,
    /// The bytes that a read returned do not hold a message.
    Malformed(DecodeError),
}

impl IoError {
    /// True for the transient "no data yet" outcome.
    pub fn is_would_block(&self) -> (r: bool)
        ensures
            r == (*self is WouldBlock),
    {
        match self {
            IoError::WouldBlock => true,
            _ => false,
        }
    }
}

/// A decoded message: the header, and exactly the frames it declares.
#[derive(Clone, Debug)]
pub struct BcmMsgHead {
    pub opcode: u32,
    pub flags: u32,
    /// Number of frames to send before changing interval.
    pub count: u32,
    /// Interval for the first `count` frames.
    pub ival1: Timeval,
    /// Interval for the following frames.
    pub ival2: Timeval,
    /// Identifier word of the subscription.
    pub can_id: u32,
    pub frames: Vec<CanFrame>,
}

/// Unsigned 32-bit word at `off`.
pub open spec fn u32_at(b: Seq<u8>, off: int, big: bool) -> u32 {
    if big {
        (b[off] * 0x100_0000 + b[off + 1] * 0x1_0000 + b[off + 2] * 0x100 + b[off + 3]) as u32
    } else {
        (b[off] + b[off + 1] * 0x100 + b[off + 2] * 0x1_0000 + b[off + 3] * 0x100_0000) as u32
    }
}

/// Unsigned 64-bit word at `off`.
pub open spec fn u64_at(b: Seq<u8>, off: int, big: bool) -> u64 {
    if big {
        (u32_at(b, off, big) * 0x1_0000_0000 + u32_at(b, off + 4, big)) as u64
    } else {
        (u32_at(b, off, big) + u32_at(b, off + 4, big) * 0x1_0000_0000) as u64
    }
}

/// Signed time word at `off`: 64 or 32 bits wide.
pub open spec fn time_at(b: Seq<u8>, off: int, abi: Abi) -> i64 {
    if abi.word64 {
        #[verifier::truncate]
        (u64_at(b, off, abi.big_endian) as i64)
    } else {
        (#[verifier::truncate]
        (u32_at(b, off, abi.big_endian) as i32)) as i64
    }
}

/// Bytes in one time word.
pub open spec fn time_word_len(abi: Abi) -> int {
    if abi.word64 { 8 } else { 4 }
}

/// Offset of the first interval; on 64-bit hosts it is aligned to eight.
pub open spec fn ival1_off(abi: Abi) -> int {
    if abi.word64 { 16 } else { 12 }
}

pub open spec fn ival2_off(abi: Abi) -> int {
    ival1_off(abi) + 2 * time_word_len(abi)
}

pub open spec fn can_id_off(abi: Abi) -> int {
    ival2_off(abi) + 2 * time_word_len(abi)
}

pub open spec fn nframes_off(abi: Abi) -> int {
    can_id_off(abi) + 4
}

/// Bytes in the header; frame slots are aligned to eight, which adds padding
/// on 32-bit hosts.
pub open spec fn header_len(abi: Abi) -> int {
    if abi.word64 { 56 } else { 40 }
}

/// Offset of the padding word: before the intervals on 64-bit hosts, after
/// the frame count on 32-bit ones.
pub open spec fn pad_off(abi: Abi) -> int {
    if abi.word64 { 12 } else { 36 }
}

/// Offset of frame slot `i`.
pub open spec fn slot_off(abi: Abi, i: int) -> int {
    header_len(abi) + FRAME_SLOT_LEN * i
}

/// Declared number of frames; the header must be there.
pub open spec fn nframes_at(b: Seq<u8>, abi: Abi) -> u32 {
    u32_at(b, nframes_off(abi), abi.big_endian)
}

/// Interval at `off`.
pub open spec fn timeval_at(b: Seq<u8>, off: int, abi: Abi) -> Timeval {
    Timeval { sec: time_at(b, off, abi), usec: time_at(b, off + time_word_len(abi), abi) }
}

/// What is wrong with `b` as a message, if anything.
pub open spec fn decode_check(b: Seq<u8>, abi: Abi) -> Option<DecodeError> {
    if b.len() < header_len(abi) {
        Some(DecodeError::Truncated)
    } else if nframes_at(b, abi) > MAX_NFRAMES {
        Some(DecodeError::TooManyFrames)
    } else if b.len() < slot_off(abi, nframes_at(b, abi) as int) {
        Some(DecodeError::Truncated)
    } else if exists|i: int|
        0 <= i < nframes_at(b, abi) && #[trigger] b[slot_off(abi, i) + 4] > 8 {
        Some(DecodeError::BadFrameLength)
    } else {
        None
    }
}

/// `f` is the frame in the slot at `off`.
pub open spec fn frame_matches(f: CanFrame, b: Seq<u8>, off: int, big: bool) -> bool {
    let w = u32_at(b, off, big);
    &&& f.id == id_of_word(w)
    &&& f.rtr == (w & RTR_FLAG != 0)
    &&& f.err == (w & ERR_FLAG != 0)
    &&& f.dlc == b[off + 4]
    &&& f.data@ == b.subrange(off + 8, off + 16)
}

/// `m` is the message that `b` holds.
pub open spec fn message_matches(m: BcmMsgHead, b: Seq<u8>, abi: Abi) -> bool {
    let big = abi.big_endian;
    &&& m.opcode == u32_at(b, 0, big)
    &&& m.flags == u32_at(b, 4, big)
    &&& m.count == u32_at(b, 8, big)
    &&& m.ival1 == timeval_at(b, ival1_off(abi), abi)
    &&& m.ival2 == timeval_at(b, ival2_off(abi), abi)
    &&& m.can_id == u32_at(b, can_id_off(abi), big)
    &&& m.frames@.len() == nframes_at(b, abi)
    &&& forall|i: int|
        0 <= i < m.frames@.len() ==> frame_matches(
            #[trigger] m.frames@[i],
            b,
            slot_off(abi, i),
            big,
        )
}

impl BcmMsgHead {
    /// At most `MAX_NFRAMES` frames, each of them valid.
    pub open spec fn wf(self) -> bool {
        &&& self.frames@.len() <= MAX_NFRAMES
        &&& forall|i: int| 0 <= i < self.frames@.len() ==> (#[trigger] self.frames@[i]).valid()
    }

    /// Identifier word of the subscription.
    pub fn can_id(&self) -> (r: u32)
        ensures
            r == self.can_id,
    {
        self.can_id
    }

    /// The frames that the message carries, and no others.
    pub fn frames(&self) -> (r: &[CanFrame])
        ensures
            r@ == self.frames@,
    {
        self.frames.as_slice()
    }

    /// Number of frames that the message carries.
    pub fn nframes(&self) -> (r: usize)
        ensures
            r == self.frames@.len(),
    {
        self.frames.len()
    }
}

fn read_u32(b: &[u8], off: usize, big: bool) -> (r: u32)
    requires
        off + 4 <= b@.len(),
    ensures
        r == u32_at(b@, off as int, big),
{
    let b0 = b[off] as u32;
    let b1 = b[off + 1] as u32;
    let b2 = b[off + 2] as u32;
    let b3 = b[off + 3] as u32;
    if big {
        b0 * 0x100_0000 + b1 * 0x1_0000 + b2 * 0x100 + b3
    } else {
        b0 + b1 * 0x100 + b2 * 0x1_0000 + b3 * 0x100_0000
    }
}

fn read_u64(b: &[u8], off: usize, big: bool) -> (r: u64)
    requires
        off + 8 <= b@.len() <= usize::MAX,
    ensures
        r == u64_at(b@, off as int, big),
{
    let first = read_u32(b, off, big) as u64;
    let second = read_u32(b, off + 4, big) as u64;
    if big {
        first * 0x1_0000_0000 + second
    } else {
        first + second * 0x1_0000_0000
    }
}

fn read_time(b: &[u8], off: usize, abi: Abi) -> (r: i64)
    requires
        off + time_word_len(abi) <= b@.len() <= usize::MAX,
    ensures
        r == time_at(b@, off as int, abi),
{
    if abi.word64 {
        let w = read_u64(b, off, abi.big_endian);
        #[verifier::truncate]
        (w as i64)
    } else {
        let w = read_u32(b, off, abi.big_endian);
        let s: i32 = #[verifier::truncate]
        (w as i32);
        s as i64
    }
}

fn read_timeval(b: &[u8], off: usize, abi: Abi) -> (r: Timeval)
    requires
        off + 2 * time_word_len(abi) <= b@.len() <= usize::MAX,
    ensures
        r == timeval_at(b@, off as int, abi),
{
    let tw: usize = if abi.word64 { 8 } else { 4 };
    Timeval { sec: read_time(b, off, abi), usec: read_time(b, off + tw, abi) }
}

/// Decodes the frame slot at `off`.
fn read_frame(b: &[u8], off: usize, big: bool) -> (r: CanFrame)
    requires
        off + FRAME_SLOT_LEN <= b@.len() <= usize::MAX,
        b@[off + 4] <= 8,
    ensures
        frame_matches(r, b@, off as int, big),
        r.valid(),
{
    let w = read_u32(b, off, big);
    let mut data: [u8; 8] = [0u8; 8];
    let mut i: usize = 0;
    while i < 8
        invariant
            off + FRAME_SLOT_LEN <= b@.len() <= usize::MAX,
            i <= 8,
            forall|j: int| 0 <= j < i ==> data@[j] == b@[off + 8 + j],
        decreases 8 - i,
    {
        data[i] = b[off + 8 + i];
        i = i + 1;
    }
    assert(data@ =~= b@.subrange(off + 8, off + 16));
    CanFrame {
        id: CanMessageId::from_word(w),
        rtr: w & RTR_FLAG != 0,
        err: w & ERR_FLAG != 0,
        dlc: b[off + 4],
        data,
    }
}

/// Decodes one message out of the bytes of one read; fails, and builds
/// nothing, where the bytes do not hold a whole message.
pub fn decode(b: &[u8], abi: Abi) -> (r: Result<BcmMsgHead, DecodeError>)
    ensures
        r is Ok <==> decode_check(b@, abi) is None,
        r matches Err(e) ==> decode_check(b@, abi) == Some(e),
        r matches Ok(m) ==> message_matches(m, b@, abi) && m.wf(),
{
    let hl: usize = if abi.word64 { 56 } else { 40 };
    let i1: usize = if abi.word64 { 16 } else { 12 };
    let tw: usize = if abi.word64 { 8 } else { 4 };
    let i2: usize = i1 + 2 * tw;
    let cid: usize = i2 + 2 * tw;
    if b.len() < hl {
        return Err(DecodeError::Truncated);
    }
    let big = abi.big_endian;
    let n = read_u32(b, cid + 4, big);
    if n > MAX_NFRAMES {
        return Err(DecodeError::TooManyFrames);
    }
    let n = n as usize;
    if b.len() < hl + FRAME_SLOT_LEN * n {
        return Err(DecodeError::Truncated);
    }
    let mut frames: Vec<CanFrame> = Vec::new();
    let mut i: usize = 0;
    while i < n
        invariant
            n == nframes_at(b@, abi),
            n <= MAX_NFRAMES,
            hl == header_len(abi),
            big == abi.big_endian,
            slot_off(abi, n as int) <= b@.len() <= usize::MAX,
            i <= n,
            frames@.len() == i,
            forall|j: int| 0 <= j < i ==> b@[slot_off(abi, j) + 4] <= 8,
            forall|j: int|
                0 <= j < i ==> frame_matches(#[trigger] frames@[j], b@, slot_off(abi, j), big)
                    && frames@[j].valid(),
        decreases n - i,
    {
        let off = hl + FRAME_SLOT_LEN * i;
        if b[off + 4] > 8 {
            assert(b@[slot_off(abi, i as int) + 4] > 8);
            return Err(DecodeError::BadFrameLength);
        }
        let f = read_frame(b, off, big);
        frames.push(f);
        i = i + 1;
    }
    assert(!exists|j: int| 0 <= j < nframes_at(b@, abi) && #[trigger] b@[slot_off(abi, j) + 4] > 8);
    Ok(BcmMsgHead {
        opcode: read_u32(b, 0, big),
        flags: read_u32(b, 4, big),
        count: read_u32(b, 8, big),
        ival1: read_timeval(b, i1, abi),
        ival2: read_timeval(b, i2, abi),
        can_id: read_u32(b, cid, big),
        frames,
    })
}

/// The message that one read yields: the read's own failure, or the decoded
/// bytes, or why they do not hold a message.
pub fn read_msg(received: Result<Vec<u8>, IoError>, abi: Abi) -> (r: Result<BcmMsgHead, IoError>)
    ensures
        received matches Err(e) ==> r == Err::<BcmMsgHead, IoError>(e),
        received matches Ok(b) ==> match decode_check(b@, abi) {
            Some(d) => r == Err::<BcmMsgHead, IoError>(IoError::Malformed(d)),
            None => r matches Ok(m) && message_matches(m, b@, abi) && m.wf(),
        },
{
    match received {
        Err(e) => Err(e),
        Ok(b) => match decode(b.as_slice(), abi) {
            Ok(m) => Ok(m),
            Err(d) => Err(IoError::Malformed(d)),
        },
    }
}

/// The interval fits the time words of `abi`.
pub open spec fn timeval_fits(t: Timeval, abi: Abi) -> bool {
    abi.word64 || (i32::MIN <= t.sec <= i32::MAX && i32::MIN <= t.usec <= i32::MAX)
}

/// `b` is a header with these fields, zero padding, and no frame slots.
pub open spec fn header_holds(
    b: Seq<u8>,
    abi: Abi,
    opcode: u32,
    flags: u32,
    count: u32,
    ival1: Timeval,
    ival2: Timeval,
    can_id: u32,
) -> bool {
    let big = abi.big_endian;
    &&& b.len() == header_len(abi)
    &&& u32_at(b, 0, big) == opcode
    &&& u32_at(b, 4, big) == flags
    &&& u32_at(b, 8, big) == count
    &&& timeval_at(b, ival1_off(abi), abi) == ival1
    &&& timeval_at(b, ival2_off(abi), abi) == ival2
    &&& u32_at(b, can_id_off(abi), big) == can_id
    &&& nframes_at(b, abi) == 0
    &&& u32_at(b, pad_off(abi), big) == 0
}

proof fn lemma_u32_bytes(x: u32)
    ensures
        x == (x % 0x100) + ((x / 0x100) % 0x100) * 0x100 + ((x / 0x1_0000) % 0x100) * 0x1_0000 + (x
            / 0x100_0000) * 0x100_0000,
{
    lemma_fundamental_div_mod(x as int, 0x100);
    lemma_fundamental_div_mod(x as int / 0x100, 0x100);
    lemma_fundamental_div_mod(x as int / 0x1_0000, 0x100);
    assert(x as int / 0x100 / 0x100 == x as int / 0x1_0000) by {
        vstd::arithmetic::div_mod::lemma_div_denominator(x as int, 0x100, 0x100);
    }
    assert(x as int / 0x1_0000 / 0x100 == x as int / 0x100_0000) by {
        vstd::arithmetic::div_mod::lemma_div_denominator(x as int, 0x1_0000, 0x100);
    }
}

/// Appends `x` as a 32-bit word.
fn push_u32(v: &mut Vec<u8>, x: u32, big: bool)
    requires
        old(v)@.len() + 4 <= usize::MAX,
    ensures
        final(v)@.len() == old(v)@.len() + 4,
        forall|i: int| 0 <= i < old(v)@.len() ==> final(v)@[i] == old(v)@[i],
        u32_at(final(v)@, old(v)@.len() as int, big) == x,
{
    let b0 = (x % 0x100) as u8;
    let b1 = ((x / 0x100) % 0x100) as u8;
    let b2 = ((x / 0x1_0000) % 0x100) as u8;
    let b3 = (x / 0x100_0000) as u8;
    proof {
        lemma_u32_bytes(x);
    }
    if big {
        v.push(b3);
        v.push(b2);
        v.push(b1);
        v.push(b0);
    } else {
        v.push(b0);
        v.push(b1);
        v.push(b2);
        v.push(b3);
    }
}

/// Appends `x` as a 64-bit word.
fn push_u64(v: &mut Vec<u8>, x: u64, big: bool)
    requires
        old(v)@.len() + 8 <= usize::MAX,
    ensures
        final(v)@.len() == old(v)@.len() + 8,
        forall|i: int| 0 <= i < old(v)@.len() ==> final(v)@[i] == old(v)@[i],
        u64_at(final(v)@, old(v)@.len() as int, big) == x,
{
    let lo = (x % 0x1_0000_0000) as u32;
    let hi = (x / 0x1_0000_0000) as u32;
    let start = Ghost(v@.len() as int);
    if big {
        push_u32(v, hi, big);
        push_u32(v, lo, big);
    } else {
        push_u32(v, lo, big);
        push_u32(v, hi, big);
    }
    proof {
        let w = v@;
        assert(u32_at(w, start@, big) == (if big { hi } else { lo }));
    }
}

/// Appends `t` as a time word of `abi`.
fn push_time(v: &mut Vec<u8>, t: i64, abi: Abi)
    requires
        old(v)@.len() + 8 <= usize::MAX,
        abi.word64 || i32::MIN <= t <= i32::MAX,
    ensures
        final(v)@.len() == old(v)@.len() + time_word_len(abi),
        forall|i: int| 0 <= i < old(v)@.len() ==> final(v)@[i] == old(v)@[i],
        time_at(final(v)@, old(v)@.len() as int, abi) == t,
{
    if abi.word64 {
        let u: u64 = #[verifier::truncate]
        (t as u64);
        assert(#[verifier::truncate] ((#[verifier::truncate] (t as u64)) as i64) == t)
            by (bit_vector);
        push_u64(v, u, abi.big_endian);
    } else {
        let y = t as i32;
        let w: u32 = #[verifier::truncate]
        (y as u32);
        assert((#[verifier::truncate] ((#[verifier::truncate] (y as u32)) as i32)) as i64
            == y as i64) by (bit_vector);
        push_u32(v, w, abi.big_endian);
    }
}

/// Encodes a header without frame slots.
pub fn encode_head(
    opcode: u32,
    flags: u32,
    count: u32,
    ival1: Timeval,
    ival2: Timeval,
    can_id: u32,
    abi: Abi,
) -> (r: Vec<u8>)
    requires
        timeval_fits(ival1, abi),
        timeval_fits(ival2, abi),
    ensures
        header_holds(r@, abi, opcode, flags, count, ival1, ival2, can_id),
{
    let big = abi.big_endian;
    let mut v: Vec<u8> = Vec::new();
    push_u32(&mut v, opcode, big);
    push_u32(&mut v, flags, big);
    push_u32(&mut v, count, big);
    if abi.word64 {
        push_u32(&mut v, 0, big);
    }
    let a = Ghost(v@);
    push_time(&mut v, ival1.sec, abi);
    push_time(&mut v, ival1.usec, abi);
    let b = Ghost(v@);
    push_time(&mut v, ival2.sec, abi);
    push_time(&mut v, ival2.usec, abi);
    let c = Ghost(v@);
    push_u32(&mut v, can_id, big);
    push_u32(&mut v, 0, big);
    if !abi.word64 {
        push_u32(&mut v, 0, big);
    }
    proof {
        let w = v@;
        assert(u32_at(w, 0, big) == u32_at(a@, 0, big));
        assert(u32_at(w, 4, big) == u32_at(a@, 4, big));
        assert(u32_at(w, 8, big) == u32_at(a@, 8, big));
        if abi.word64 {
            assert(u32_at(w, 12, big) == u32_at(a@, 12, big));
        }
        let t = time_word_len(abi);
        assert(time_at(w, ival1_off(abi), abi) == time_at(b@, ival1_off(abi), abi));
        assert(time_at(w, ival1_off(abi) + t, abi) == time_at(b@, ival1_off(abi) + t, abi));
        assert(time_at(w, ival2_off(abi), abi) == time_at(c@, ival2_off(abi), abi));
        assert(time_at(w, ival2_off(abi) + t, abi) == time_at(c@, ival2_off(abi) + t, abi));
    }
    v
}

/// The request that subscribes to frames with identifier `can_id`: timers
/// set, filtering by identifier alone, no frames.
pub fn filter_id_request(can_id: CanMessageId, ival1: Timeval, ival2: Timeval, abi: Abi) -> (r:
    Vec<u8>)
    requires
        can_id.valid(),
        timeval_fits(ival1, abi),
        timeval_fits(ival2, abi),
    ensures
        header_holds(r@, abi, RX_SETUP, SETTIMER | RX_FILTER_ID, 0, ival1, ival2, can_id.word_spec()),
{
    encode_head(RX_SETUP, SETTIMER | RX_FILTER_ID, 0, ival1, ival2, can_id.with_eff_bit(), abi)
}

/// The request that removes the subscription to identifier `can_id`.
pub fn filter_delete_request(can_id: CanMessageId, abi: Abi) -> (r: Vec<u8>)
    requires
        can_id.valid(),
    ensures
        header_holds(
            r@,
            abi,
            RX_DELETE,
            0,
            0,
            Timeval { sec: 0, usec: 0 },
            Timeval { sec: 0, usec: 0 },
            can_id.word_spec(),
        ),
{
    let zero = Timeval { sec: 0, usec: 0 };
    encode_head(RX_DELETE, 0, 0, zero, zero, can_id.with_eff_bit(), abi)
}

/// Bytes in a header of `abi`.
pub fn head_len(abi: Abi) -> (r: usize)
    ensures
        r == header_len(abi),
{
    if abi.word64 {
        56
    } else {
        40
    }
}

} // verus!
