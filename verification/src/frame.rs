//! Frame codec: the symmetrical framer (header, CRC-8, payload,
//! CRC-16 tail) and the stream-oriented pull deframer with byte-wise
//! resynchronization.

use vstd::prelude::*;

use crate::codec::decode_message;
use crate::codec::encode_message;
use crate::codec::message_wf;
use crate::codec::msg_bytes;
use crate::codec::parse_msg;
use crate::crc::crc16;
use crate::crc::crc16_spec;
use crate::crc::crc8;
use crate::crc::crc8_spec;
use crate::errors::DecodeError;
use crate::errors::EncodeError;
use crate::proto::Message;
use crate::proto::MessageV;
use crate::wire::copy_range;
use crate::wire::drop_front;
use crate::wire::le16;
use crate::wire::lemma_u16_round;
use crate::wire::push_bytes;
use crate::wire::push_u16_le;
use crate::wire::read_u16_le;
use crate::wire::u16_hi;
use crate::wire::u16_lo;
use crate::wire::u16_of;

verus! {

/// One transport envelope.  On decode the CRC fields hold what the
/// wire carried; on encode they are computed, not taken from here.
#[derive(Debug, Clone, PartialEq)]
pub struct Frame2 {
    pub data_length: u16,
    pub seq: u8,
    pub crc8: u8,
    pub message: Message,
    pub crc_frame_tail: u16,
}

pub struct Frame2V {
    pub data_length: u16,
    pub seq: u8,
    pub crc8: u8,
    pub message: MessageV,
    pub crc_frame_tail: u16,
}

impl View for Frame2 {
    type V = Frame2V;

    open spec fn view(&self) -> Frame2V {
        Frame2V {
            data_length: self.data_length,
            seq: self.seq,
            crc8: self.crc8,
            message: self.message@,
            crc_frame_tail: self.crc_frame_tail,
        }
    }
}

/// The on-wire image of a frame: start byte, little-endian data
/// length, sequence number, CRC-8 of those four bytes, the payload,
/// and the little-endian CRC-16 of everything before it.
pub open spec fn frame_bytes(v: MessageV, dl: u16, sq: u8) -> Seq<u8> {
    let head = seq![0xA5u8, u16_lo(dl), u16_hi(dl), sq];
    let head5 = head.push(crc8_spec(head));
    let body = head5 + msg_bytes(v);
    body + le16(crc16_spec(body))
}

/// Law: every frame is exactly `data_length + 9` bytes on the wire.
pub proof fn lemma_frame_len(v: MessageV, dl: u16, sq: u8)
    requires
        msg_bytes(v).len() == dl + 2,
    ensures
        frame_bytes(v, dl, sq).len() == dl + 9,
{
}

/// Law: in every frame, the CRC-8 of the first four bytes stands at
/// byte 4, and the little-endian CRC-16 of all bytes before the tail
/// stands in the last two bytes.
pub proof fn lemma_frame_crcs(v: MessageV, dl: u16, sq: u8)
    ensures
        frame_bytes(v, dl, sq)[4] == crc8_spec(frame_bytes(v, dl, sq).subrange(0, 4)),
        u16_of(
            frame_bytes(v, dl, sq)[frame_bytes(v, dl, sq).len() - 2],
            frame_bytes(v, dl, sq)[frame_bytes(v, dl, sq).len() - 1],
        ) == crc16_spec(frame_bytes(v, dl, sq).subrange(0, frame_bytes(v, dl, sq).len() - 2)),
{
    let head = seq![0xA5u8, u16_lo(dl), u16_hi(dl), sq];
    let head5 = head.push(crc8_spec(head));
    let body = head5 + msg_bytes(v);
    let w = frame_bytes(v, dl, sq);
    assert(w.subrange(0, 4) =~= head);
    assert(w.subrange(0, w.len() - 2) =~= body);
    lemma_u16_round(crc16_spec(body));
}

/// Build the wire bytes of one frame.  Success is owed exactly when
/// the message is well formed, its payload matches the declared data
/// length, and the length fits the protocol bound.
pub fn encode_frame(message: &Message, data_length: u16, sq: u8) -> (r: Result<
    Vec<u8>,
    EncodeError,
>)
    ensures
        !message@.wf() ==> r == Err::<Vec<u8>, EncodeError>(EncodeError::InvalidField),
        message@.wf() && !(msg_bytes(message@).len() == data_length + 2 && data_length <= 119)
            ==> r == Err::<Vec<u8>, EncodeError>(EncodeError::WrongDataLength),
        message@.wf() && msg_bytes(message@).len() == data_length + 2 && data_length <= 119 ==> (
        r matches Ok(w) && w@ == frame_bytes(message@, data_length, sq) && w@.len() == data_length
            + 9),
{
    if !message_wf(message) {
        return Err(EncodeError::InvalidField);
    }
    let payload = encode_message(message);
    if data_length > 119 || payload.len() != (data_length as usize) + 2 {
        return Err(EncodeError::WrongDataLength);
    }
    let mut out: Vec<u8> = Vec::new();
    out.push(0xA5);
    push_u16_le(&mut out, data_length);
    out.push(sq);
    let ghost head = seq![0xA5u8, u16_lo(data_length), u16_hi(data_length), sq];
    proof {
        assert(out@ =~= head);
    }
    let c8 = crc8(&out, 0, 4);
    proof {
        assert(out@.subrange(0, 4) =~= head);
    }
    out.push(c8);
    proof {
        assert(out@ =~= head.push(crc8_spec(head)));
    }
    push_bytes(&mut out, &payload);
    let ghost body = head.push(crc8_spec(head)) + msg_bytes(message@);
    proof {
        assert(out@ =~= body);
    }
    let end = out.len();
    let c16 = crc16(&out, 0, end);
    proof {
        assert(out@.subrange(0, end as int) =~= body);
    }
    push_u16_le(&mut out, c16);
    proof {
        assert(out@ =~= frame_bytes(message@, data_length, sq));
    }
    Ok(out)
}

/// First index at or after `i` that holds the start-of-frame byte, or
/// the length of the buffer if there is none.
pub open spec fn find_sof_from(s: Seq<u8>, i: nat) -> nat
    decreases s.len() - i,
{
    if i >= s.len() {
        i
    } else if s[i as int] == 0xA5 {
        i
    } else {
        find_sof_from(s, i + 1)
    }
}

/// One pull of the deframer: what remains in the buffer and what the
/// call yields.  A failed header or tail check advances by exactly one
/// byte; a short buffer consumes nothing and asks for more.
pub open spec fn deframe_spec(s: Seq<u8>) -> (Seq<u8>, Result<Option<Frame2V>, DecodeError>) {
    if s.len() < 5 {
        (s, Ok(None))
    } else {
        let start = find_sof_from(s, 0);
        if start >= s.len() {
            (s.skip(s.len() - 1), Ok(None))
        } else {
            let t = s.skip(start as int);
            if t.len() < 5 {
                (t, Ok(None))
            } else if crc8_spec(t.subrange(0, 4)) != t[4] {
                (t.skip(1), Ok(None))
            } else {
                let dl = u16_of(t[1], t[2]);
                if dl > 119 {
                    (t.skip(1), Ok(None))
                } else if t.len() < dl + 9 {
                    (t, Ok(None))
                } else if crc16_spec(t.subrange(0, dl + 7)) != u16_of(t[dl + 7], t[dl + 8]) {
                    (t.skip(1), Ok(None))
                } else {
                    let rest = t.skip(dl + 9);
                    match parse_msg(t.subrange(5, dl + 7)) {
                        Ok(mv) => (
                            rest,
                            Ok(
                                Some(
                                    Frame2V {
                                        data_length: dl,
                                        seq: t[3],
                                        crc8: t[4],
                                        message: mv,
                                        crc_frame_tail: u16_of(t[dl + 7], t[dl + 8]),
                                    },
                                ),
                            ),
                        ),
                        Err(e) => (rest, Err(e)),
                    }
                }
            }
        }
    }
}

pub open spec fn deframe_res_view(r: Result<Option<Frame2>, DecodeError>) -> Result<
    Option<Frame2V>,
    DecodeError,
> {
    match r {
        Ok(None) => Ok(None),
        Ok(Some(f)) => Ok(Some(f@)),
        Err(e) => Err(e),
    }
}

/// Pull one frame out of the accumulated inbound buffer, following
/// the resynchronization rules exactly; bad bytes never poison the
/// stream, they only move the cursor.
pub fn deframe(buf: &mut Vec<u8>) -> (r: Result<Option<Frame2>, DecodeError>)
    ensures
        (final(buf)@, deframe_res_view(r)) == deframe_spec(old(buf)@),
{
    let n = buf.len();
    if n < 5 {
        return Ok(None);
    }
    let ghost s = buf@;
    let mut i: usize = 0;
    while i < n && buf[i] != 0xA5
        invariant
            i <= n,
            n == buf@.len(),
            buf@ == s,
            find_sof_from(s, 0) == find_sof_from(s, i as nat),
        decreases n - i,
    {
        i = i + 1;
    }
    proof {
        assert(find_sof_from(s, 0) == i);
    }
    if i >= n {
        drop_front(buf, n - 1);
        return Ok(None);
    }
    if i > 0 {
        drop_front(buf, i);
    }
    let ghost t = s.skip(i as int);
    proof {
        assert(buf@ =~= t);
    }
    let n2 = buf.len();
    if n2 < 5 {
        return Ok(None);
    }
    let c8 = crc8(buf, 0, 4);
    proof {
        assert(buf@.subrange(0, 4) =~= t.subrange(0, 4));
    }
    if c8 != buf[4] {
        drop_front(buf, 1);
        return Ok(None);
    }
    let dl = read_u16_le(buf, 1);
    if dl > 119 {
        drop_front(buf, 1);
        return Ok(None);
    }
    let need = (dl as usize) + 9;
    if n2 < need {
        return Ok(None);
    }
    let c16 = crc16(buf, 0, (dl as usize) + 7);
    let tail = read_u16_le(buf, (dl as usize) + 7);
    if c16 != tail {
        drop_front(buf, 1);
        return Ok(None);
    }
    let payload = copy_range(buf, 5, (dl as usize) + 7);
    let sq = buf[3];
    let c8v = buf[4];
    let msg = decode_message(&payload);
    drop_front(buf, need);
    proof {
        assert(buf@ =~= t.skip(dl + 9));
    }
    match msg {
        Ok(m) => Ok(
            Some(Frame2 { data_length: dl, seq: sq, crc8: c8v, message: m, crc_frame_tail: tail }),
        ),
        Err(e) => Err(e),
    }
}

} // verus!
