//! Framing of PLDM messages.
//!
//! A message is one MCTP message-type byte followed by the PLDM bytes. MCTP
//! itself carries the PLDM bytes alone, so the services put the framing byte in
//! front of what they receive and leave it off what they send.

use vstd::prelude::*;
use vstd::slice::slice_subrange;

use crate::error::PldmServiceError;
use crate::responder::PLDM_MSG_TYPE;

verus! {

/// The message that carries the PLDM bytes `pldm`.
pub open spec fn frame(pldm: Seq<u8>) -> Seq<u8> {
    seq![PLDM_MSG_TYPE] + pldm
}

/// The PLDM bytes of `message`: all of it but the framing byte.
pub open spec fn pldm_part(message: Seq<u8>) -> Seq<u8> {
    message.skip(1)
}

/// The number of PLDM bytes in a message of `msg_len` bytes, which must have a
/// framing byte.
pub open spec fn pldm_count(msg_len: usize) -> Result<usize, PldmServiceError> {
    if msg_len == 0 {
        Err(PldmServiceError::Overflow)
    } else {
        Ok((msg_len - 1) as usize)
    }
}

/// The number of PLDM bytes in a message of `msg_len` bytes.
pub fn pldm_len(msg_len: usize) -> (len: Result<usize, PldmServiceError>)
    ensures
        len == pldm_count(msg_len),
{
    match msg_len.checked_sub(1) {
        Some(len) => Ok(len),
        None => Err(PldmServiceError::Overflow),
    }
}

/// The message at the start of `buf` that has `pldm_len` PLDM bytes, or
/// [`PldmServiceError::Overflow`] where `buf` is too short for it.
pub fn message<'a>(buf: &'a [u8], pldm_len: usize) -> (message: Result<&'a [u8], PldmServiceError>)
    ensures
        pldm_len < buf@.len() ==> (message matches Ok(m) && m@ == buf@.take(pldm_len + 1)),
        pldm_len >= buf@.len() ==> message == Err::<&'a [u8], _>(PldmServiceError::Overflow),
{
    let buf_len: usize = buf.len();
    match pldm_len.checked_add(1) {
        Some(total_len) => if total_len <= buf_len {
            Ok(slice_subrange(buf, 0, total_len))
        } else {
            Err(PldmServiceError::Overflow)
        },
        None => Err(PldmServiceError::Overflow),
    }
}

/// The PLDM bytes of the message `buf[..msg_len]`, or
/// [`PldmServiceError::Overflow`] where `buf` holds no such message.
pub fn payload<'a>(buf: &'a [u8], msg_len: usize) -> (pldm: Result<&'a [u8], PldmServiceError>)
    ensures
        0 < msg_len <= buf@.len() ==> (pldm matches Ok(p) && p@ == pldm_part(
            buf@.take(msg_len as int),
        )),
        !(0 < msg_len <= buf@.len()) ==> pldm == Err::<&'a [u8], _>(PldmServiceError::Overflow),
{
    if 0 < msg_len && msg_len <= buf.len() {
        let pldm = slice_subrange(buf, 1, msg_len);
        assert(pldm@ =~= pldm_part(buf@.take(msg_len as int)));
        Ok(pldm)
    } else {
        Err(PldmServiceError::Overflow)
    }
}

/// Frames the `pldm_len` PLDM bytes that stand in `buf[1..]`: writes the framing
/// byte in front of them and returns the length of the message. Where `buf` is
/// too short for them it is left as it was.
pub fn frame_in_place(buf: &mut [u8], pldm_len: usize) -> (msg_len: Result<usize, PldmServiceError>)
    ensures
        pldm_len < old(buf)@.len() ==> {
            &&& msg_len == Ok::<usize, PldmServiceError>((pldm_len + 1) as usize)
            &&& final(buf)@ == old(buf)@.update(0, PLDM_MSG_TYPE)
        },
        pldm_len >= old(buf)@.len() ==> {
            &&& msg_len == Err::<usize, _>(PldmServiceError::Overflow)
            &&& final(buf)@ == old(buf)@
        },
{
    if pldm_len < buf.len() {
        buf[0] = PLDM_MSG_TYPE;
        Ok(pldm_len + 1)
    } else {
        Err(PldmServiceError::Overflow)
    }
}

/// Framing loses nothing: the PLDM bytes of a framed message are the bytes that
/// were framed, and a message that starts with the framing byte is the frame of
/// its PLDM bytes.
pub proof fn law_framing_round_trip(pldm: Seq<u8>, message: Seq<u8>)
    ensures
        pldm_part(frame(pldm)) == pldm,
        frame(pldm).len() == pldm.len() + 1,
        message.len() > 0 && message[0] == PLDM_MSG_TYPE ==> frame(pldm_part(message)) == message,
{
    assert(pldm_part(frame(pldm)) =~= pldm);
    if message.len() > 0 && message[0] == PLDM_MSG_TYPE {
        assert(frame(pldm_part(message)) =~= message);
    }
}

/// Framing in place makes the frame: once the framing byte is written, the
/// message at the start of the buffer is the frame of the bytes behind it.
pub proof fn law_framed_in_place(buf: Seq<u8>, pldm_len: int)
    requires
        0 <= pldm_len < buf.len(),
    ensures
        buf.update(0, PLDM_MSG_TYPE).take(pldm_len + 1) == frame(buf.subrange(1, pldm_len + 1)),
{
    assert(buf.update(0, PLDM_MSG_TYPE).take(pldm_len + 1) =~= frame(
        buf.subrange(1, pldm_len + 1),
    ));
}

/// A message is the byte `0x01` and then its PLDM bytes, in order and all of
/// them; its PLDM bytes are those behind the first.
pub proof fn law_message_layout(pldm: Seq<u8>, message: Seq<u8>)
    ensures
        frame(pldm).len() == pldm.len() + 1,
        frame(pldm)[0] == 0x01,
        forall|k: int| 0 <= k < pldm.len() ==> #[trigger] frame(pldm)[k + 1] == pldm[k],
        message.len() > 0 ==> pldm_part(message).len() == message.len() - 1,
        forall|k: int|
            0 <= k < message.len() - 1 ==> #[trigger] pldm_part(message)[k] == message[k + 1],
{
}

/// The number of PLDM bytes is one less than the number of bytes, and only a
/// message without a framing byte has none to give.
pub proof fn law_pldm_bytes_are_counted(msg_len: usize, len: Result<usize, PldmServiceError>)
    requires
        call_ensures(pldm_len, (msg_len,), len),
    ensures
        msg_len > 0 ==> (len matches Ok(n) && n + 1 == msg_len),
        msg_len == 0 ==> len == Err::<usize, _>(PldmServiceError::Overflow),
{
}

/// A message is taken from a buffer if and only if the buffer holds all of it,
/// and then it is the bytes at the start of the buffer.
pub proof fn law_message_is_the_start_of_the_buffer<'a>(
    buf: &'a [u8],
    pldm_len: usize,
    taken: Result<&'a [u8], PldmServiceError>,
)
    requires
        call_ensures(message, (buf, pldm_len), taken),
    ensures
        pldm_len < buf@.len() ==> (taken matches Ok(bytes) && bytes@.len() == pldm_len + 1
            && forall|k: int| 0 <= k <= pldm_len ==> #[trigger] bytes@[k] == buf@[k]),
        pldm_len >= buf@.len() ==> taken == Err::<&'a [u8], _>(PldmServiceError::Overflow),
{
}

/// The PLDM bytes are taken from a buffer if and only if the buffer holds all of
/// a message with a framing byte, and then they are the bytes behind that byte.
pub proof fn law_payload_stands_behind_the_framing_byte<'a>(
    buf: &'a [u8],
    msg_len: usize,
    taken: Result<&'a [u8], PldmServiceError>,
)
    requires
        call_ensures(payload, (buf, msg_len), taken),
    ensures
        0 < msg_len <= buf@.len() ==> (taken matches Ok(pldm) && pldm@.len() + 1 == msg_len
            && forall|k: int| 0 <= k < msg_len - 1 ==> #[trigger] pldm@[k] == buf@[k + 1]),
        !(0 < msg_len <= buf@.len()) ==> taken == Err::<&'a [u8], _>(PldmServiceError::Overflow),
{
}

/// PLDM bytes are framed in a buffer if and only if they fit behind the framing
/// byte: then that byte, `0x01`, stands in front, every other byte stays, and the
/// message has one byte more. Otherwise nothing changes.
pub proof fn law_framing_writes_one_byte()
    ensures
        forall|buf: &mut [u8], pldm_len: usize, msg_len: Result<usize, PldmServiceError>|
            #[trigger] call_ensures(frame_in_place, (buf, pldm_len), msg_len) ==> {
                &&& final(buf)@.len() == buf@.len()
                &&& forall|k: int| 1 <= k < buf@.len() ==> #[trigger] final(buf)@[k] == buf@[k]
                &&& pldm_len < buf@.len() ==> (msg_len matches Ok(n) && n == pldm_len + 1)
                    && final(buf)@[0] == 0x01
                &&& pldm_len >= buf@.len() ==> final(buf)@ == buf@ && msg_len == Err::<usize, _>(
                    PldmServiceError::Overflow,
                )
            },
{
    assert forall|buf: &[u8]| (#[trigger] buf@).len() <= usize::MAX by {
        assert(buf.len() <= usize::MAX);
    }
}

} // verus!
