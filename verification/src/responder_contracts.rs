//! What each operation of the responder does, in terms of what it is given and
//! what comes of it: the calls that it adds to the record of its channel, the
//! buffer, and the action that it asks for.

use vstd::prelude::*;

#[allow(unused_imports)]
use crate::calls::{CommandCall, CommandChannel};
#[allow(unused_imports)]
use crate::error::PldmServiceError;
use crate::firmware_device::UaFdCmdChannel;
#[allow(unused_imports)]
use crate::responder::{
    HandlerAction, HandlerEvent, PldmResponder, ResponderAction, ResponderEvent,
};

verus! {

/// The firmware device's answer is sent back if and only if the round trip gave
/// one that has its framing byte and fits the buffer: then it stands at the start
/// of the buffer, byte for byte, and what is behind it stays. A round trip that
/// failed stops the service with its error, and an answer of any other length
/// with an overflow; then the buffer stays as it is.
pub proof fn law_every_answer_that_fits_is_sent_back()
    ensures
        forall|
            response: &[u8],
            outcome: Result<usize, PldmServiceError>,
            buf: &mut [u8],
            action: ResponderAction,
        |
            #![trigger call_ensures(
                PldmResponder::after_transact,
                (response, outcome, buf),
                action,
            )]
            {
                &&& call_ensures(PldmResponder::after_transact, (response, outcome, buf), action)
                &&& (outcome matches Ok(n) ==> n <= response@.len())
            } ==> {
                &&& final(buf)@.len() == buf@.len()
                &&& (outcome matches Ok(n) ==> 0 < n <= buf@.len() ==> {
                    &&& action matches ResponderAction::Reply { resp_len }
                    &&& resp_len == n
                    &&& forall|k: int| 0 <= k < n ==> #[trigger] final(buf)@[k] == response@[k]
                    &&& forall|k: int|
                        n <= k < buf@.len() ==> #[trigger] final(buf)@[k] == buf@[k]
                })
                &&& (outcome matches Ok(n) ==> !(0 < n <= buf@.len()) ==> action
                    == ResponderAction::Stop(PldmServiceError::Overflow) && final(buf)@ == buf@)
                &&& (outcome matches Err(e) ==> action == ResponderAction::Stop(e)
                    && final(buf)@ == buf@)
            },
        forall|response: &[u8], outcome: Result<usize, PldmServiceError>, buf: &mut [u8]|
            (outcome matches Ok(n) ==> n <= response@.len()) ==> #[trigger] call_requires(
                PldmResponder::after_transact,
                (response, outcome, buf),
            ),
{
}

/// A received message is forwarded if and only if it fits the buffer behind the
/// framing byte, once, whatever its length and whatever the timeout: the framing
/// byte `0x01` and then the bytes that were received, with a response buffer of
/// 1024 zeros. There is no other call.
pub proof fn law_every_message_that_fits_is_forwarded<'a, U: UaFdCmdChannel>()
    ensures
        forall|
            responder: &mut PldmResponder,
            event: ResponderEvent,
            channel: &mut CommandChannel<'a, U>,
            buf: &mut [u8],
            timeout_millis: u32,
            action: ResponderAction,
        | #[trigger]
            call_ensures(
                PldmResponder::run_responder::<U>,
                (responder, event, channel, buf, timeout_millis),
                action,
            ) ==> {
                let n = channel.calls().len() as int;
                let calls = final(channel).calls();
                let forwards = (event matches ResponderEvent::Received(Ok(m)) && m < buf@.len());
                &&& forall|k: int| 0 <= k < n ==> #[trigger] calls[k] == channel.calls()[k]
                &&& final(channel).fd_req() == channel.fd_req()
                &&& final(buf)@.len() == buf@.len()
                &&& calls.len() == n + if forwards {
                    1int
                } else {
                    0
                }
                &&& !forwards ==> final(buf)@ == buf@
                &&& (event matches ResponderEvent::Received(Ok(m)) ==> m < buf@.len() ==> {
                    let call = calls[n];
                    &&& call.request.len() == m + 1
                    &&& call.request[0] == 0x01
                    &&& forall|k: int| 1 <= k <= m ==> #[trigger] call.request[k] == buf@[k]
                    &&& call.before.len() == 1024
                    &&& forall|k: int| 0 <= k < 1024 ==> #[trigger] call.before[k] == 0
                    &&& channel.fd_req().may_transact(
                        call.request,
                        call.before,
                        call.after,
                        call.outcome,
                    )
                })
            },
{
}

/// What the responder asks for. A reply is asked for if and only if the firmware
/// device gave an answer in this step that has its framing byte and fits the
/// buffer: all of that answer, which then stands at the start of the buffer. A
/// message is received if and only if the handling begins and the buffer has room
/// for the framing byte, with the timeout that was asked for. The message is done
/// if and only if the reply was sent. The service stops if and only if the
/// transport or the round trip failed, with its error, or a length does not fit
/// the buffer, with an overflow.
pub proof fn law_responder_replies_with_the_devices_answer<'a, U: UaFdCmdChannel>()
    ensures
        forall|
            responder: &mut PldmResponder,
            event: ResponderEvent,
            channel: &mut CommandChannel<'a, U>,
            buf: &mut [u8],
            timeout_millis: u32,
            action: ResponderAction,
        | #[trigger]
            call_ensures(
                PldmResponder::run_responder::<U>,
                (responder, event, channel, buf, timeout_millis),
                action,
            ) ==> {
                let called = final(channel).calls().len() > channel.calls().len();
                let call = final(channel).calls().last();
                let answered = called && (call.outcome matches Ok(n) && 0 < n <= buf@.len());
                let resp_len = call.outcome->Ok_0;
                &&& answered ==> action == (ResponderAction::Reply { resp_len })
                &&& action is Reply ==> answered
                &&& answered ==> forall|k: int|
                    0 <= k < resp_len ==> #[trigger] final(buf)@[k] == call.after[k]
                &&& answered ==> forall|k: int|
                    resp_len <= k < buf@.len() ==> #[trigger] final(buf)@[k] == buf@[k]
                &&& called && !answered ==> final(buf)@[0] == 0x01 && forall|k: int|
                    1 <= k < buf@.len() ==> #[trigger] final(buf)@[k] == buf@[k]
                &&& called && !answered && call.outcome is Ok ==> action == ResponderAction::Stop(
                    PldmServiceError::Overflow,
                )
                &&& called ==> (call.outcome matches Err(e) ==> action == ResponderAction::Stop(e))
                &&& event is Start && buf@.len() > 0 ==> action == (ResponderAction::Receive {
                    timeout_millis,
                })
                &&& action is Receive ==> event is Start
                &&& event is Start && buf@.len() == 0 ==> action == ResponderAction::Stop(
                    PldmServiceError::Overflow,
                )
                &&& action is Done <==> (event matches ResponderEvent::Replied(Ok(_)))
                &&& (event matches ResponderEvent::Received(Ok(m)) && m >= buf@.len() ==> action
                    == ResponderAction::Stop(PldmServiceError::Overflow))
                &&& (event matches ResponderEvent::Received(Err(e)) ==> action
                    == ResponderAction::Stop(e))
                &&& (event matches ResponderEvent::Replied(Err(e)) ==> action
                    == ResponderAction::Stop(e))
            },
{
}

/// The response of a handler is sent back if and only if it has its framing byte
/// and fits the buffer: all of it. A handler that failed stops the service with
/// its error, and a response of any other length with an overflow.
pub proof fn law_every_handled_response_that_fits_is_sent_back(
    handled: Result<usize, PldmServiceError>,
    buf_len: usize,
    action: HandlerAction,
)
    requires
        call_ensures(PldmResponder::after_handler, (handled, buf_len), action),
    ensures
        handled matches Ok(n) ==> 0 < n <= buf_len ==> (action matches HandlerAction::Reply {
            resp_len,
        } && resp_len == n),
        handled matches Ok(n) ==> !(0 < n <= buf_len) ==> action == HandlerAction::Stop(
            PldmServiceError::Overflow,
        ),
        handled matches Err(e) ==> action == HandlerAction::Stop(e),
{
}

/// With a handler, a received message is handed to it if and only if it fits the
/// buffer behind the framing byte: with that byte, `0x01`, in front and all of
/// its bytes as they were received. At any other event the buffer stays as it is.
pub proof fn law_every_message_that_fits_is_handled()
    ensures
        forall|
            responder: &mut PldmResponder,
            event: HandlerEvent,
            buf: &mut [u8],
            timeout_millis: u32,
            action: HandlerAction,
        | #[trigger]
            call_ensures(
                PldmResponder::run_handler,
                (responder, event, buf, timeout_millis),
                action,
            ) ==> {
                let fits = (event matches HandlerEvent::Received(Ok(n)) && n < buf@.len());
                &&& (event matches HandlerEvent::Received(Ok(n)) ==> n < buf@.len() ==> (
                action matches HandlerAction::Handle { msg_len } && msg_len == n + 1))
                &&& action is Handle ==> fits
                &&& fits ==> final(buf)@[0] == 0x01
                &&& final(buf)@.len() == buf@.len()
                &&& forall|k: int| 1 <= k < buf@.len() ==> #[trigger] final(buf)@[k] == buf@[k]
                &&& !fits ==> final(buf)@ == buf@
            },
{
    assert forall|buf: &[u8]| (#[trigger] buf@).len() <= usize::MAX by {
        assert(buf.len() <= usize::MAX);
    }
}

/// What the responder asks for with a handler, beside the handling. A reply is
/// asked for if and only if the handler left a response that has its framing byte
/// and fits the buffer: all of it. A message is received if and only if the
/// handling begins and the buffer has room for the framing byte, with the timeout
/// that was asked for. The message is done if and only if the reply was sent. The
/// service stops if and only if the transport or the handler failed, with its
/// error, or a length does not fit the buffer, with an overflow.
pub proof fn law_responder_replies_with_the_handlers_response()
    ensures
        forall|
            responder: &mut PldmResponder,
            event: HandlerEvent,
            buf: &mut [u8],
            timeout_millis: u32,
            action: HandlerAction,
        | #[trigger]
            call_ensures(
                PldmResponder::run_handler,
                (responder, event, buf, timeout_millis),
                action,
            ) ==> {
                let overflow = HandlerAction::Stop(PldmServiceError::Overflow);
                &&& (event matches HandlerEvent::Handled(Ok(n)) ==> 0 < n <= buf@.len() ==> (
                action matches HandlerAction::Reply { resp_len } && resp_len == n))
                &&& action is Reply ==> (event matches HandlerEvent::Handled(Ok(n)) && 0 < n
                    <= buf@.len())
                &&& (event matches HandlerEvent::Handled(Ok(n)) && !(0 < n <= buf@.len())
                    ==> action == overflow)
                &&& (event matches HandlerEvent::Handled(Err(e)) ==> action == HandlerAction::Stop(
                    e,
                ))
                &&& event is Start && buf@.len() > 0 ==> action == (HandlerAction::Receive {
                    timeout_millis,
                })
                &&& event is Start && buf@.len() == 0 ==> action == overflow
                &&& action is Receive ==> event is Start
                &&& action is Done <==> (event matches HandlerEvent::Replied(Ok(_)))
                &&& (event matches HandlerEvent::Received(Ok(n)) && n >= buf@.len() ==> action
                    == overflow)
                &&& (event matches HandlerEvent::Received(Err(e)) ==> action
                    == HandlerAction::Stop(e))
                &&& (event matches HandlerEvent::Replied(Err(e)) ==> action == HandlerAction::Stop(
                    e,
                ))
            },
{
}

/// The responder takes every event, with every buffer.
pub proof fn law_responder_takes_every_event<'a, U: UaFdCmdChannel>()
    ensures
        forall|
            responder: &mut PldmResponder,
            event: ResponderEvent,
            channel: &mut CommandChannel<'a, U>,
            buf: &mut [u8],
            timeout_millis: u32,
        | #[trigger]
            call_requires(
                PldmResponder::run_responder::<U>,
                (responder, event, channel, buf, timeout_millis),
            ),
        forall|
            responder: &mut PldmResponder,
            event: HandlerEvent,
            buf: &mut [u8],
            timeout_millis: u32,
        | #[trigger]
            call_requires(PldmResponder::run_handler, (responder, event, buf, timeout_millis)),
{
}

} // verus!
