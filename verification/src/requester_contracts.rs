//! What each operation of the requester does, in terms of what it is given and
//! what comes of it: the calls that it adds to the record of its channel, the
//! buffer, the requester itself, and the action that it asks for.

use vstd::prelude::*;

#[allow(unused_imports)]
use crate::calls::{RequestCall, RequestChannel};
#[allow(unused_imports)]
use crate::error::PldmServiceError;
use crate::firmware_device::UaFdRspChannel;
#[allow(unused_imports)]
use crate::requester::{
    CommandAction, CommandEvent, PldmRequester, PldmRequesterCommand, RequesterAction,
    RequesterEvent,
};

verus! {

/// A receive decides: a request is exchanged with the endpoint and the timeout
/// that were asked for, all of it but the framing byte; one without a framing
/// byte is an overflow; and a failure stops the service with its error.
pub proof fn law_received_request_is_exchanged_whole(
    received: Result<usize, PldmServiceError>,
    remote_eid: u8,
    timeout_millis: u32,
    action: RequesterAction,
)
    requires
        call_ensures(PldmRequester::after_recv, (received, remote_eid, timeout_millis), action),
    ensures
        received matches Ok(n) ==> n > 0 ==> (action matches RequesterAction::Exchange {
            remote_eid: to,
            pldm_len,
            timeout_millis: limit,
        } && to == remote_eid && pldm_len + 1 == n && limit == timeout_millis),
        received == Ok::<usize, PldmServiceError>(0) ==> action == RequesterAction::Stop(
            PldmServiceError::Overflow,
        ),
        received matches Err(e) ==> action == RequesterAction::Stop(e),
{
}

/// Which calls a step of forwarding makes. A response is sent if and only if an
/// exchange gave one that fits the buffer behind the framing byte; it is the
/// buffer up to the end of that response. A request is received if and only if
/// forwarding begins or the response was sent without an error, and after it,
/// into the whole buffer. There is no other call, and each is one that the
/// channel allows.
pub proof fn law_requester_calls_follow_the_event<'a, R: UaFdRspChannel>()
    ensures
        forall|
            requester: &mut PldmRequester,
            channel: &mut RequestChannel<'a, R>,
            event: RequesterEvent,
            remote_eid: u8,
            buf: &mut [u8],
            timeout_millis: u32,
            action: RequesterAction,
        | #[trigger]
            call_ensures(
                PldmRequester::run_requester::<R>,
                (requester, channel, event, remote_eid, buf, timeout_millis),
                action,
            ) ==> {
                let n = channel.calls().len() as int;
                let calls = final(channel).calls();
                let delivers = (event matches RequesterEvent::Exchanged(Ok(m)) && m < buf@.len());
                let delivered = delivers && (calls[n] matches RequestCall::Respond {
                    message,
                    outcome: Ok(_),
                });
                &&& forall|k: int| 0 <= k < n ==> #[trigger] calls[k] == channel.calls()[k]
                &&& final(channel).fd_req() == channel.fd_req()
                &&& final(buf)@.len() == buf@.len()
                &&& calls.len() == n + if delivered {
                    2int
                } else if delivers || event is Start {
                    1
                } else {
                    0
                }
                &&& (event matches RequesterEvent::Exchanged(Ok(m)) ==> m < buf@.len() ==> (
                calls[n] matches RequestCall::Respond { message, outcome } && message.len() == m + 1
                    && (forall|k: int| 0 <= k <= m ==> #[trigger] message[k] == buf@[k])
                    && channel.fd_req().may_respond(message, outcome)))
                &&& event is Start || delivered ==> (calls.last() matches RequestCall::Recv {
                    before,
                    after,
                    outcome,
                } && before == buf@ && after == final(buf)@ && channel.fd_req().may_recv(
                    before,
                    after,
                    outcome,
                ))
                &&& !(event is Start || delivered) ==> final(buf)@ == buf@
            },
{
}

/// What a step of forwarding asks for. A request is exchanged if and only if one
/// was received that has its framing byte, all of it but that byte, with the
/// endpoint and the timeout that were asked for. The service stops if and only if
/// a call or the exchange failed, with that error, or a length does not fit, with
/// an overflow.
pub proof fn law_requester_action_follows_the_calls<'a, R: UaFdRspChannel>()
    ensures
        forall|
            requester: &mut PldmRequester,
            channel: &mut RequestChannel<'a, R>,
            event: RequesterEvent,
            remote_eid: u8,
            buf: &mut [u8],
            timeout_millis: u32,
            action: RequesterAction,
        | #[trigger]
            call_ensures(
                PldmRequester::run_requester::<R>,
                (requester, channel, event, remote_eid, buf, timeout_millis),
                action,
            ) ==> {
                let calls = final(channel).calls();
                let called = calls.len() > channel.calls().len();
                &&& called && (calls.last() matches RequestCall::Recv {
                    before,
                    after,
                    outcome: Ok(m),
                } && m > 0) ==> (action matches RequesterAction::Exchange {
                    remote_eid: to,
                    pldm_len,
                    timeout_millis: limit,
                } && to == remote_eid && pldm_len + 1 == calls.last()->Recv_outcome->Ok_0 && limit
                    == timeout_millis)
                &&& action is Exchange ==> called && (calls.last() matches RequestCall::Recv {
                    before,
                    after,
                    outcome: Ok(m),
                } && m > 0)
                &&& called && (calls.last() matches RequestCall::Recv { before, after, outcome }
                    && outcome == Ok::<usize, PldmServiceError>(0)) ==> action
                    == RequesterAction::Stop(PldmServiceError::Overflow)
                &&& called ==> (calls.last() matches RequestCall::Recv {
                    before,
                    after,
                    outcome: Err(e),
                } ==> action == RequesterAction::Stop(e))
                &&& called ==> (calls.last() matches RequestCall::Respond {
                    message,
                    outcome: Err(e),
                } ==> action == RequesterAction::Stop(e))
                &&& (event matches RequesterEvent::Exchanged(Err(e)) ==> !called && action
                    == RequesterAction::Stop(e))
                &&& (event matches RequesterEvent::Exchanged(Ok(m)) && m >= buf@.len() ==> !called
                    && action == RequesterAction::Stop(PldmServiceError::Overflow))
            },
{
}

/// The instance ID moves on by one, from 255 to 0, with each response that is
/// delivered while forwarding, and with nothing else; what is queued stays queued.
pub proof fn law_forwarding_moves_the_instance_id<'a, R: UaFdRspChannel>()
    ensures
        forall|
            requester: &mut PldmRequester,
            channel: &mut RequestChannel<'a, R>,
            event: RequesterEvent,
            remote_eid: u8,
            buf: &mut [u8],
            timeout_millis: u32,
            action: RequesterAction,
        | #[trigger]
            call_ensures(
                PldmRequester::run_requester::<R>,
                (requester, channel, event, remote_eid, buf, timeout_millis),
                action,
            ) ==> {
                let n = channel.calls().len() as int;
                let calls = final(channel).calls();
                let id = requester.next_instance_id() as int;
                let delivered = calls.len() > n && (calls[n] matches RequestCall::Respond {
                    message,
                    outcome: Ok(_),
                });
                &&& final(requester).pending() == requester.pending()
                &&& !delivered ==> final(requester).next_instance_id() == id
                &&& delivered && id < 255 ==> final(requester).next_instance_id() == id + 1
                &&& delivered && id == 255 ==> final(requester).next_instance_id() == 0
            },
{
}

/// A requester starts with nothing queued and the instance ID 0. Queuing a
/// command makes it the one that is sent next and leaves the instance ID.
pub proof fn law_queued_command_is_pending(requester: PldmRequester)
    requires
        call_ensures(PldmRequester::new, (), requester),
    ensures
        requester.pending() is None,
        requester.next_instance_id() == 0,
        forall|queued: &mut PldmRequester| #[trigger]
            call_ensures(PldmRequester::queue_get_tid, (queued,), ()) ==> {
                &&& final(queued).pending() == Some(PldmRequesterCommand::GetTid)
                &&& final(queued).next_instance_id() == queued.next_instance_id()
            },
{
}

/// What sending a queued command asks for. The request is written if and only if
/// the sending begins and a command is pending: that command, with the instance
/// ID of the requester. It is exchanged if and only if it has been written: all
/// the bytes that were written, with the endpoint and the timeout that were asked
/// for. The response is validated if and only if the exchange gave one, all of it.
/// Nothing is left to do if and only if nothing was pending or the response was
/// valid. The service stops if and only if one of these failed, with its error.
pub proof fn law_queued_command_is_sent_as_asked()
    ensures
        forall|
            requester: &mut PldmRequester,
            event: CommandEvent,
            remote_eid: u8,
            timeout_millis: u32,
            action: CommandAction,
        | #[trigger]
            call_ensures(
                PldmRequester::run_once,
                (requester, event, remote_eid, timeout_millis),
                action,
            ) ==> {
                &&& event is Start && requester.pending() is Some ==> (
                action matches CommandAction::Encode { command, instance_id } && Some(command)
                    == requester.pending() && instance_id == requester.next_instance_id())
                &&& action is Encode ==> event is Start && requester.pending() is Some
                &&& (event matches CommandEvent::Encoded(Ok(n)) ==> (
                action matches CommandAction::Exchange {
                    remote_eid: to,
                    pldm_len,
                    timeout_millis: limit,
                } && to == remote_eid && pldm_len == n && limit == timeout_millis))
                &&& action is Exchange ==> (event matches CommandEvent::Encoded(Ok(n)))
                &&& (event matches CommandEvent::Exchanged(Ok(n)) ==> (
                action matches CommandAction::Validate { pldm_resp_len } && pldm_resp_len == n))
                &&& action is Validate ==> (event matches CommandEvent::Exchanged(Ok(n)))
                &&& action is Done <==> (event is Start && requester.pending() is None) || (
                event matches CommandEvent::Validated(Ok(_)))
                &&& (event matches CommandEvent::Encoded(Err(e)) ==> action == CommandAction::Stop(
                    e,
                ))
                &&& (event matches CommandEvent::Exchanged(Err(e)) ==> action
                    == CommandAction::Stop(e))
                &&& (event matches CommandEvent::Validated(Err(e)) ==> action
                    == CommandAction::Stop(e))
            },
{
}

/// A queued command stays pending, and its instance ID stays, until its response
/// is found valid; then nothing is pending and the instance ID moves on by one,
/// from 255 to 0.
pub proof fn law_queued_command_is_pending_until_valid()
    ensures
        forall|
            requester: &mut PldmRequester,
            event: CommandEvent,
            remote_eid: u8,
            timeout_millis: u32,
            action: CommandAction,
        | #[trigger]
            call_ensures(
                PldmRequester::run_once,
                (requester, event, remote_eid, timeout_millis),
                action,
            ) ==> {
                let id = requester.next_instance_id() as int;
                let valid = (event matches CommandEvent::Validated(Ok(_)));
                &&& valid ==> final(requester).pending() is None
                &&& valid && id < 255 ==> final(requester).next_instance_id() == id + 1
                &&& valid && id == 255 ==> final(requester).next_instance_id() == 0
                &&& !valid ==> final(requester).pending() == requester.pending()
                &&& !valid ==> final(requester).next_instance_id() == id
            },
{
}

/// The requester takes every event, in every state and with every buffer.
pub proof fn law_requester_takes_every_event<'a, R: UaFdRspChannel>()
    ensures
        forall|
            requester: &mut PldmRequester,
            channel: &mut RequestChannel<'a, R>,
            event: RequesterEvent,
            remote_eid: u8,
            buf: &mut [u8],
            timeout_millis: u32,
        | #[trigger]
            call_requires(
                PldmRequester::run_requester::<R>,
                (requester, channel, event, remote_eid, buf, timeout_millis),
            ),
        forall|
            requester: &mut PldmRequester,
            event: CommandEvent,
            remote_eid: u8,
            timeout_millis: u32,
        | #[trigger]
            call_requires(PldmRequester::run_once, (requester, event, remote_eid, timeout_millis)),
        forall|requester: &mut PldmRequester| #[trigger]
            call_requires(PldmRequester::queue_get_tid, (requester,)),
{
}

} // verus!
