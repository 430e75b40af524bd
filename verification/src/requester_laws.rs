//! What holds of every run in which the requester forwards requests, over the
//! calls that it makes on its channel and the exchanges that it asks for, and of
//! the commands that are queued with it.

use vstd::prelude::*;

#[allow(unused_imports)]
use crate::calls::{RequestCall, RequestChannel};
#[allow(unused_imports)]
use crate::error::PldmServiceError;
use crate::firmware_device::UaFdRspChannel;
#[allow(unused_imports)]
use crate::requester::{
    CommandEvent, PldmRequester, RequesterAction, RequesterEvent, RequesterStep,
};

verus! {

/// Step `i` of a run. Its event begins the run or answers the exchange that the
/// step before asked for, which may have written to the buffer.
pub open spec fn requester_turn<R: UaFdRspChannel>(
    fd_req: &R,
    remote_eid: u8,
    timeout_millis: u32,
    steps: Seq<RequesterStep>,
    i: int,
) -> bool {
    &&& steps[i].is_step_over(fd_req, remote_eid, timeout_millis)
    &&& if i == 0 {
        steps[i].event is Start
    } else {
        &&& steps[i - 1].action is Exchange
        &&& steps[i].event is Exchanged
        &&& steps[i].before.len() == steps[i - 1].after.len()
    }
}

/// A run in which requests are forwarded, from its beginning to any point.
pub open spec fn requester_conversation<R: UaFdRspChannel>(
    fd_req: &R,
    remote_eid: u8,
    timeout_millis: u32,
    steps: Seq<RequesterStep>,
) -> bool {
    forall|i: int|
        0 <= i < steps.len() ==> #[trigger] requester_turn(
            fd_req,
            remote_eid,
            timeout_millis,
            steps,
            i,
        )
}

/// What the requester does towards the outside: a call on its channel, or an
/// exchange that it asks the transport for.
pub enum Deed {
    Call(RequestCall),
    Exchange { remote_eid: u8, pldm_len: usize, timeout_millis: u32 },
}

/// The deeds of one step, in order.
pub open spec fn deeds_of(step: RequesterStep) -> Seq<Deed> {
    step.calls.map_values(|call: RequestCall| Deed::Call(call)) + match step.action {
        RequesterAction::Exchange { remote_eid, pldm_len, timeout_millis } => seq![
            Deed::Exchange { remote_eid, pldm_len, timeout_millis },
        ],
        RequesterAction::Stop(_) => Seq::<Deed>::empty(),
    }
}

/// Every deed of a run, in order.
pub open spec fn requester_deeds(steps: Seq<RequesterStep>) -> Seq<Deed>
    decreases steps.len(),
{
    if steps.len() == 0 {
        Seq::empty()
    } else {
        requester_deeds(steps.drop_last()) + deeds_of(steps.last())
    }
}

/// Receive, exchange and respond strictly take turns: the first deed receives a
/// request, an exchange follows each receive, a response each exchange and a
/// receive each response, and there is no other deed. Each receive is given the
/// whole buffer. Each exchange goes to the endpoint and has the timeout that
/// were asked for.
pub proof fn law_receive_exchange_respond_take_turns<R: UaFdRspChannel>(
    fd_req: &R,
    remote_eid: u8,
    timeout_millis: u32,
    steps: Seq<RequesterStep>,
)
    requires
        requester_conversation(fd_req, remote_eid, timeout_millis, steps),
    ensures
        forall|k: int|
            0 <= k < requester_deeds(steps).len() ==> match #[trigger] requester_deeds(steps)[k] {
                Deed::Call(RequestCall::Recv { before, after, outcome }) => {
                    &&& k % 3 == 0
                    &&& before.len() == steps[0].before.len()
                },
                Deed::Exchange { remote_eid: to, pldm_len, timeout_millis: limit } => {
                    &&& k % 3 == 1
                    &&& to == remote_eid
                    &&& limit == timeout_millis
                },
                Deed::Call(RequestCall::Respond { message, outcome }) => k % 3 == 2,
            },
        steps.len() > 0 && steps.last().action is Exchange ==> requester_deeds(steps).len() % 3
            == 2,
        steps.len() > 0 ==> steps.last().after.len() == steps[0].before.len(),
    decreases steps.len(),
{
    if steps.len() > 0 {
        let last = steps.len() - 1;
        let earlier = steps.drop_last();
        assert forall|i: int| 0 <= i < earlier.len() implies #[trigger] requester_turn(
            fd_req,
            remote_eid,
            timeout_millis,
            earlier,
            i,
        ) by {
            assert(requester_turn(fd_req, remote_eid, timeout_millis, steps, i));
        }
        law_receive_exchange_respond_take_turns(fd_req, remote_eid, timeout_millis, earlier);
        assert(requester_turn(fd_req, remote_eid, timeout_millis, steps, last));
        if steps.len() > 1 {
            assert(earlier.last() == steps[last - 1]);
            assert(earlier[0] == steps[0]);
        }
        let done = requester_deeds(earlier);
        let new = deeds_of(steps.last());
        assert forall|k: int| 0 <= k < requester_deeds(steps).len() implies match #[trigger]
        requester_deeds(steps)[k] {
            Deed::Call(RequestCall::Recv { before, after, outcome }) => {
                &&& k % 3 == 0
                &&& before.len() == steps[0].before.len()
            },
            Deed::Exchange { remote_eid: to, pldm_len, timeout_millis: limit } => {
                &&& k % 3 == 1
                &&& to == remote_eid
                &&& limit == timeout_millis
            },
            Deed::Call(RequestCall::Respond { message, outcome }) => k % 3 == 2,
        } by {
            if k < done.len() {
                assert(requester_deeds(steps)[k] == done[k]);
            } else {
                assert(requester_deeds(steps)[k] == new[k - done.len()]);
            }
        }
    }
}

/// Forwarding ends with the first failure: after a call or an exchange that
/// failed nothing is called, and the service stops with that very error. A
/// response that does not fit the buffer, or a request without its framing byte,
/// stops it with an overflow in the same way. It stops for no other reason.
pub proof fn law_forwarding_ends_with_its_first_failure<R: UaFdRspChannel>(
    fd_req: &R,
    remote_eid: u8,
    timeout_millis: u32,
    steps: Seq<RequesterStep>,
    i: int,
)
    requires
        requester_conversation(fd_req, remote_eid, timeout_millis, steps),
        0 <= i < steps.len(),
    ensures
        forall|k: int|
            0 <= k < steps[i].calls.len() && (#[trigger] steps[i].calls[k]).failure() is Some ==> {
                &&& i == steps.len() - 1
                &&& k == steps[i].calls.len() - 1
                &&& steps[i].action == RequesterAction::Stop(steps[i].calls[k].failure()->0)
            },
        steps[i].event matches RequesterEvent::Exchanged(Err(e)) ==> {
            &&& i == steps.len() - 1
            &&& steps[i].calls.len() == 0
            &&& steps[i].action == RequesterAction::Stop(e)
        },
        response_does_not_fit(steps[i]) ==> {
            &&& i == steps.len() - 1
            &&& steps[i].calls.len() == 0
            &&& steps[i].action == RequesterAction::Stop(PldmServiceError::Overflow)
        },
        receives_empty_request(steps[i]) ==> {
            &&& i == steps.len() - 1
            &&& steps[i].action == RequesterAction::Stop(PldmServiceError::Overflow)
        },
        steps[i].action is Stop ==> {
            ||| steps[i].event matches RequesterEvent::Exchanged(Err(_))
            ||| response_does_not_fit(steps[i])
            ||| receives_empty_request(steps[i])
            ||| steps[i].calls.len() > 0 && steps[i].calls.last().failure() is Some
        },
{
    assert(requester_turn(fd_req, remote_eid, timeout_millis, steps, i));
    if i + 1 < steps.len() {
        assert(requester_turn(fd_req, remote_eid, timeout_millis, steps, i + 1));
    }
}

/// Whether the response that the step was handed is too long for the buffer.
pub open spec fn response_does_not_fit(step: RequesterStep) -> bool {
    step.event matches RequesterEvent::Exchanged(Ok(pldm_resp_len)) && pldm_resp_len
        >= step.before.len()
}

/// Whether the step received a request without a framing byte.
pub open spec fn receives_empty_request(step: RequesterStep) -> bool {
    &&& step.calls.len() > 0
    &&& step.calls.last() matches RequestCall::Recv { before, after, outcome }
    &&& outcome == Ok::<usize, PldmServiceError>(0)
}

/// In each round the request that was received is exchanged, all of its PLDM
/// bytes and no others, and the buffer up to the end of the PLDM response is sent
/// back, once. Where the transport left the framing byte in front of the
/// response, what is sent back is the frame of the response. Step `i` is handed
/// the response to the request of the step before.
pub proof fn law_request_and_response_pass_through<R: UaFdRspChannel>(
    fd_req: &R,
    remote_eid: u8,
    timeout_millis: u32,
    steps: Seq<RequesterStep>,
    i: int,
    pldm_resp_len: usize,
)
    requires
        requester_conversation(fd_req, remote_eid, timeout_millis, steps),
        0 < i < steps.len(),
        steps[i].event == RequesterEvent::Exchanged(Ok(pldm_resp_len)),
        pldm_resp_len < steps[i].before.len(),
    ensures
        steps[i - 1].calls.len() > 0,
        steps[i - 1].calls.last() matches RequestCall::Recv { before, after, outcome: Ok(msg_len) }
            && 0 < msg_len <= after.len() && after == steps[i - 1].after && steps[i - 1].action == (
        RequesterAction::Exchange {
            remote_eid,
            pldm_len: (msg_len - 1) as usize,
            timeout_millis,
        }) && after.subrange(1, msg_len as int) == crate::frame::pldm_part(
            after.take(msg_len as int),
        ),
        steps[i].calls.len() > 0,
        steps[i].calls[0] matches RequestCall::Respond { message, outcome } && message
            == steps[i].before.take(pldm_resp_len + 1) && (steps[i].before[0]
            == crate::responder::PLDM_MSG_TYPE ==> message == crate::frame::frame(
            steps[i].before.subrange(1, pldm_resp_len + 1),
        )),
        steps[i].calls.len() > 1 ==> steps[i].calls.len() == 2 && steps[i].calls[1] is Recv,
{
    assert(requester_turn(fd_req, remote_eid, timeout_millis, steps, i - 1));
    assert(requester_turn(fd_req, remote_eid, timeout_millis, steps, i));
    let received = steps[i - 1];
    assert(received.calls.last().allowed(fd_req));
    let msg_len = received.calls.last()->Recv_outcome->Ok_0;
    assert(received.after.subrange(1, msg_len as int) =~= crate::frame::pldm_part(
        received.after.take(msg_len as int),
    ));
    let buf = steps[i].before;
    if buf[0] == crate::responder::PLDM_MSG_TYPE {
        assert(buf.take(pldm_resp_len + 1) =~= crate::frame::frame(
            buf.subrange(1, pldm_resp_len + 1),
        ));
    }
}

/// Every call of the steps, in order.
pub open spec fn requester_calls(steps: Seq<RequesterStep>) -> Seq<RequestCall>
    decreases steps.len(),
{
    if steps.len() == 0 {
        Seq::empty()
    } else {
        requester_calls(steps.drop_last()) + steps.last().calls
    }
}

/// Step `i` is the one that took the channel from `channels[i]` to
/// `channels[i + 1]`.
pub open spec fn requester_recorded<'a, R: UaFdRspChannel>(
    channels: Seq<RequestChannel<'a, R>>,
    steps: Seq<RequesterStep>,
    i: int,
) -> bool {
    &&& channels[i + 1].follows(&channels[i])
    &&& steps[i].calls == channels[i + 1].since(&channels[i])
}

/// The calls of the steps are all the calls on record: what the channel has on
/// record after the steps is what it had before and then the calls of the steps,
/// and nothing else.
pub proof fn law_steps_hold_every_call<'a, R: UaFdRspChannel>(
    channels: Seq<RequestChannel<'a, R>>,
    steps: Seq<RequesterStep>,
)
    requires
        channels.len() == steps.len() + 1,
        forall|i: int| 0 <= i < steps.len() ==> #[trigger] requester_recorded(channels, steps, i),
    ensures
        channels.last().calls() == channels[0].calls() + requester_calls(steps),
    decreases steps.len(),
{
    if steps.len() == 0 {
        assert(channels[0].calls() =~= channels[0].calls() + requester_calls(steps));
    } else {
        let last = steps.len() - 1;
        let earlier = channels.drop_last();
        assert forall|i: int|
            0 <= i < steps.drop_last().len() implies #[trigger] requester_recorded(
            earlier,
            steps.drop_last(),
            i,
        ) by {
            assert(requester_recorded(channels, steps, i));
        }
        law_steps_hold_every_call(earlier, steps.drop_last());
        assert(requester_recorded(channels, steps, last));
        assert(channels.last().calls() =~= channels[0].calls() + requester_calls(steps));
    }
}

/// The number of exchanges that the steps complete.
pub open spec fn completed_exchanges(steps: Seq<RequesterStep>) -> nat
    decreases steps.len(),
{
    if steps.len() == 0 {
        0
    } else {
        completed_exchanges(steps.drop_last()) + if crate::requester::completes_exchange(
            steps.last().calls,
        ) {
            1nat
        } else {
            0nat
        }
    }
}

/// Step `i` is the one that took the requester from `requesters[i]` to
/// `requesters[i + 1]`.
pub open spec fn requester_moved(
    requesters: Seq<PldmRequester>,
    steps: Seq<RequesterStep>,
    i: int,
) -> bool {
    requesters[i].moves_on(steps[i].calls, &requesters[i + 1])
}

/// After a run that completed `k` exchanges the instance ID has moved on `k`
/// times, with wraparound, and what was queued still is.
pub proof fn law_each_completed_exchange_moves_the_instance_id(
    requesters: Seq<PldmRequester>,
    steps: Seq<RequesterStep>,
)
    requires
        requesters.len() == steps.len() + 1,
        forall|i: int| 0 <= i < steps.len() ==> #[trigger] requester_moved(requesters, steps, i),
    ensures
        requesters.last().next_instance_id() == (requesters[0].next_instance_id()
            + completed_exchanges(steps)) % 256,
        requesters.last().pending() == requesters[0].pending(),
    decreases steps.len(),
{
    if steps.len() > 0 {
        let last = steps.len() - 1;
        let earlier = requesters.drop_last();
        assert forall|i: int| 0 <= i < steps.drop_last().len() implies #[trigger] requester_moved(
            earlier,
            steps.drop_last(),
            i,
        ) by {
            assert(requester_moved(requesters, steps, i));
        }
        law_each_completed_exchange_moves_the_instance_id(earlier, steps.drop_last());
        assert(requester_moved(requesters, steps, last));
    }
}

/// A run that goes on has completed one exchange in each step but the first: that
/// of every round but the one under way.
pub proof fn law_each_round_completes_an_exchange<R: UaFdRspChannel>(
    fd_req: &R,
    remote_eid: u8,
    timeout_millis: u32,
    steps: Seq<RequesterStep>,
)
    requires
        requester_conversation(fd_req, remote_eid, timeout_millis, steps),
        steps.len() > 0,
        steps.last().action is Exchange,
    ensures
        completed_exchanges(steps) == steps.len() - 1,
    decreases steps.len(),
{
    let last = steps.len() - 1;
    let earlier = steps.drop_last();
    assert(requester_turn(fd_req, remote_eid, timeout_millis, steps, last));
    if last > 0 {
        assert forall|i: int| 0 <= i < earlier.len() implies #[trigger] requester_turn(
            fd_req,
            remote_eid,
            timeout_millis,
            earlier,
            i,
        ) by {
            assert(requester_turn(fd_req, remote_eid, timeout_millis, steps, i));
        }
        assert(earlier.last() == steps[last - 1]);
        law_each_round_completes_an_exchange(fd_req, remote_eid, timeout_millis, earlier);
    } else {
        assert(completed_exchanges(earlier) == 0);
    }
}

/// Successive requests have distinct instance IDs, also in the five bits that a
/// PLDM header has for them: a step that completes an exchange takes the
/// requester from one ID to another.
pub proof fn law_completed_exchange_gives_another_instance_id(
    before: PldmRequester,
    calls: Seq<RequestCall>,
    after: PldmRequester,
)
    requires
        before.moves_on(calls, &after),
        crate::requester::completes_exchange(calls),
    ensures
        after.next_instance_id() != before.next_instance_id(),
        after.next_instance_id() % 32 != before.next_instance_id() % 32,
{
}

/// Successive commands carry distinct instance IDs, also in the five bits that a
/// PLDM header has for them: `first` sends a command, completing its exchange
/// gives `completed`, and `second`, with another command queued, sends the next.
pub proof fn law_successive_instance_ids_differ(
    first: PldmRequester,
    completed: PldmRequester,
    second: PldmRequester,
    remote_eid: u8,
    timeout_millis: u32,
)
    requires
        first.pending() is Some,
        first.completes(&completed),
        second.pending() is Some,
        second.next_instance_id() == completed.next_instance_id(),
    ensures
        ({
            let sent = first.command_step(CommandEvent::Start, remote_eid, timeout_millis);
            let next = second.command_step(CommandEvent::Start, remote_eid, timeout_millis);
            &&& sent is Encode && next is Encode
            &&& sent->instance_id != next->instance_id
            &&& sent->instance_id % 32 != next->instance_id % 32
        }),
{
}

} // verus!
