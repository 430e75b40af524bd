//! What holds of every message that the responder handles, over the calls that
//! it makes on its channel and the handling and replies that it asks for.

use vstd::prelude::*;

#[allow(unused_imports)]
use crate::calls::{CommandCall, CommandChannel};
use crate::firmware_device::UaFdCmdChannel;
#[allow(unused_imports)]
use crate::responder::{
    HandlerAction, HandlerEvent, HandlerStep, ResponderAction, ResponderEvent, ResponderStep,
};

verus! {

/// Every call of the steps, in order.
pub open spec fn responder_calls(steps: Seq<ResponderStep>) -> Seq<CommandCall>
    decreases steps.len(),
{
    if steps.len() == 0 {
        Seq::empty()
    } else {
        responder_calls(steps.drop_last()) + steps.last().calls
    }
}

/// Step `i` is the one that took the channel from `channels[i]` to
/// `channels[i + 1]`.
pub open spec fn responder_recorded<'a, U: UaFdCmdChannel>(
    channels: Seq<CommandChannel<'a, U>>,
    steps: Seq<ResponderStep>,
    i: int,
) -> bool {
    &&& channels[i + 1].follows(&channels[i])
    &&& steps[i].calls == channels[i + 1].since(&channels[i])
}

/// The calls of the steps are all the calls on record: what the channel has on
/// record after the steps is what it had before and then the calls of the steps,
/// and nothing else.
pub proof fn law_steps_hold_every_call<'a, U: UaFdCmdChannel>(
    channels: Seq<CommandChannel<'a, U>>,
    steps: Seq<ResponderStep>,
)
    requires
        channels.len() == steps.len() + 1,
        forall|i: int| 0 <= i < steps.len() ==> #[trigger] responder_recorded(channels, steps, i),
    ensures
        channels.last().calls() == channels[0].calls() + responder_calls(steps),
    decreases steps.len(),
{
    if steps.len() == 0 {
        assert(channels[0].calls() =~= channels[0].calls() + responder_calls(steps));
    } else {
        let last = steps.len() - 1;
        let earlier = channels.drop_last();
        assert forall|i: int|
            0 <= i < steps.drop_last().len() implies #[trigger] responder_recorded(
            earlier,
            steps.drop_last(),
            i,
        ) by {
            assert(responder_recorded(channels, steps, i));
        }
        law_steps_hold_every_call(earlier, steps.drop_last());
        assert(responder_recorded(channels, steps, last));
        assert(channels.last().calls() =~= channels[0].calls() + responder_calls(steps));
    }
}

/// Whether `event` is what may come back on `action`.
pub open spec fn responder_answers(action: ResponderAction, event: ResponderEvent) -> bool {
    match action {
        ResponderAction::Receive { timeout_millis } => event is Received,
        ResponderAction::Reply { resp_len } => event is Replied,
        ResponderAction::Done => false,
        ResponderAction::Stop(_) => false,
    }
}

/// Step `i` of the responder on one message. Its event begins the handling or
/// answers the action before; it finds the buffer as the step before left it,
/// or, where a message was received in between, as the transport left it.
pub open spec fn responder_turn<U: UaFdCmdChannel>(
    fd_req: &U,
    timeout_millis: u32,
    steps: Seq<ResponderStep>,
    i: int,
) -> bool {
    &&& steps[i].is_step_over(fd_req, timeout_millis)
    &&& if i == 0 {
        steps[i].event is Start
    } else {
        &&& responder_answers(steps[i - 1].action, steps[i].event)
        &&& steps[i].before.len() == steps[i - 1].after.len()
        &&& steps[i - 1].action is Receive || steps[i].before == steps[i - 1].after
    }
}

/// The steps of the responder on one message, from the first to any point.
pub open spec fn responder_conversation<U: UaFdCmdChannel>(
    fd_req: &U,
    timeout_millis: u32,
    steps: Seq<ResponderStep>,
) -> bool {
    forall|i: int|
        0 <= i < steps.len() ==> #[trigger] responder_turn(fd_req, timeout_millis, steps, i)
}

/// A message is received once, forwarded once at most and replied to once at
/// most, whether it ends well or not: the handling takes three steps at most, of
/// which only the first asks for a receive, only the second calls the channel,
/// with one call at most, and only the second asks for a reply. Where a step
/// stops the service, it is the last.
pub proof fn law_one_reply_per_message<U: UaFdCmdChannel>(
    fd_req: &U,
    timeout_millis: u32,
    steps: Seq<ResponderStep>,
)
    requires
        responder_conversation(fd_req, timeout_millis, steps),
    ensures
        steps.len() <= 3,
        forall|i: int|
            0 <= i < steps.len() ==> {
                &&& (#[trigger] steps[i]).action is Receive ==> i == 0
                &&& steps[i].action is Reply ==> i == 1
                &&& steps[i].calls.len() > 0 ==> i == 1 && steps[i].calls.len() == 1
                &&& steps[i].action is Stop ==> i == steps.len() - 1
            },
{
    if steps.len() > 0 {
        assert(responder_turn(fd_req, timeout_millis, steps, 0));
    }
    if steps.len() > 1 {
        assert(responder_turn(fd_req, timeout_millis, steps, 1));
    }
    if steps.len() > 2 {
        assert(responder_turn(fd_req, timeout_millis, steps, 2));
    }
    if steps.len() > 3 {
        assert(responder_turn(fd_req, timeout_millis, steps, 3));
    }
}

/// A message is refused for a reason only. Where a message is received that fits
/// the buffer behind the framing byte, it is forwarded; where the device answers
/// it with `n` bytes that fit the buffer, a reply of these `n` bytes is asked for.
/// Where a step stops the service, the transport or the device failed, or a length
/// does not fit the buffer.
pub proof fn law_message_is_refused_for_a_reason<U: UaFdCmdChannel>(
    fd_req: &U,
    timeout_millis: u32,
    steps: Seq<ResponderStep>,
    i: int,
)
    requires
        responder_conversation(fd_req, timeout_millis, steps),
        0 <= i < steps.len(),
    ensures
        steps[i].event matches ResponderEvent::Received(Ok(pldm_len)) ==> pldm_len
            < steps[i].before.len() ==> steps[i].calls.len() == 1,
        steps[i].calls.len() > 0 ==> (steps[i].calls[0].outcome matches Ok(n) ==> 0 < n
            <= steps[i].before.len() ==> steps[i].action == (ResponderAction::Reply {
            resp_len: n,
        })),
        steps[i].action is Stop ==> {
            ||| steps[i].event matches ResponderEvent::Received(Err(_))
            ||| steps[i].event matches ResponderEvent::Replied(Err(_))
            ||| steps[i].event is Start && steps[i].before.len() == 0
            ||| steps[i].event matches ResponderEvent::Received(Ok(n)) && n >= steps[i].before.len()
            ||| steps[i].calls.len() == 1 && steps[i].calls[0].outcome is Err
            ||| steps[i].calls.len() == 1 && (steps[i].calls[0].outcome matches Ok(n) && !(0 < n
                <= steps[i].before.len()))
        },
{
    assert(responder_turn(fd_req, timeout_millis, steps, i));
}

/// A message that is done was received, forwarded exactly once and replied to
/// exactly once. What the firmware device got is the frame of what MCTP
/// delivered, and what MCTP sent back is the PLDM part of the device's response.
pub proof fn law_done_message_was_forwarded_and_answered<U: UaFdCmdChannel>(
    fd_req: &U,
    timeout_millis: u32,
    steps: Seq<ResponderStep>,
)
    requires
        responder_conversation(fd_req, timeout_millis, steps),
        steps.len() > 0,
        steps.last().action is Done,
    ensures
        steps.len() == 3,
        steps[0].action == (ResponderAction::Receive { timeout_millis }),
        steps[0].calls.len() == 0,
        steps[1].calls.len() == 1,
        steps[1].event matches ResponderEvent::Received(Ok(pldm_len)) && pldm_len
            < steps[1].before.len() && steps[1].calls[0].request == crate::frame::frame(
            steps[1].before.subrange(1, pldm_len + 1),
        ),
        steps[1].action matches ResponderAction::Reply { resp_len } && steps[1].calls[0].outcome
            == Ok::<usize, crate::error::PldmServiceError>(resp_len) && steps[2].before.subrange(
            1,
            resp_len as int,
        ) == crate::frame::pldm_part(steps[1].calls[0].after.take(resp_len as int)),
        steps[2].event matches ResponderEvent::Replied(Ok(_)),
        steps[2].calls.len() == 0,
{
    law_one_reply_per_message(fd_req, timeout_millis, steps);
    assert(responder_turn(fd_req, timeout_millis, steps, 0));
    assert(steps.len() > 1);
    assert(responder_turn(fd_req, timeout_millis, steps, 1));
    assert(steps.len() > 2);
    assert(responder_turn(fd_req, timeout_millis, steps, 2));
    law_command_and_response_pass_through(fd_req, timeout_millis, steps[1]);
}

/// What the firmware device gets is the frame of what MCTP delivered, and what
/// MCTP sends back is the PLDM part of the device's response.
pub proof fn law_command_and_response_pass_through<U: UaFdCmdChannel>(
    fd_req: &U,
    timeout_millis: u32,
    step: ResponderStep,
)
    requires
        step.is_step_over(fd_req, timeout_millis),
        step.action is Reply,
    ensures
        step.event matches ResponderEvent::Received(Ok(pldm_len)) && pldm_len < step.before.len()
            && step.calls.len() == 1 && step.calls[0].request == crate::frame::frame(
            step.before.subrange(1, pldm_len + 1),
        ),
        step.action matches ResponderAction::Reply { resp_len } && step.calls[0].outcome == Ok::<
            usize,
            crate::error::PldmServiceError,
        >(resp_len) && step.after.subrange(1, resp_len as int) == crate::frame::pldm_part(
            step.calls[0].after.take(resp_len as int),
        ),
{
    let pldm_len = step.event->Received_0->Ok_0;
    let resp_len = step.action->Reply_resp_len;
    crate::frame::law_framed_in_place(step.before, pldm_len as int);
    assert(step.calls[0].allowed(fd_req));
    assert(step.after.subrange(1, resp_len as int) =~= crate::frame::pldm_part(
        step.calls[0].after.take(resp_len as int),
    ));
}

/// The sender of a command gets the firmware device's answer to it: if the
/// device answers each message with what `answer` says, the PLDM bytes that are
/// sent back are those of the answer to the framed command.
pub proof fn law_sender_gets_the_devices_answer<U: UaFdCmdChannel>(
    fd_req: &U,
    timeout_millis: u32,
    answer: spec_fn(Seq<u8>) -> Seq<u8>,
    step: ResponderStep,
)
    requires
        forall|request: Seq<u8>, blank: Seq<u8>, resp: Seq<u8>, n: usize| #[trigger]
            fd_req.may_transact(request, blank, resp, Ok(n)) ==> resp.take(n as int) == answer(
                request,
            ),
        step.is_step_over(fd_req, timeout_millis),
        step.action is Reply,
    ensures
        step.event matches ResponderEvent::Received(Ok(pldm_len)) && (
        step.action matches ResponderAction::Reply { resp_len } && step.after.subrange(
            1,
            resp_len as int,
        ) == crate::frame::pldm_part(
            answer(crate::frame::frame(step.before.subrange(1, pldm_len + 1))),
        )),
{
    law_command_and_response_pass_through(fd_req, timeout_millis, step);
    assert(step.calls[0].allowed(fd_req));
}

/// Whether `event` is what may come back on `action`.
pub open spec fn handler_answers(action: HandlerAction, event: HandlerEvent) -> bool {
    match action {
        HandlerAction::Receive { timeout_millis } => event is Received,
        HandlerAction::Handle { msg_len } => event is Handled,
        HandlerAction::Reply { resp_len } => event is Replied,
        HandlerAction::Done => false,
        HandlerAction::Stop(_) => false,
    }
}

/// Step `i` of the responder with a handler on one message. Its event begins the
/// handling or answers the action before; it finds the buffer as the step before
/// left it, or, where a message was received or the handler was at work in
/// between, as these left it.
pub open spec fn handler_turn(timeout_millis: u32, steps: Seq<HandlerStep>, i: int) -> bool {
    &&& steps[i].is_step(timeout_millis)
    &&& if i == 0 {
        steps[i].event is Start
    } else {
        let asked = steps[i - 1].action;
        &&& handler_answers(asked, steps[i].event)
        &&& steps[i].before.len() == steps[i - 1].after.len()
        &&& asked is Receive || asked is Handle || steps[i].before == steps[i - 1].after
    }
}

/// The steps of the responder with a handler on one message, from the first to
/// any point.
pub open spec fn handler_conversation(timeout_millis: u32, steps: Seq<HandlerStep>) -> bool {
    forall|i: int| 0 <= i < steps.len() ==> #[trigger] handler_turn(timeout_millis, steps, i)
}

/// With a handler, a message is received once, handled once at most and replied
/// to once at most, in this order and whether it ends well or not: the handling
/// takes four steps at most, of which only the first asks for a receive, only the
/// second for the handler and only the third for a reply. Where a step stops the
/// service, or is done, it is the last.
pub proof fn law_one_handling_and_one_reply_per_message(
    timeout_millis: u32,
    steps: Seq<HandlerStep>,
)
    requires
        handler_conversation(timeout_millis, steps),
    ensures
        steps.len() <= 4,
        forall|i: int|
            0 <= i < steps.len() ==> {
                &&& (#[trigger] steps[i]).action is Receive ==> i == 0
                &&& steps[i].action is Handle ==> i == 1
                &&& steps[i].action is Reply ==> i == 2
                &&& steps[i].action is Done ==> i == 3
                &&& steps[i].action is Stop ==> i == steps.len() - 1
            },
{
    if steps.len() > 0 {
        assert(handler_turn(timeout_millis, steps, 0));
    }
    if steps.len() > 1 {
        assert(handler_turn(timeout_millis, steps, 1));
    }
    if steps.len() > 2 {
        assert(handler_turn(timeout_millis, steps, 2));
    }
    if steps.len() > 3 {
        assert(handler_turn(timeout_millis, steps, 3));
    }
    if steps.len() > 4 {
        assert(handler_turn(timeout_millis, steps, 4));
    }
}

/// With a handler, a message is refused for a reason only. A message that fits the
/// buffer behind the framing byte is handed to the handler, and a response of the
/// handler that has its framing byte and fits the buffer is sent back. Where a step
/// stops the service, the transport or the handler failed, or a length does not
/// fit the buffer.
pub proof fn law_handled_message_is_refused_for_a_reason(
    timeout_millis: u32,
    steps: Seq<HandlerStep>,
    i: int,
)
    requires
        handler_conversation(timeout_millis, steps),
        0 <= i < steps.len(),
    ensures
        steps[i].event matches HandlerEvent::Received(Ok(n)) ==> n < steps[i].before.len()
            ==> steps[i].action is Handle,
        steps[i].event matches HandlerEvent::Handled(Ok(n)) ==> 0 < n <= steps[i].before.len()
            ==> steps[i].action == (HandlerAction::Reply { resp_len: n }),
        steps[i].action is Stop ==> {
            ||| steps[i].event matches HandlerEvent::Received(Err(_))
            ||| steps[i].event matches HandlerEvent::Handled(Err(_))
            ||| steps[i].event matches HandlerEvent::Replied(Err(_))
            ||| steps[i].event is Start && steps[i].before.len() == 0
            ||| steps[i].event matches HandlerEvent::Received(Ok(n)) && n >= steps[i].before.len()
            ||| steps[i].event matches HandlerEvent::Handled(Ok(n)) && !(0 < n
                <= steps[i].before.len())
        },
{
    assert(handler_turn(timeout_millis, steps, i));
}

/// What the handler is given is the frame of what MCTP delivered, and what MCTP
/// sends back is the PLDM part of the response that the handler left.
pub proof fn law_handler_answers_the_framed_message(timeout_millis: u32, steps: Seq<HandlerStep>)
    requires
        handler_conversation(timeout_millis, steps),
    ensures
        steps.len() > 1 && steps[1].action is Handle ==> {
            &&& steps[1].event matches HandlerEvent::Received(Ok(pldm_len))
            &&& steps[1].action == (HandlerAction::Handle { msg_len: (pldm_len + 1) as usize })
            &&& pldm_len < steps[1].after.len()
            &&& steps[1].after.take(pldm_len + 1) == crate::frame::frame(
                steps[1].before.subrange(1, pldm_len + 1),
            )
        },
        steps.len() > 2 && steps[2].action is Reply ==> {
            &&& steps[2].action matches HandlerAction::Reply { resp_len }
            &&& steps[2].event == HandlerEvent::Handled(Ok(resp_len))
            &&& 0 < resp_len <= steps[2].before.len()
            &&& steps[2].after.subrange(1, resp_len as int) == crate::frame::pldm_part(
                steps[2].before.take(resp_len as int),
            )
        },
{
    law_one_handling_and_one_reply_per_message(timeout_millis, steps);
    if steps.len() > 1 && steps[1].action is Handle {
        assert(handler_turn(timeout_millis, steps, 1));
        crate::frame::law_framed_in_place(
            steps[1].before,
            steps[1].event->Received_0->Ok_0 as int,
        );
    }
    if steps.len() > 2 && steps[2].action is Reply {
        assert(handler_turn(timeout_millis, steps, 2));
        let resp_len = steps[2].action->Reply_resp_len;
        assert(steps[2].after.subrange(1, resp_len as int) =~= crate::frame::pldm_part(
            steps[2].before.take(resp_len as int),
        ));
    }
}

} // verus!
