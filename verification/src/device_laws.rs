//! What holds of every run of the firmware device, over the calls that it makes
//! on its channels.

use vstd::prelude::*;

#[allow(unused_imports)]
use crate::calls::{DeviceCall, DeviceChannels};
#[allow(unused_imports)]
use crate::error::PldmServiceError;
use crate::firmware_device::{FdUaCmdChannel, FdUaRspChannel};
#[allow(unused_imports)]
use crate::firmware_device::{
    CycleAction, CycleEvent, CycleStep, DeviceStep, TerminusAction, TerminusEvent, TerminusStep,
    FD_IPC_MAX_MSG,
};

verus! {

/// Every call of the steps, in order.
pub open spec fn device_calls<E, A>(steps: Seq<DeviceStep<E, A>>) -> Seq<DeviceCall>
    decreases steps.len(),
{
    if steps.len() == 0 {
        Seq::empty()
    } else {
        device_calls(steps.drop_last()) + steps.last().calls
    }
}

/// Step `i` is the one that took the channels from `channels[i]` to
/// `channels[i + 1]`.
pub open spec fn device_recorded<'a, E, A, R: FdUaRspChannel, Q: FdUaCmdChannel>(
    channels: Seq<DeviceChannels<'a, R, Q>>,
    steps: Seq<DeviceStep<E, A>>,
    i: int,
) -> bool {
    &&& channels[i + 1].follows(&channels[i])
    &&& steps[i].calls == channels[i + 1].since(&channels[i])
}

/// The calls of the steps are all the calls on record, in the service loop and
/// in a command cycle: what the channels have on record after the steps is what
/// they had before and then the calls of the steps, and nothing else.
pub proof fn law_steps_hold_every_call<'a, E, A, R: FdUaRspChannel, Q: FdUaCmdChannel>(
    channels: Seq<DeviceChannels<'a, R, Q>>,
    steps: Seq<DeviceStep<E, A>>,
)
    requires
        channels.len() == steps.len() + 1,
        forall|i: int| 0 <= i < steps.len() ==> #[trigger] device_recorded(channels, steps, i),
    ensures
        channels.last().calls() == channels[0].calls() + device_calls(steps),
    decreases steps.len(),
{
    if steps.len() == 0 {
        assert(channels[0].calls() =~= channels[0].calls() + device_calls(steps));
    } else {
        let last = steps.len() - 1;
        let earlier = channels.drop_last();
        assert forall|i: int| 0 <= i < steps.drop_last().len() implies #[trigger] device_recorded(
            earlier,
            steps.drop_last(),
            i,
        ) by {
            assert(device_recorded(channels, steps, i));
        }
        law_steps_hold_every_call(earlier, steps.drop_last());
        assert(device_recorded(channels, steps, last));
        assert(channels.last().calls() =~= channels[0].calls() + device_calls(steps));
    }
}

/// Whether `event` is what may come back on `action`.
pub open spec fn terminus_answers(action: TerminusAction, event: TerminusEvent) -> bool {
    match action {
        TerminusAction::CheckMode => event is Ready,
        TerminusAction::Generate { request } => event is Generated,
        TerminusAction::Process { response, resp_len } => event is Processed,
        TerminusAction::Dispatch { msg_len } => event is Dispatched,
        TerminusAction::Stop(_) => false,
    }
}

/// Step `i` of a run of the service loop. Its event begins the run or answers
/// the action before; it finds the buffer as the step before left it, or, where
/// the interface has handled a command in between, as the interface left it.
pub open spec fn terminus_turn<R: FdUaRspChannel, Q: FdUaCmdChannel>(
    fd_rsp: &R,
    fw_req: &Q,
    timeout_millis: u32,
    steps: Seq<TerminusStep>,
    i: int,
) -> bool {
    &&& steps[i].event.fits(steps[i].before.len())
    &&& steps[i].is_step_over(fd_rsp, fw_req, timeout_millis)
    &&& if i == 0 {
        steps[i].event is Ready
    } else {
        &&& terminus_answers(steps[i - 1].action, steps[i].event)
        &&& steps[i].before.len() == steps[i - 1].after.len()
        &&& steps[i - 1].action is Dispatch || steps[i].before == steps[i - 1].after
    }
}

/// A run of the service loop, from its beginning to any point.
pub open spec fn terminus_conversation<R: FdUaRspChannel, Q: FdUaCmdChannel>(
    fd_rsp: &R,
    fw_req: &Q,
    timeout_millis: u32,
    steps: Seq<TerminusStep>,
) -> bool {
    forall|i: int|
        0 <= i < steps.len() ==> #[trigger] terminus_turn(fd_rsp, fw_req, timeout_millis, steps, i)
}

/// Those of the calls that are made on the command channel, in order.
pub open spec fn on_command_channel(calls: Seq<DeviceCall>) -> Seq<DeviceCall> {
    calls.filter(|call: DeviceCall| !(call is Transact))
}

/// The beginning of a run is a run.
proof fn lemma_earlier_steps<R: FdUaRspChannel, Q: FdUaCmdChannel>(
    fd_rsp: &R,
    fw_req: &Q,
    timeout_millis: u32,
    steps: Seq<TerminusStep>,
)
    requires
        terminus_conversation(fd_rsp, fw_req, timeout_millis, steps),
        steps.len() > 0,
    ensures
        terminus_conversation(fd_rsp, fw_req, timeout_millis, steps.drop_last()),
{
    let earlier = steps.drop_last();
    assert forall|i: int| 0 <= i < earlier.len() implies #[trigger] terminus_turn(
        fd_rsp,
        fw_req,
        timeout_millis,
        earlier,
        i,
    ) by {
        assert(terminus_turn(fd_rsp, fw_req, timeout_millis, steps, i));
    }
}

/// The calls on the command channel before and after the last step of a run.
proof fn lemma_last_calls(steps: Seq<TerminusStep>)
    requires
        steps.len() > 0,
    ensures
        on_command_channel(device_calls(steps)) == on_command_channel(
            device_calls(steps.drop_last()),
        ) + on_command_channel(steps.last().calls),
        steps.last().calls.len() == 0 ==> on_command_channel(steps.last().calls)
            == Seq::<DeviceCall>::empty(),
        steps.last().calls.len() == 1 ==> on_command_channel(steps.last().calls) == if
            steps.last().calls[0] is Transact {
            Seq::<DeviceCall>::empty()
        } else {
            seq![steps.last().calls[0]]
        },
{
    let on_command = |call: DeviceCall| !(call is Transact);
    let calls = steps.last().calls;
    Seq::filter_distributes_over_add(device_calls(steps.drop_last()), calls, on_command);
    reveal(Seq::filter);
    if calls.len() == 1 {
        assert(calls.drop_last() =~= Seq::<DeviceCall>::empty());
        assert(calls.drop_last().filter(on_command) =~= Seq::<DeviceCall>::empty());
        if !(calls[0] is Transact) {
            assert(calls.filter(on_command) =~= seq![calls[0]]);
        }
    }
}

/// On the command channel, receives and responses take turns: the first call is
/// a receive, one response at most follows each receive, and one receive at most
/// each response. Each receive is given the whole buffer and the timeout that
/// was asked for. A command is being handled after a receive, and at no other
/// time.
pub proof fn law_receive_and_respond_take_turns<R: FdUaRspChannel, Q: FdUaCmdChannel>(
    fd_rsp: &R,
    fw_req: &Q,
    timeout_millis: u32,
    steps: Seq<TerminusStep>,
)
    requires
        terminus_conversation(fd_rsp, fw_req, timeout_millis, steps),
    ensures
        forall|k: int|
            0 <= k < on_command_channel(device_calls(steps)).len() ==> match #[trigger]
            on_command_channel(device_calls(steps))[k] {
                DeviceCall::Recv { timeout_millis: limit, before, after, outcome } => {
                    &&& k % 2 == 0
                    &&& limit == timeout_millis
                    &&& before.len() == steps[0].before.len()
                },
                DeviceCall::Respond { message, outcome } => k % 2 == 1,
                DeviceCall::Transact { request, before, after, outcome } => false,
            },
        steps.len() > 0 ==> match steps.last().action {
            TerminusAction::Stop(_) => true,
            TerminusAction::Dispatch { msg_len } => on_command_channel(device_calls(steps)).len()
                % 2 == 1,
            _ => on_command_channel(device_calls(steps)).len() % 2 == 0,
        },
        steps.len() > 0 ==> steps.last().after.len() == steps[0].before.len(),
    decreases steps.len(),
{
    if steps.len() > 0 {
        let last = steps.len() - 1;
        let earlier = steps.drop_last();
        lemma_earlier_steps(fd_rsp, fw_req, timeout_millis, steps);
        law_receive_and_respond_take_turns(fd_rsp, fw_req, timeout_millis, earlier);
        lemma_last_calls(steps);
        assert(terminus_turn(fd_rsp, fw_req, timeout_millis, steps, last));
        if steps.len() == 1 {
            reveal(Seq::filter);
            assert(on_command_channel(device_calls(earlier)) =~= Seq::<DeviceCall>::empty());
        } else {
            assert(earlier.last() == steps[last - 1]);
            assert(earlier[0] == steps[0]);
        }
    }
}

/// The first failure ends the run, whether a channel or the interface fails:
/// nothing is called after it, and the service stops with that very error. The
/// service stops for no other reason.
pub proof fn law_first_failure_ends_the_run<R: FdUaRspChannel, Q: FdUaCmdChannel>(
    fd_rsp: &R,
    fw_req: &Q,
    timeout_millis: u32,
    steps: Seq<TerminusStep>,
    i: int,
)
    requires
        terminus_conversation(fd_rsp, fw_req, timeout_millis, steps),
        0 <= i < steps.len(),
    ensures
        forall|k: int|
            0 <= k < steps[i].calls.len() && (#[trigger] steps[i].calls[k]).failure() is Some ==> {
                &&& i == steps.len() - 1
                &&& k == steps[i].calls.len() - 1
                &&& steps[i].action == TerminusAction::Stop(steps[i].calls[k].failure()->0)
            },
        steps[i].event.interface_failure() matches Some(reason) ==> {
            &&& i == steps.len() - 1
            &&& steps[i].calls.len() == 0
            &&& steps[i].action == TerminusAction::Stop(PldmServiceError::MsgHandler(reason))
        },
        steps[i].action is Stop ==> {
            ||| steps[i].event.interface_failure() is Some
            ||| steps[i].calls.len() == 1 && steps[i].calls[0].failure() is Some
        },
{
    assert(terminus_turn(fd_rsp, fw_req, timeout_millis, steps, i));
    if i + 1 < steps.len() {
        assert(terminus_turn(fd_rsp, fw_req, timeout_millis, steps, i + 1));
    }
}

/// A response answers the command received last: it is what the interface left
/// in the buffer for the command that the step before received and handed to
/// it. A command that the interface rejects gets no response.
pub proof fn law_response_answers_the_received_command<R: FdUaRspChannel, Q: FdUaCmdChannel>(
    fd_rsp: &R,
    fw_req: &Q,
    timeout_millis: u32,
    steps: Seq<TerminusStep>,
    i: int,
)
    requires
        terminus_conversation(fd_rsp, fw_req, timeout_millis, steps),
        0 <= i < steps.len(),
        steps[i].calls.len() > 0,
        steps[i].calls[0] is Respond,
    ensures
        steps[i].calls.len() == 1,
        steps[i].event matches TerminusEvent::Dispatched(Ok(resp_len)) && resp_len
            <= steps[i].before.len() && steps[i].calls[0]->Respond_message
            == steps[i].before.take(resp_len as int),
        i > 0,
        steps[i - 1].calls.len() == 1,
        steps[i - 1].calls[0] matches DeviceCall::Recv {
            timeout_millis: limit,
            before,
            after,
            outcome: Ok(msg_len),
        } && after == steps[i - 1].after && msg_len <= after.len() && steps[i - 1].action == (
        TerminusAction::Dispatch { msg_len }),
{
    assert(terminus_turn(fd_rsp, fw_req, timeout_millis, steps, i));
    if i > 0 {
        assert(terminus_turn(fd_rsp, fw_req, timeout_millis, steps, i - 1));
        assert(steps[i - 1].calls[0].allowed(fd_rsp, fw_req));
    }
}

/// Nothing reaches the interface but what the channels delivered. In every run,
/// each response that is handed to the interface is the one that the Update Agent
/// gave in that same step, all of it, and each command that is handed to it is
/// the one received in that same step, all of it. Where the interface is in
/// update mode it is asked for its next request, and nothing is called before.
pub proof fn law_interface_gets_what_was_delivered<R: FdUaRspChannel, Q: FdUaCmdChannel>(
    fd_rsp: &R,
    fw_req: &Q,
    timeout_millis: u32,
    steps: Seq<TerminusStep>,
    i: int,
)
    requires
        terminus_conversation(fd_rsp, fw_req, timeout_millis, steps),
        0 <= i < steps.len(),
    ensures
        steps[i].action matches TerminusAction::Process { response, resp_len } ==> {
            &&& steps[i].calls.len() == 1
            &&& steps[i].calls[0] matches DeviceCall::Transact {
                request,
                before,
                after,
                outcome: Ok(n),
            }
            &&& after == response@
            &&& n == resp_len
        },
        steps[i].action matches TerminusAction::Dispatch { msg_len } ==> {
            &&& steps[i].calls.len() == 1
            &&& steps[i].calls[0] matches DeviceCall::Recv {
                timeout_millis: limit,
                before,
                after,
                outcome: Ok(n),
            }
            &&& after == steps[i].after
            &&& n == msg_len
        },
        steps[i].event == (TerminusEvent::Ready { update_mode: true }) ==> {
            &&& steps[i].action is Generate
            &&& steps[i].calls.len() == 0
        },
{
    assert(terminus_turn(fd_rsp, fw_req, timeout_millis, steps, i));
}

/// Whether the step belongs to the exchange of pending requests.
pub open spec fn exchanges_requests(step: TerminusStep) -> bool {
    step.event is Generated || step.event is Processed
}

/// The Update Agent is called in update mode only: some step before found the
/// interface in update mode, and since then only pending requests have been
/// exchanged.
pub proof fn law_agent_is_called_in_update_mode_only<R: FdUaRspChannel, Q: FdUaCmdChannel>(
    fd_rsp: &R,
    fw_req: &Q,
    timeout_millis: u32,
    steps: Seq<TerminusStep>,
    i: int,
)
    requires
        terminus_conversation(fd_rsp, fw_req, timeout_millis, steps),
        0 <= i < steps.len(),
        steps[i].calls.len() > 0,
        steps[i].calls[0] is Transact,
    ensures
        exists|j: int|
            0 <= j < i && (#[trigger] steps[j]).event == (TerminusEvent::Ready {
                update_mode: true,
            }) && forall|k: int| j < k <= i ==> exchanges_requests(#[trigger] steps[k]),
{
    assert(terminus_turn(fd_rsp, fw_req, timeout_millis, steps, i));
    lemma_requests_begin_in_update_mode(fd_rsp, fw_req, timeout_millis, steps, i);
}

/// Requests are exchanged after the interface has been found in update mode.
proof fn lemma_requests_begin_in_update_mode<R: FdUaRspChannel, Q: FdUaCmdChannel>(
    fd_rsp: &R,
    fw_req: &Q,
    timeout_millis: u32,
    steps: Seq<TerminusStep>,
    i: int,
)
    requires
        terminus_conversation(fd_rsp, fw_req, timeout_millis, steps),
        0 <= i < steps.len(),
        exchanges_requests(steps[i]),
    ensures
        exists|j: int|
            0 <= j < i && (#[trigger] steps[j]).event == (TerminusEvent::Ready {
                update_mode: true,
            }) && forall|k: int| j < k <= i ==> exchanges_requests(#[trigger] steps[k]),
    decreases i,
{
    assert(terminus_turn(fd_rsp, fw_req, timeout_millis, steps, i));
    assert(terminus_turn(fd_rsp, fw_req, timeout_millis, steps, i - 1));
    if exchanges_requests(steps[i - 1]) {
        lemma_requests_begin_in_update_mode(fd_rsp, fw_req, timeout_millis, steps, i - 1);
        let j = choose|j: int|
            0 <= j < i - 1 && (#[trigger] steps[j]).event == (TerminusEvent::Ready {
                update_mode: true,
            }) && forall|k: int| j < k <= i - 1 ==> exchanges_requests(#[trigger] steps[k]);
        assert(forall|k: int| j < k <= i ==> exchanges_requests(#[trigger] steps[k]));
    } else {
        assert(steps[i - 1].event == (TerminusEvent::Ready { update_mode: true }));
    }
}

/// Whether the interface has answered that it has no request pending.
pub open spec fn has_no_request(step: TerminusStep) -> bool {
    step.event matches TerminusEvent::Generated { outcome: Ok(None), request }
}

/// Every pending request goes out before the next command is received. Once the
/// interface has been asked for a request (step `i`), a receive at step `j`
/// comes only when the interface has answered that it has none left, at some
/// step `k`; up to then requests are exchanged and nothing else is done.
pub proof fn law_pending_requests_go_out_first<R: FdUaRspChannel, Q: FdUaCmdChannel>(
    fd_rsp: &R,
    fw_req: &Q,
    timeout_millis: u32,
    steps: Seq<TerminusStep>,
    i: int,
    j: int,
)
    requires
        terminus_conversation(fd_rsp, fw_req, timeout_millis, steps),
        0 <= i < j < steps.len(),
        steps[i].action is Generate,
        steps[j].calls.len() > 0,
        steps[j].calls[0] is Recv,
    ensures
        exists|k: int|
            i < k <= j && has_no_request(#[trigger] steps[k]) && forall|m: int|
                i < m < k ==> requests_or_hands_over(#[trigger] steps[m]),
    decreases j - i,
{
    assert(terminus_turn(fd_rsp, fw_req, timeout_millis, steps, i + 1));
    assert(terminus_turn(fd_rsp, fw_req, timeout_millis, steps, j));
    if !has_no_request(steps[i + 1]) {
        assert(i + 1 < j);
        assert(terminus_turn(fd_rsp, fw_req, timeout_millis, steps, i + 2));
        assert(i + 2 < j);
        assert(terminus_turn(fd_rsp, fw_req, timeout_millis, steps, i + 3));
        law_pending_requests_go_out_first(fd_rsp, fw_req, timeout_millis, steps, i + 2, j);
        let k = choose|k: int|
            i + 2 < k <= j && has_no_request(#[trigger] steps[k]) && forall|m: int|
                i + 2 < m < k ==> requests_or_hands_over(#[trigger] steps[m]);
        assert(requests_or_hands_over(steps[i + 1]));
        assert(requests_or_hands_over(steps[i + 2]));
        assert(forall|m: int| i < m < k ==> requests_or_hands_over(#[trigger] steps[m]));
    }
}

/// Whether the step sends one pending request to the Update Agent, all of it
/// and nothing else, with room for the longest response; or takes note that the
/// interface has the response, and calls nothing.
pub open spec fn requests_or_hands_over(step: TerminusStep) -> bool {
    match step.event {
        TerminusEvent::Generated { outcome: Ok(Some(req_len)), request } => {
            &&& step.calls.len() == 1
            &&& step.calls[0] matches DeviceCall::Transact {
                request: sent,
                before,
                after,
                outcome: Ok(n),
            }
            &&& sent == request@.take(req_len as int)
            &&& sent.len() == req_len
            &&& before.len() == FD_IPC_MAX_MSG
            &&& step.action matches TerminusAction::Process { response, resp_len }
            &&& response@ == after
            &&& resp_len == n
        },
        TerminusEvent::Processed(Ok(_)) => step.calls.len() == 0,
        _ => false,
    }
}

/// The requests that the interface hands over in the steps, in order.
pub open spec fn terminus_requests(steps: Seq<TerminusStep>) -> Seq<Seq<u8>>
    decreases steps.len(),
{
    if steps.len() == 0 {
        Seq::empty()
    } else {
        match steps.last().event {
            TerminusEvent::Generated {
                outcome: Ok(Some(req_len)),
                request,
            } => terminus_requests(steps.drop_last()).push(request@.take(req_len as int)),
            _ => terminus_requests(steps.drop_last()),
        }
    }
}

/// Whether `calls` sends `requests` to the Update Agent, one by one and in
/// order, each once and with a blank response buffer, and does nothing else.
pub open spec fn sends_in_order(calls: Seq<DeviceCall>, requests: Seq<Seq<u8>>) -> bool {
    &&& calls.len() == requests.len()
    &&& forall|k: int| 0 <= k < calls.len() ==> sends(#[trigger] calls[k], requests[k])
}

/// Whether `call` sends `request` to the Update Agent, with a blank response
/// buffer.
pub open spec fn sends(call: DeviceCall, request: Seq<u8>) -> bool {
    &&& call matches DeviceCall::Transact { request: sent, before, after, outcome }
    &&& sent == request
    &&& before == crate::firmware_device::blank()
}

/// Whether the step answers a command, without an error.
pub open spec fn has_answered(step: TerminusStep) -> bool {
    &&& step.calls.len() == 1
    &&& step.calls[0] is Respond
    &&& step.calls[0].failure() is None
}

/// Whether the step receives a command.
pub open spec fn has_received(step: TerminusStep) -> bool {
    step.calls.len() > 0 && step.calls[0] is Recv
}

/// An answered command is followed by the requests of the device. Step `i`
/// answers a command and step `j` is the next to receive one. In between, every
/// request that the interface hands over is sent, once and in order, and nothing
/// else is called. In update mode the next command is received only when the
/// interface has no request left; outside update mode it is received at once.
pub proof fn law_answered_command_is_followed_by_requests<R: FdUaRspChannel, Q: FdUaCmdChannel>(
    fd_rsp: &R,
    fw_req: &Q,
    timeout_millis: u32,
    steps: Seq<TerminusStep>,
    i: int,
    j: int,
)
    requires
        terminus_conversation(fd_rsp, fw_req, timeout_millis, steps),
        0 <= i < j < steps.len(),
        has_answered(steps[i]),
        has_received(steps[j]),
        forall|m: int| i < m < j ==> !has_received(#[trigger] steps[m]),
    ensures
        sends_in_order(
            device_calls(steps.subrange(i + 1, j)),
            terminus_requests(steps.subrange(i + 1, j)),
        ),
        steps[i + 1].event matches TerminusEvent::Ready { update_mode } && if update_mode {
            has_no_request(steps[j])
        } else {
            j == i + 1
        },
        steps[j].calls.len() == 1,
{
    assert(terminus_turn(fd_rsp, fw_req, timeout_millis, steps, i));
    assert(terminus_turn(fd_rsp, fw_req, timeout_millis, steps, i + 1));
    assert(terminus_turn(fd_rsp, fw_req, timeout_millis, steps, j));
    if j > i + 1 {
        assert(terminus_turn(fd_rsp, fw_req, timeout_millis, steps, j - 1));
        if !has_no_request(steps[j]) {
            assert(terminus_turn(fd_rsp, fw_req, timeout_millis, steps, j - 2));
        }
        assert(!has_received(steps[i + 1]));
    }
    lemma_requests_are_sent_in_order(fd_rsp, fw_req, timeout_millis, steps, i, j, j);
}

/// From an answered command up to step `n`, with the next receive at step `j`,
/// the requests handed over are the requests sent.
proof fn lemma_requests_are_sent_in_order<R: FdUaRspChannel, Q: FdUaCmdChannel>(
    fd_rsp: &R,
    fw_req: &Q,
    timeout_millis: u32,
    steps: Seq<TerminusStep>,
    i: int,
    j: int,
    n: int,
)
    requires
        terminus_conversation(fd_rsp, fw_req, timeout_millis, steps),
        0 <= i < n <= j < steps.len(),
        has_answered(steps[i]),
        forall|m: int| i < m < j ==> !has_received(#[trigger] steps[m]),
    ensures
        sends_in_order(
            device_calls(steps.subrange(i + 1, n)),
            terminus_requests(steps.subrange(i + 1, n)),
        ),
    decreases n,
{
    let between = steps.subrange(i + 1, n);
    if n > i + 1 {
        lemma_requests_are_sent_in_order(fd_rsp, fw_req, timeout_millis, steps, i, j, n - 1);
        assert(between.drop_last() =~= steps.subrange(i + 1, n - 1));
        assert(between.last() == steps[n - 1]);
        assert(terminus_turn(fd_rsp, fw_req, timeout_millis, steps, n));
        assert(terminus_turn(fd_rsp, fw_req, timeout_millis, steps, n - 1));
        assert(terminus_turn(fd_rsp, fw_req, timeout_millis, steps, n - 2));
        assert(!has_received(steps[n - 1]));
        if n - 2 > i {
            assert(!has_received(steps[n - 2]));
        }
    }
}

/// Whether `event` is what may come back on `action`.
pub open spec fn cycle_answers(action: CycleAction, event: CycleEvent) -> bool {
    match action {
        CycleAction::Dispatch { msg_len } => event is Dispatched,
        CycleAction::Generate { request } => event is Generated,
        CycleAction::Process { response, resp_len } => event is Processed,
        CycleAction::Done => false,
        CycleAction::Stop(_) => false,
    }
}

/// Step `i` of a command cycle. Its event begins the cycle or answers the action
/// before; it finds the buffer as the step before left it, or, where the
/// interface has handled the command in between, as the interface left it.
pub open spec fn cycle_turn<R: FdUaRspChannel, Q: FdUaCmdChannel>(
    fd_rsp: &R,
    fw_req: &Q,
    timeout_millis: u32,
    steps: Seq<CycleStep>,
    i: int,
) -> bool {
    &&& steps[i].event.fits(steps[i].before.len())
    &&& steps[i].is_step_over(fd_rsp, fw_req, timeout_millis)
    &&& if i == 0 {
        steps[i].event is Start
    } else {
        &&& cycle_answers(steps[i - 1].action, steps[i].event)
        &&& steps[i].before.len() == steps[i - 1].after.len()
        &&& steps[i - 1].action is Dispatch || steps[i].before == steps[i - 1].after
    }
}

/// A command cycle, from its beginning to any point.
pub open spec fn cycle_conversation<R: FdUaRspChannel, Q: FdUaCmdChannel>(
    fd_rsp: &R,
    fw_req: &Q,
    timeout_millis: u32,
    steps: Seq<CycleStep>,
) -> bool {
    forall|i: int|
        0 <= i < steps.len() ==> #[trigger] cycle_turn(fd_rsp, fw_req, timeout_millis, steps, i)
}

/// A command cycle handles one command: its first call is the receive of the
/// command, its second the response to it, of what the interface left in the
/// buffer, and every other call sends a pending request, all of it and nothing
/// else. A cycle that is done has answered its command, and the interface has no
/// request left.
pub proof fn law_cycle_handles_one_command<R: FdUaRspChannel, Q: FdUaCmdChannel>(
    fd_rsp: &R,
    fw_req: &Q,
    timeout_millis: u32,
    steps: Seq<CycleStep>,
    i: int,
)
    requires
        cycle_conversation(fd_rsp, fw_req, timeout_millis, steps),
        0 <= i < steps.len(),
    ensures
        i == 0 ==> steps[i].takes_command(timeout_millis),
        i == 1 ==> steps[0].action is Dispatch && match steps[i].event {
            CycleEvent::Dispatched(Ok(resp_len)) => steps[i].answers(
                steps[i].before.take(resp_len as int),
            ),
            _ => steps[i].calls.len() == 0,
        },
        i >= 2 ==> steps[1].calls.len() == 1 && match steps[i].event {
            CycleEvent::Generated { outcome: Ok(Some(req_len)), request } => steps[i].exchanges(
                request@.take(req_len as int),
            ),
            _ => steps[i].calls.len() == 0,
        },
        steps[i].action is Done ==> i >= 2 && i == steps.len() - 1 && (
        steps[i].event matches CycleEvent::Generated { outcome: Ok(None), request }),
    decreases i,
{
    assert(cycle_turn(fd_rsp, fw_req, timeout_millis, steps, i));
    if i > 0 {
        law_cycle_handles_one_command(fd_rsp, fw_req, timeout_millis, steps, i - 1);
        assert(cycle_turn(fd_rsp, fw_req, timeout_millis, steps, i - 1));
    }
    if i + 1 < steps.len() {
        assert(cycle_turn(fd_rsp, fw_req, timeout_millis, steps, i + 1));
    }
}

/// Nothing reaches the interface but what the channels delivered. In every cycle,
/// a command of `n` bytes that is received is handed to the interface, its `n`
/// bytes and no others, and each response that is handed to the interface is the
/// one that the Update Agent gave in that same step, all of it.
pub proof fn law_cycle_hands_over_what_was_delivered<R: FdUaRspChannel, Q: FdUaCmdChannel>(
    fd_rsp: &R,
    fw_req: &Q,
    timeout_millis: u32,
    steps: Seq<CycleStep>,
    i: int,
)
    requires
        cycle_conversation(fd_rsp, fw_req, timeout_millis, steps),
        0 <= i < steps.len(),
    ensures
        i == 0 ==> steps[i].calls.len() == 1 && (steps[i].calls[0] matches DeviceCall::Recv {
            timeout_millis: limit,
            before,
            after,
            outcome,
        } && after == steps[i].after && (outcome matches Ok(n) ==> steps[i].action == (
        CycleAction::Dispatch { msg_len: n }))),
        steps[i].action is Dispatch ==> i == 0 && (steps[i].calls[0] matches DeviceCall::Recv {
            timeout_millis: limit,
            before,
            after,
            outcome: Ok(n),
        } && n == steps[i].action->msg_len),
        steps[i].action matches CycleAction::Process { response, resp_len } ==> {
            &&& steps[i].calls.len() == 1
            &&& steps[i].calls[0] matches DeviceCall::Transact {
                request,
                before,
                after,
                outcome: Ok(n),
            }
            &&& after == response@
            &&& n == resp_len
        },
{
    assert(cycle_turn(fd_rsp, fw_req, timeout_millis, steps, i));
    if i > 0 {
        assert(cycle_turn(fd_rsp, fw_req, timeout_millis, steps, i - 1));
    }
}

/// The first failure ends the cycle, whether a channel or the interface fails:
/// nothing is called after it, and the service stops with that very error. The
/// service stops for no other reason.
pub proof fn law_first_failure_ends_the_cycle<R: FdUaRspChannel, Q: FdUaCmdChannel>(
    fd_rsp: &R,
    fw_req: &Q,
    timeout_millis: u32,
    steps: Seq<CycleStep>,
    i: int,
)
    requires
        cycle_conversation(fd_rsp, fw_req, timeout_millis, steps),
        0 <= i < steps.len(),
    ensures
        forall|k: int|
            0 <= k < steps[i].calls.len() && (#[trigger] steps[i].calls[k]).failure() is Some ==> {
                &&& i == steps.len() - 1
                &&& k == steps[i].calls.len() - 1
                &&& steps[i].action == CycleAction::Stop(steps[i].calls[k].failure()->0)
            },
        steps[i].event.interface_failure() matches Some(reason) ==> {
            &&& i == steps.len() - 1
            &&& steps[i].calls.len() == 0
            &&& steps[i].action == CycleAction::Stop(PldmServiceError::MsgHandler(reason))
        },
        steps[i].action is Stop ==> {
            ||| steps[i].event.interface_failure() is Some
            ||| steps[i].calls.len() == 1 && steps[i].calls[0].failure() is Some
        },
{
    assert(cycle_turn(fd_rsp, fw_req, timeout_millis, steps, i));
    if i + 1 < steps.len() {
        assert(cycle_turn(fd_rsp, fw_req, timeout_millis, steps, i + 1));
    }
}

/// The requests that the interface hands over in the steps, in order.
pub open spec fn cycle_requests(steps: Seq<CycleStep>) -> Seq<Seq<u8>>
    decreases steps.len(),
{
    if steps.len() == 0 {
        Seq::empty()
    } else {
        match steps.last().event {
            CycleEvent::Generated {
                outcome: Ok(Some(req_len)),
                request,
            } => cycle_requests(steps.drop_last()).push(request@.take(req_len as int)),
            _ => cycle_requests(steps.drop_last()),
        }
    }
}

/// Once the command of a cycle is received and answered, every request that the
/// interface hands over is sent, once and in order, and nothing else is called.
pub proof fn law_cycle_sends_its_requests_in_order<R: FdUaRspChannel, Q: FdUaCmdChannel>(
    fd_rsp: &R,
    fw_req: &Q,
    timeout_millis: u32,
    steps: Seq<CycleStep>,
)
    requires
        cycle_conversation(fd_rsp, fw_req, timeout_millis, steps),
        steps.len() >= 2,
        steps[1].calls.len() > 0,
    ensures
        device_calls(steps).len() >= 2,
        device_calls(steps)[0] is Recv,
        device_calls(steps)[1] is Respond,
        sends_in_order(device_calls(steps).skip(2), cycle_requests(steps)),
    decreases steps.len(),
{
    let last = steps.len() - 1;
    let earlier = steps.drop_last();
    law_cycle_handles_one_command(fd_rsp, fw_req, timeout_millis, steps, last);
    assert(cycle_turn(fd_rsp, fw_req, timeout_millis, steps, last));
    if last > 1 {
        assert forall|i: int| 0 <= i < earlier.len() implies #[trigger] cycle_turn(
            fd_rsp,
            fw_req,
            timeout_millis,
            earlier,
            i,
        ) by {
            assert(cycle_turn(fd_rsp, fw_req, timeout_millis, steps, i));
        }
        law_cycle_sends_its_requests_in_order(fd_rsp, fw_req, timeout_millis, earlier);
        assert(device_calls(steps).skip(2) =~= device_calls(earlier).skip(2) + steps.last().calls);
    } else {
        law_cycle_handles_one_command(fd_rsp, fw_req, timeout_millis, steps, 0);
        assert(earlier.drop_last() =~= Seq::<CycleStep>::empty());
        assert(cycle_turn(fd_rsp, fw_req, timeout_millis, steps, 0));
        assert(earlier.last() == steps[0]);
        reveal_with_fuel(device_calls, 3);
        reveal_with_fuel(cycle_requests, 3);
        assert(device_calls(steps) =~= steps[0].calls + steps[1].calls);
    }
}

} // verus!
