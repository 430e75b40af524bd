//! What each operation of the firmware device does, in terms of what it is
//! given and what comes of it: the calls that it adds to the record of its
//! channels, the buffer, and the action that it asks for.

use vstd::prelude::*;

#[allow(unused_imports)]
use crate::calls::{DeviceCall, DeviceChannels};
#[allow(unused_imports)]
use crate::error::PldmServiceError;
use crate::firmware_device::{FdUaCmdChannel, FdUaRspChannel};
#[allow(unused_imports)]
use crate::firmware_device::{
    CycleAction, CycleEvent, FirmwareDevice, TerminusAction, TerminusEvent,
};

verus! {

/// The call that was added to a record of calls, if there is one.
pub open spec fn added<C>(before: Seq<C>, after: Seq<C>) -> Option<C> {
    if after.len() > before.len() {
        Some(after.last())
    } else {
        None
    }
}

/// Whether the call is a receive with the timeout `timeout_millis`, into a buffer
/// that held `before` and then held `after`.
pub open spec fn is_recv(
    call: Option<DeviceCall>,
    timeout_millis: u32,
    before: Seq<u8>,
    after: Seq<u8>,
) -> bool {
    &&& call matches Some(DeviceCall::Recv {
        timeout_millis: limit,
        before: held,
        after: left,
        outcome,
    })
    &&& limit == timeout_millis
    &&& held == before
    &&& left == after
}

/// Whether the call sends the first `n` bytes of `bytes` as a response.
pub open spec fn is_respond(call: Option<DeviceCall>, bytes: Seq<u8>, n: int) -> bool {
    &&& call matches Some(DeviceCall::Respond { message, outcome })
    &&& message.len() == n
    &&& forall|k: int| 0 <= k < n ==> #[trigger] message[k] == bytes[k]
}

/// Whether the call sends the first `n` bytes of `bytes` to the Update Agent,
/// with a response buffer of 1024 zeros.
pub open spec fn is_transact(call: Option<DeviceCall>, bytes: Seq<u8>, n: int) -> bool {
    &&& call matches Some(DeviceCall::Transact { request, before, after, outcome })
    &&& request.len() == n
    &&& forall|k: int| 0 <= k < n ==> #[trigger] request[k] == bytes[k]
    &&& before.len() == 1024
    &&& forall|k: int| 0 <= k < 1024 ==> #[trigger] before[k] == 0
}

/// The service loop can be entered with every answer of the interface whose
/// length lies in the buffer that it speaks of.
pub proof fn law_terminus_takes_every_answer<'a, R: FdUaRspChannel, Q: FdUaCmdChannel>()
    ensures
        forall|
            device: &mut FirmwareDevice,
            channels: &mut DeviceChannels<'a, R, Q>,
            event: TerminusEvent,
            buf: &mut [u8],
            timeout_millis: u32,
        |
            {
                &&& (event matches TerminusEvent::Dispatched(Ok(n)) ==> n <= buf@.len())
                &&& (event matches TerminusEvent::Generated { outcome: Ok(Some(n)), request } ==> n
                    <= 1024)
            } ==> #[trigger] call_requires(
                FirmwareDevice::run_terminus::<R, Q>,
                (device, channels, event, buf, timeout_millis),
            ),
{
}

/// A step of the service loop makes one call at most, and one that the channels
/// allow. Every earlier call stays on record, the channels stay the same, and
/// only a receive changes the buffer, never its length.
pub proof fn law_terminus_makes_one_call_at_most<'a, R: FdUaRspChannel, Q: FdUaCmdChannel>()
    ensures
        forall|
            device: &mut FirmwareDevice,
            channels: &mut DeviceChannels<'a, R, Q>,
            event: TerminusEvent,
            buf: &mut [u8],
            timeout_millis: u32,
            action: TerminusAction,
        | #[trigger]
            call_ensures(
                FirmwareDevice::run_terminus::<R, Q>,
                (device, channels, event, buf, timeout_millis),
                action,
            ) ==> {
                let call = added(channels.calls(), final(channels).calls());
                &&& channels.calls().len() <= final(channels).calls().len()
                    <= channels.calls().len() + 1
                &&& forall|k: int|
                    0 <= k < channels.calls().len() ==> #[trigger] final(channels).calls()[k]
                        == channels.calls()[k]
                &&& final(channels).fd_rsp() == channels.fd_rsp()
                &&& final(channels).fw_req() == channels.fw_req()
                &&& final(buf)@.len() == buf@.len()
                &&& call is None ==> final(buf)@ == buf@
                &&& (call matches Some(DeviceCall::Recv {
                    timeout_millis: limit,
                    before,
                    after,
                    outcome,
                }) ==> channels.fd_rsp().may_recv(limit, before, after, outcome))
                &&& (call matches Some(DeviceCall::Respond { message, outcome })
                    ==> channels.fd_rsp().may_respond(message, outcome) && final(buf)@ == buf@)
                &&& (call matches Some(DeviceCall::Transact { request, before, after, outcome })
                    ==> channels.fw_req().may_transact(request, before, after, outcome)
                    && final(buf)@ == buf@)
            },
{
}

/// Which call a step of the service loop makes. A command is received if and only
/// if the interface is not in update mode or has no request left; a response is
/// sent if and only if the interface has handled a command, and is what the
/// interface left; the Update Agent is called if and only if the interface has a
/// request, and gets that request.
pub proof fn law_terminus_call_follows_the_answer<'a, R: FdUaRspChannel, Q: FdUaCmdChannel>()
    ensures
        forall|
            device: &mut FirmwareDevice,
            channels: &mut DeviceChannels<'a, R, Q>,
            event: TerminusEvent,
            buf: &mut [u8],
            timeout_millis: u32,
            action: TerminusAction,
        |
            #![trigger call_ensures(
                FirmwareDevice::run_terminus::<R, Q>,
                (device, channels, event, buf, timeout_millis),
                action,
            )]
            {
                &&& call_ensures(
                    FirmwareDevice::run_terminus::<R, Q>,
                    (device, channels, event, buf, timeout_millis),
                    action,
                )
                &&& (event matches TerminusEvent::Dispatched(Ok(n)) ==> n <= buf@.len())
                &&& (event matches TerminusEvent::Generated { outcome: Ok(Some(n)), request } ==> n
                    <= 1024)
            } ==> {
                let call = added(channels.calls(), final(channels).calls());
                let received = event == (TerminusEvent::Ready { update_mode: false }) || (
                event matches TerminusEvent::Generated { outcome: Ok(None), request });
                &&& received ==> is_recv(call, timeout_millis, buf@, final(buf)@)
                &&& call is Some && call->0 is Recv ==> received
                &&& (event matches TerminusEvent::Dispatched(Ok(n)) ==> is_respond(
                    call,
                    buf@,
                    n as int,
                ))
                &&& call is Some && call->0 is Respond ==> (
                event matches TerminusEvent::Dispatched(Ok(n)))
                &&& (event matches TerminusEvent::Generated { outcome: Ok(Some(n)), request }
                    ==> is_transact(call, request@, n as int))
                &&& call is Some && call->0 is Transact ==> (
                event matches TerminusEvent::Generated { outcome: Ok(Some(n)), request })
            },
{
}

/// What a step of the service loop asks for. The interface gets a command to
/// handle if and only if one was received, and all of it; it gets a response if
/// and only if the Update Agent gave one in this step, that response and all of
/// it; it is asked for its mode if and only if a response was sent, and for a
/// request if and only if it is in update mode or has taken a response, with a
/// buffer of zeros.
pub proof fn law_terminus_action_follows_the_call<'a, R: FdUaRspChannel, Q: FdUaCmdChannel>()
    ensures
        forall|
            device: &mut FirmwareDevice,
            channels: &mut DeviceChannels<'a, R, Q>,
            event: TerminusEvent,
            buf: &mut [u8],
            timeout_millis: u32,
            action: TerminusAction,
        | #[trigger]
            call_ensures(
                FirmwareDevice::run_terminus::<R, Q>,
                (device, channels, event, buf, timeout_millis),
                action,
            ) ==> {
                let call = added(channels.calls(), final(channels).calls());
                &&& (call matches Some(DeviceCall::Recv {
                    timeout_millis: limit,
                    before,
                    after,
                    outcome: Ok(n),
                }) ==> action == (TerminusAction::Dispatch { msg_len: n }))
                &&& (action matches TerminusAction::Dispatch { msg_len } ==> (
                call matches Some(DeviceCall::Recv {
                    timeout_millis: limit,
                    before,
                    after,
                    outcome: Ok(n),
                }) && n == msg_len))
                &&& (call matches Some(DeviceCall::Transact {
                    request,
                    before,
                    after,
                    outcome: Ok(n),
                }) ==> action is Process)
                &&& (action matches TerminusAction::Process { response, resp_len } ==> (
                call matches Some(DeviceCall::Transact { request, before, after, outcome: Ok(n) })
                    && response@ == after && n == resp_len))
                &&& action is CheckMode <==> (call matches Some(DeviceCall::Respond {
                    message,
                    outcome: Ok(_),
                }))
                &&& action is Generate <==> event == (TerminusEvent::Ready { update_mode: true })
                    || (event matches TerminusEvent::Processed(Ok(_)))
                &&& (action matches TerminusAction::Generate { request } ==> call is None
                    && forall|k: int| 0 <= k < 1024 ==> #[trigger] request@[k] == 0)
            },
{
}

/// When a step of the service loop stops: if and only if the call of the step
/// failed, with its error, or the interface failed, with its reason and without
/// a call.
pub proof fn law_terminus_stops_on_failure_only<'a, R: FdUaRspChannel, Q: FdUaCmdChannel>()
    ensures
        forall|
            device: &mut FirmwareDevice,
            channels: &mut DeviceChannels<'a, R, Q>,
            event: TerminusEvent,
            buf: &mut [u8],
            timeout_millis: u32,
            action: TerminusAction,
        | #[trigger]
            call_ensures(
                FirmwareDevice::run_terminus::<R, Q>,
                (device, channels, event, buf, timeout_millis),
                action,
            ) ==> {
                let call = added(channels.calls(), final(channels).calls());
                let failed = match call {
                    Some(
                        DeviceCall::Recv { timeout_millis: limit, before, after, outcome: Err(e) },
                    ) => Some(e),
                    Some(DeviceCall::Respond { message, outcome: Err(e) }) => Some(e),
                    Some(DeviceCall::Transact { request, before, after, outcome: Err(e) }) => Some(
                        e,
                    ),
                    _ => None,
                };
                let refused = match event {
                    TerminusEvent::Generated { outcome: Err(reason), request } => Some(reason),
                    TerminusEvent::Processed(Err(reason)) => Some(reason),
                    TerminusEvent::Dispatched(Err(reason)) => Some(reason),
                    _ => None,
                };
                &&& action is Stop <==> failed is Some || refused is Some
                &&& (failed matches Some(e) ==> action == TerminusAction::Stop(e))
                &&& (refused matches Some(reason) ==> call is None && action
                    == TerminusAction::Stop(PldmServiceError::MsgHandler(reason)))
            },
{
}

/// A receive decides in the service loop: a command of `n` bytes is handled, all
/// of it, and a failure stops the service with its error.
pub proof fn law_received_command_is_handled_whole(
    received: Result<usize, PldmServiceError>,
    action: TerminusAction,
)
    requires
        call_ensures(FirmwareDevice::after_recv, (received,), action),
    ensures
        received matches Ok(n) ==> (action matches TerminusAction::Dispatch { msg_len } && msg_len
            == n),
        received matches Err(e) ==> action == TerminusAction::Stop(e),
{
}

/// A command cycle can be entered with every answer of the interface whose
/// length lies in the buffer that it speaks of.
pub proof fn law_cycle_takes_every_answer<'a, R: FdUaRspChannel, Q: FdUaCmdChannel>()
    ensures
        forall|
            device: &mut FirmwareDevice,
            channels: &mut DeviceChannels<'a, R, Q>,
            event: CycleEvent,
            buf: &mut [u8],
            timeout_millis: u32,
        |
            {
                &&& (event matches CycleEvent::Dispatched(Ok(n)) ==> n <= buf@.len())
                &&& (event matches CycleEvent::Generated { outcome: Ok(Some(n)), request } ==> n
                    <= 1024)
            } ==> #[trigger] call_requires(
                FirmwareDevice::run_once::<R, Q>,
                (device, channels, event, buf, timeout_millis),
            ),
{
}

/// A step of a command cycle makes one call at most, and one that the channels
/// allow. Every earlier call stays on record, the channels stay the same, and
/// only a receive changes the buffer, never its length.
pub proof fn law_cycle_makes_one_call_at_most<'a, R: FdUaRspChannel, Q: FdUaCmdChannel>()
    ensures
        forall|
            device: &mut FirmwareDevice,
            channels: &mut DeviceChannels<'a, R, Q>,
            event: CycleEvent,
            buf: &mut [u8],
            timeout_millis: u32,
            action: CycleAction,
        | #[trigger]
            call_ensures(
                FirmwareDevice::run_once::<R, Q>,
                (device, channels, event, buf, timeout_millis),
                action,
            ) ==> {
                let call = added(channels.calls(), final(channels).calls());
                &&& channels.calls().len() <= final(channels).calls().len()
                    <= channels.calls().len() + 1
                &&& forall|k: int|
                    0 <= k < channels.calls().len() ==> #[trigger] final(channels).calls()[k]
                        == channels.calls()[k]
                &&& final(channels).fd_rsp() == channels.fd_rsp()
                &&& final(channels).fw_req() == channels.fw_req()
                &&& final(buf)@.len() == buf@.len()
                &&& call is None ==> final(buf)@ == buf@
                &&& (call matches Some(DeviceCall::Recv {
                    timeout_millis: limit,
                    before,
                    after,
                    outcome,
                }) ==> channels.fd_rsp().may_recv(limit, before, after, outcome))
                &&& (call matches Some(DeviceCall::Respond { message, outcome })
                    ==> channels.fd_rsp().may_respond(message, outcome) && final(buf)@ == buf@)
                &&& (call matches Some(DeviceCall::Transact { request, before, after, outcome })
                    ==> channels.fw_req().may_transact(request, before, after, outcome)
                    && final(buf)@ == buf@)
            },
{
}

/// Which call a step of a command cycle makes. A command is received if and only
/// if the cycle begins; a response is sent if and only if the interface has
/// handled the command, and is what the interface left; the Update Agent is
/// called if and only if the interface has a request, and gets that request.
pub proof fn law_cycle_call_follows_the_answer<'a, R: FdUaRspChannel, Q: FdUaCmdChannel>()
    ensures
        forall|
            device: &mut FirmwareDevice,
            channels: &mut DeviceChannels<'a, R, Q>,
            event: CycleEvent,
            buf: &mut [u8],
            timeout_millis: u32,
            action: CycleAction,
        |
            #![trigger call_ensures(
                FirmwareDevice::run_once::<R, Q>,
                (device, channels, event, buf, timeout_millis),
                action,
            )]
            {
                &&& call_ensures(
                    FirmwareDevice::run_once::<R, Q>,
                    (device, channels, event, buf, timeout_millis),
                    action,
                )
                &&& (event matches CycleEvent::Dispatched(Ok(n)) ==> n <= buf@.len())
                &&& (event matches CycleEvent::Generated { outcome: Ok(Some(n)), request } ==> n
                    <= 1024)
            } ==> {
                let call = added(channels.calls(), final(channels).calls());
                &&& event is Start ==> is_recv(call, timeout_millis, buf@, final(buf)@)
                &&& call is Some && call->0 is Recv ==> event is Start
                &&& (event matches CycleEvent::Dispatched(Ok(n)) ==> is_respond(
                    call,
                    buf@,
                    n as int,
                ))
                &&& call is Some && call->0 is Respond ==> (
                event matches CycleEvent::Dispatched(Ok(n)))
                &&& (event matches CycleEvent::Generated { outcome: Ok(Some(n)), request }
                    ==> is_transact(call, request@, n as int))
                &&& call is Some && call->0 is Transact ==> (
                event matches CycleEvent::Generated { outcome: Ok(Some(n)), request })
            },
{
}

/// What a step of a command cycle asks for. The interface gets the command to
/// handle if and only if it was received, and all of it; it gets a response if
/// and only if the Update Agent gave one in this step, that response and all of
/// it; it is asked for a request if and only if the command is answered or it has
/// taken a response, with a buffer of zeros. The cycle is done if and only if the
/// interface has no request left.
pub proof fn law_cycle_action_follows_the_call<'a, R: FdUaRspChannel, Q: FdUaCmdChannel>()
    ensures
        forall|
            device: &mut FirmwareDevice,
            channels: &mut DeviceChannels<'a, R, Q>,
            event: CycleEvent,
            buf: &mut [u8],
            timeout_millis: u32,
            action: CycleAction,
        | #[trigger]
            call_ensures(
                FirmwareDevice::run_once::<R, Q>,
                (device, channels, event, buf, timeout_millis),
                action,
            ) ==> {
                let call = added(channels.calls(), final(channels).calls());
                &&& (call matches Some(DeviceCall::Recv {
                    timeout_millis: limit,
                    before,
                    after,
                    outcome: Ok(n),
                }) ==> action == (CycleAction::Dispatch { msg_len: n }))
                &&& (action matches CycleAction::Dispatch { msg_len } ==> (
                call matches Some(DeviceCall::Recv {
                    timeout_millis: limit,
                    before,
                    after,
                    outcome: Ok(n),
                }) && n == msg_len))
                &&& (call matches Some(DeviceCall::Transact {
                    request,
                    before,
                    after,
                    outcome: Ok(n),
                }) ==> action is Process)
                &&& (action matches CycleAction::Process { response, resp_len } ==> (
                call matches Some(DeviceCall::Transact { request, before, after, outcome: Ok(n) })
                    && response@ == after && n == resp_len))
                &&& action is Generate <==> (call matches Some(DeviceCall::Respond {
                    message,
                    outcome: Ok(_),
                })) || (event matches CycleEvent::Processed(Ok(_)))
                &&& (action matches CycleAction::Generate { request } ==> forall|k: int|
                    0 <= k < 1024 ==> #[trigger] request@[k] == 0)
                &&& (event matches CycleEvent::Processed(_) ==> call is None)
                &&& action is Done <==> (event matches CycleEvent::Generated {
                    outcome: Ok(None),
                    request,
                })
                &&& action is Done ==> call is None
            },
{
}

/// When a step of a command cycle stops: if and only if the call of the step
/// failed, with its error, or the interface failed, with its reason and without
/// a call.
pub proof fn law_cycle_stops_on_failure_only<'a, R: FdUaRspChannel, Q: FdUaCmdChannel>()
    ensures
        forall|
            device: &mut FirmwareDevice,
            channels: &mut DeviceChannels<'a, R, Q>,
            event: CycleEvent,
            buf: &mut [u8],
            timeout_millis: u32,
            action: CycleAction,
        | #[trigger]
            call_ensures(
                FirmwareDevice::run_once::<R, Q>,
                (device, channels, event, buf, timeout_millis),
                action,
            ) ==> {
                let call = added(channels.calls(), final(channels).calls());
                let failed = match call {
                    Some(
                        DeviceCall::Recv { timeout_millis: limit, before, after, outcome: Err(e) },
                    ) => Some(e),
                    Some(DeviceCall::Respond { message, outcome: Err(e) }) => Some(e),
                    Some(DeviceCall::Transact { request, before, after, outcome: Err(e) }) => Some(
                        e,
                    ),
                    _ => None,
                };
                let refused = match event {
                    CycleEvent::Generated { outcome: Err(reason), request } => Some(reason),
                    CycleEvent::Processed(Err(reason)) => Some(reason),
                    CycleEvent::Dispatched(Err(reason)) => Some(reason),
                    _ => None,
                };
                &&& action is Stop <==> failed is Some || refused is Some
                &&& (failed matches Some(e) ==> action == CycleAction::Stop(e))
                &&& (refused matches Some(reason) ==> call is None && action == CycleAction::Stop(
                    PldmServiceError::MsgHandler(reason),
                ))
            },
{
}

} // verus!
