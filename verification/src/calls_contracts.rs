//! What each recorder does with a call: the channel is called with what the
//! recorder was given, what comes back is what the channel gave, and the record
//! grows by that call.

use vstd::prelude::*;

#[allow(unused_imports)]
use crate::calls::{
    CommandCall, CommandChannel, DeviceCall, DeviceChannels, RequestCall, RequestChannel,
};
#[allow(unused_imports)]
use crate::error::PldmServiceError;
use crate::firmware_device::{FdUaCmdChannel, FdUaRspChannel, UaFdCmdChannel, UaFdRspChannel};

verus! {

/// A record starts empty, over the channels that were given.
pub proof fn law_records_start_empty<
    'a,
    R: FdUaRspChannel,
    Q: FdUaCmdChannel,
    S: UaFdRspChannel,
    U: UaFdCmdChannel,
>()
    ensures
        forall|fd_rsp: &'a R, fw_req: &'a Q, channels: DeviceChannels<'a, R, Q>| #[trigger]
            call_ensures(DeviceChannels::<'a, R, Q>::new, (fd_rsp, fw_req), channels) ==> {
                &&& channels.calls().len() == 0
                &&& channels.fd_rsp() == fd_rsp
                &&& channels.fw_req() == fw_req
            },
        forall|fd_req: &'a S, channel: RequestChannel<'a, S>| #[trigger]
            call_ensures(RequestChannel::<'a, S>::new, (fd_req,), channel) ==> {
                &&& channel.calls().len() == 0
                &&& channel.fd_req() == fd_req
            },
        forall|fd_req: &'a U, channel: CommandChannel<'a, U>| #[trigger]
            call_ensures(CommandChannel::<'a, U>::new, (fd_req,), channel) ==> {
                &&& channel.calls().len() == 0
                &&& channel.fd_req() == fd_req
            },
{
}

/// A receive of a command is one on the command channel, into the whole buffer and
/// with the timeout that was given.
pub proof fn law_command_receive_is_recorded<'a, R: FdUaRspChannel, Q: FdUaCmdChannel>()
    ensures
        forall|
            channels: &mut DeviceChannels<'a, R, Q>,
            buf: &mut [u8],
            timeout_millis: u32,
            outcome: Result<usize, PldmServiceError>,
        | #[trigger]
            call_ensures(
                DeviceChannels::<'a, R, Q>::recv,
                (channels, buf, timeout_millis),
                outcome,
            ) ==> {
                &&& channels.fd_rsp().may_recv(timeout_millis, buf@, final(buf)@, outcome)
                &&& final(buf)@.len() == buf@.len()
                &&& outcome matches Ok(n) ==> n <= buf@.len()
                &&& final(channels).calls() =~= channels.calls().push(
                    DeviceCall::Recv {
                        timeout_millis,
                        before: buf@,
                        after: final(buf)@,
                        outcome,
                    },
                )
                &&& final(channels).fd_rsp() == channels.fd_rsp()
                &&& final(channels).fw_req() == channels.fw_req()
            },
{
}

/// A response to a command is one on the command channel, of the whole message.
pub proof fn law_command_response_is_recorded<'a, R: FdUaRspChannel, Q: FdUaCmdChannel>()
    ensures
        forall|
            channels: &mut DeviceChannels<'a, R, Q>,
            message: &[u8],
            outcome: Result<(), PldmServiceError>,
        | #[trigger]
            call_ensures(DeviceChannels::<'a, R, Q>::respond, (channels, message), outcome) ==> {
                &&& channels.fd_rsp().may_respond(message@, outcome)
                &&& final(channels).calls() =~= channels.calls().push(
                    DeviceCall::Respond { message: message@, outcome },
                )
                &&& final(channels).fd_rsp() == channels.fd_rsp()
                &&& final(channels).fw_req() == channels.fw_req()
            },
{
}

/// A request to the Update Agent is one on its channel, of the whole request and
/// with the whole response buffer.
pub proof fn law_agent_request_is_recorded<'a, R: FdUaRspChannel, Q: FdUaCmdChannel>()
    ensures
        forall|
            channels: &mut DeviceChannels<'a, R, Q>,
            request: &[u8],
            response: &mut [u8],
            outcome: Result<usize, PldmServiceError>,
        | #[trigger]
            call_ensures(
                DeviceChannels::<'a, R, Q>::transact,
                (channels, request, response),
                outcome,
            ) ==> {
                &&& channels.fw_req().may_transact(request@, response@, final(response)@, outcome)
                &&& final(response)@.len() == response@.len()
                &&& outcome matches Ok(n) ==> n <= response@.len()
                &&& final(channels).calls() =~= channels.calls().push(
                    DeviceCall::Transact {
                        request: request@,
                        before: response@,
                        after: final(response)@,
                        outcome,
                    },
                )
                &&& final(channels).fd_rsp() == channels.fd_rsp()
                &&& final(channels).fw_req() == channels.fw_req()
            },
{
}

/// A receive of a request is one on the channel, into the whole buffer.
pub proof fn law_request_receive_is_recorded<'a, R: UaFdRspChannel>()
    ensures
        forall|
            channel: &mut RequestChannel<'a, R>,
            buf: &mut [u8],
            outcome: Result<usize, PldmServiceError>,
        | #[trigger]
            call_ensures(RequestChannel::<'a, R>::recv, (channel, buf), outcome) ==> {
                &&& channel.fd_req().may_recv(buf@, final(buf)@, outcome)
                &&& final(buf)@.len() == buf@.len()
                &&& outcome matches Ok(n) ==> n <= buf@.len()
                &&& final(channel).calls() =~= channel.calls().push(
                    RequestCall::Recv { before: buf@, after: final(buf)@, outcome },
                )
                &&& final(channel).fd_req() == channel.fd_req()
            },
{
}

/// A response to a request is one on the channel, of the whole message.
pub proof fn law_request_response_is_recorded<'a, R: UaFdRspChannel>()
    ensures
        forall|
            channel: &mut RequestChannel<'a, R>,
            message: &[u8],
            outcome: Result<(), PldmServiceError>,
        | #[trigger]
            call_ensures(RequestChannel::<'a, R>::respond, (channel, message), outcome) ==> {
                &&& channel.fd_req().may_respond(message@, outcome)
                &&& final(channel).calls() =~= channel.calls().push(
                    RequestCall::Respond { message: message@, outcome },
                )
                &&& final(channel).fd_req() == channel.fd_req()
            },
{
}

/// A forwarded command is one on the channel, of the whole command and with the
/// whole response buffer.
pub proof fn law_forwarded_command_is_recorded<'a, U: UaFdCmdChannel>()
    ensures
        forall|
            channel: &mut CommandChannel<'a, U>,
            request: &[u8],
            response: &mut [u8],
            outcome: Result<usize, PldmServiceError>,
        | #[trigger]
            call_ensures(
                CommandChannel::<'a, U>::transact,
                (channel, request, response),
                outcome,
            ) ==> {
                &&& channel.fd_req().may_transact(request@, response@, final(response)@, outcome)
                &&& final(response)@.len() == response@.len()
                &&& outcome matches Ok(n) ==> n <= response@.len()
                &&& final(channel).calls() =~= channel.calls().push(
                    CommandCall {
                        request: request@,
                        before: response@,
                        after: final(response)@,
                        outcome,
                    },
                )
                &&& final(channel).fd_req() == channel.fd_req()
            },
{
}

} // verus!
