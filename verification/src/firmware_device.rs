//! PLDM Firmware Device (FD) service.
//!
//! [`FirmwareDevice`] decides what the device does between two IPC channels:
//!
//! * **`fd_rsp`** receives the framed firmware-update commands that the
//!   responder forwards and sends the responses back.
//! * **`fw_req`** sends the framed requests of the device (such as
//!   `RequestFirmwareData`) to the requester and receives the Update Agent's
//!   responses.
//!
//! The channels are traits, so that the service does not depend on how a
//! platform does IPC. A channel can say what its operations may do (`may_recv`,
//! `may_respond`, `may_transact`); one that says nothing allows every outcome.
//! The contracts of the services speak of these operations by what they may do,
//! and so hold of every channel. A service reaches its channels through a
//! recorder (see [`crate::calls`]), and the contract of each step says exactly
//! which calls it makes.
//!
//! What a command means is decided by the PLDM command interface. The device
//! tells its caller when to ask that interface for something, and the caller
//! comes back with the answer: each call takes an event and returns the next
//! action.

use vstd::prelude::*;
use vstd::slice::slice_subrange;

#[allow(unused_imports)]
use crate::calls::DeviceCall;
use crate::calls::DeviceChannels;
use crate::error::PldmServiceError;

verus! {

/// Maximum PLDM-over-IPC message size (MCTP-type byte and PLDM payload).
pub const FD_IPC_MAX_MSG: usize = 1024;

/// Server-side channel for receiving PLDM firmware-device commands and sending
/// responses back to the caller.
///
/// Implemented by platform-specific IPC glue.
pub trait FdUaRspChannel {
    /// Whether a receive with `timeout_millis`, into a buffer that holds
    /// `before`, may leave `after` in the buffer and end in `outcome`.
    open spec fn may_recv(
        &self,
        timeout_millis: u32,
        before: Seq<u8>,
        after: Seq<u8>,
        outcome: Result<usize, PldmServiceError>,
    ) -> bool {
        true
    }

    /// Whether sending the response `message` may end in `outcome`.
    open spec fn may_respond(
        &self,
        message: Seq<u8>,
        outcome: Result<(), PldmServiceError>,
    ) -> bool {
        true
    }

    /// Receive one incoming PLDM message into `buf`.
    ///
    /// Returns the number of bytes written. `timeout_millis` of `0` blocks
    /// indefinitely; other values are a best-effort hint to the implementation.
    fn recv(&self, buf: &mut [u8], timeout_millis: u32) -> (outcome: Result<
        usize,
        PldmServiceError,
    >)
        ensures
            final(buf)@.len() == old(buf)@.len(),
            outcome matches Ok(n) ==> n <= old(buf)@.len(),
            self.may_recv(timeout_millis, old(buf)@, final(buf)@, outcome),
    ;

    /// Send a PLDM response back through the channel.
    fn respond(&self, buf: &[u8]) -> (outcome: Result<(), PldmServiceError>)
        ensures
            self.may_respond(buf@, outcome),
    ;
}

/// Server-side channel used by [`PldmRequester`] to receive raw PLDM requests
/// forwarded by [`FirmwareDevice`] and send the MCTP response back.
///
/// This is the counterpart of [`FdUaCmdChannel`]: the firmware device calls
/// `FdUaCmdChannel::transact`; the requester's process implements
/// `UaFdRspChannel` on the other end of that same IPC connection.
///
/// [`PldmRequester`]: crate::requester::PldmRequester
pub trait UaFdRspChannel {
    /// Whether a receive into a buffer that holds `before` may leave `after` in
    /// the buffer and end in `outcome`.
    open spec fn may_recv(
        &self,
        before: Seq<u8>,
        after: Seq<u8>,
        outcome: Result<usize, PldmServiceError>,
    ) -> bool {
        true
    }

    /// Whether sending the response `message` may end in `outcome`.
    open spec fn may_respond(
        &self,
        message: Seq<u8>,
        outcome: Result<(), PldmServiceError>,
    ) -> bool {
        true
    }

    /// Receive one raw PLDM request from [`FirmwareDevice`].
    ///
    /// `buf[0]` will be the MCTP message-type byte (`0x01`); `buf[1..]`
    /// contains the PLDM payload. Returns the total number of bytes written
    /// (including the framing byte).
    fn recv(&self, buf: &mut [u8]) -> (outcome: Result<usize, PldmServiceError>)
        ensures
            final(buf)@.len() == old(buf)@.len(),
            outcome matches Ok(n) ==> n <= old(buf)@.len(),
            self.may_recv(old(buf)@, final(buf)@, outcome),
    ;

    /// Send the PLDM response back to [`FirmwareDevice`].
    ///
    /// `buf[0]` must be the MCTP message-type byte; `buf[1..]` must contain
    /// the PLDM response payload.
    fn respond(&self, buf: &[u8]) -> (outcome: Result<(), PldmServiceError>)
        ensures
            self.may_respond(buf@, outcome),
    ;
}

/// Client-side channel for sending PLDM firmware-update requests to the Update
/// Agent and receiving its responses.
///
/// Implemented by platform-specific IPC glue.
pub trait FdUaCmdChannel {
    /// Whether sending `request`, with a response buffer that holds `before`,
    /// may leave `after` in that buffer and end in `outcome`.
    open spec fn may_transact(
        &self,
        request: Seq<u8>,
        before: Seq<u8>,
        after: Seq<u8>,
        outcome: Result<usize, PldmServiceError>,
    ) -> bool {
        true
    }

    /// Perform a synchronous request/response round-trip.
    ///
    /// Sends `req` and blocks until the response arrives, writing it into
    /// `resp`. Returns the number of response bytes written.
    fn transact(&self, req: &[u8], resp: &mut [u8]) -> (outcome: Result<usize, PldmServiceError>)
        ensures
            final(resp)@.len() == old(resp)@.len(),
            outcome matches Ok(n) ==> n <= old(resp)@.len(),
            self.may_transact(req@, old(resp)@, final(resp)@, outcome),
    ;
}

/// Client-side channel for sending PLDM firmware-command requests to the
/// Firmware Device and receiving its responses.
///
/// This is the counterpart of [`FdUaRspChannel`]: the responder calls
/// `UaFdCmdChannel::transact`; the firmware device receives on the other end of
/// that same IPC connection.
///
/// Implemented by platform-specific IPC glue.
pub trait UaFdCmdChannel {
    /// Whether sending `request`, with a response buffer that holds `before`,
    /// may leave `after` in that buffer and end in `outcome`.
    open spec fn may_transact(
        &self,
        request: Seq<u8>,
        before: Seq<u8>,
        after: Seq<u8>,
        outcome: Result<usize, PldmServiceError>,
    ) -> bool {
        true
    }

    /// Perform a synchronous request/response round-trip.
    ///
    /// Sends `req` and blocks until the response arrives, writing it into
    /// `resp`. Returns the number of response bytes written.
    fn transact(&self, req: &[u8], resp: &mut [u8]) -> (outcome: Result<usize, PldmServiceError>)
        ensures
            final(resp)@.len() == old(resp)@.len(),
            outcome matches Ok(n) ==> n <= old(resp)@.len(),
            self.may_transact(req@, old(resp)@, final(resp)@, outcome),
    ;
}

/// What the command interface has answered, in the service loop
/// [`FirmwareDevice::run_terminus`].
#[derive(Debug, PartialEq, Eq)]
pub enum TerminusEvent {
    /// The device is ready for the next command; `update_mode` says whether the
    /// interface is in update mode.
    Ready { update_mode: bool },
    /// The interface has a request pending, of the given length and written at
    /// the start of `request`; or it has none; or it failed.
    Generated { outcome: Result<Option<usize>, String>, request: [u8; FD_IPC_MAX_MSG] },
    /// The interface has taken the Update Agent's response, or failed.
    Processed(Result<(), String>),
    /// The interface has handled the command and left its response, of the given
    /// length, at the start of the buffer; or it failed.
    Dispatched(Result<usize, String>),
}

/// What the command interface is to do next, in the service loop
/// [`FirmwareDevice::run_terminus`].
#[derive(Debug, PartialEq, Eq)]
pub enum TerminusAction {
    /// Ask whether the interface is in update mode.
    CheckMode,
    /// Let the interface write its next request into `request`, if it has one.
    Generate { request: [u8; FD_IPC_MAX_MSG] },
    /// Hand the interface the Update Agent's response: the first `resp_len`
    /// bytes of `response`.
    Process { response: [u8; FD_IPC_MAX_MSG], resp_len: usize },
    /// Let the interface handle the command in the first `msg_len` bytes of the
    /// buffer. Its response may take all of the buffer.
    Dispatch { msg_len: usize },
    /// The service has failed.
    Stop(PldmServiceError),
}

/// What the command interface has answered, in one command cycle
/// [`FirmwareDevice::run_once`].
#[derive(Debug, PartialEq, Eq)]
pub enum CycleEvent {
    /// The cycle begins.
    Start,
    /// The interface has handled the command and left its response, of the given
    /// length, at the start of the buffer; or it failed.
    Dispatched(Result<usize, String>),
    /// The interface has a request pending, of the given length and written at
    /// the start of `request`; or it has none; or it failed.
    Generated { outcome: Result<Option<usize>, String>, request: [u8; FD_IPC_MAX_MSG] },
    /// The interface has taken the Update Agent's response, or failed.
    Processed(Result<(), String>),
}

/// What the command interface is to do next, in one command cycle
/// [`FirmwareDevice::run_once`].
#[derive(Debug, PartialEq, Eq)]
pub enum CycleAction {
    /// Let the interface handle the command in the first `msg_len` bytes of the
    /// buffer. Its response may take all of the buffer.
    Dispatch { msg_len: usize },
    /// Let the interface write its next request into `request`, if it has one.
    Generate { request: [u8; FD_IPC_MAX_MSG] },
    /// Hand the interface the Update Agent's response: the first `resp_len`
    /// bytes of `response`.
    Process { response: [u8; FD_IPC_MAX_MSG], resp_len: usize },
    /// The cycle is complete.
    Done,
    /// The service has failed.
    Stop(PldmServiceError),
}

/// An IPC buffer before anything is written into it.
pub open spec fn blank() -> Seq<u8> {
    Seq::new(FD_IPC_MAX_MSG as nat, |i: int| 0u8)
}

/// A blank IPC buffer.
pub(crate) fn blank_buffer() -> (buf: [u8; FD_IPC_MAX_MSG])
    ensures
        buf@ == blank(),
{
    let buf = [0u8; FD_IPC_MAX_MSG];
    assert(buf@ =~= blank());
    buf
}

/// One step of the device: what came in, the buffer before and after, the channel
/// calls that were made, in order, and what is asked for next.
pub struct DeviceStep<E, A> {
    pub event: E,
    pub before: Seq<u8>,
    pub after: Seq<u8>,
    pub calls: Seq<DeviceCall>,
    pub action: A,
}

impl<E, A> DeviceStep<E, A> {
    /// No channel is called and the buffer stays as it is.
    pub open spec fn is_silent(self) -> bool {
        &&& self.calls == Seq::<DeviceCall>::empty()
        &&& self.after == self.before
    }

    /// The one call is the receive of a command, into the whole buffer.
    pub open spec fn receives(self, timeout_millis: u32) -> bool {
        &&& self.calls.len() == 1
        &&& self.calls[0] matches DeviceCall::Recv {
            timeout_millis: limit,
            before,
            after,
            outcome,
        }
        &&& limit == timeout_millis
        &&& before == self.before
        &&& after == self.after
    }

    /// The one call sends the response `message`.
    pub open spec fn responds(self, message: Seq<u8>) -> bool {
        &&& self.after == self.before
        &&& self.calls.len() == 1
        &&& self.calls[0] matches DeviceCall::Respond { message: sent, outcome }
        &&& sent == message
    }

    /// The one call sends `request` to the Update Agent, with a blank response
    /// buffer.
    pub open spec fn transacts(self, request: Seq<u8>) -> bool {
        &&& self.after == self.before
        &&& self.calls.len() == 1
        &&& self.calls[0] matches DeviceCall::Transact { request: sent, before, after, outcome }
        &&& sent == request
        &&& before == blank()
    }

    /// Every call ends as its channel allows, and the buffer keeps its length.
    pub open spec fn is_over<R: FdUaRspChannel, Q: FdUaCmdChannel>(
        self,
        fd_rsp: &R,
        fw_req: &Q,
    ) -> bool {
        &&& self.after.len() == self.before.len()
        &&& forall|i: int|
            0 <= i < self.calls.len() ==> (#[trigger] self.calls[i]).allowed(fd_rsp, fw_req)
    }
}

/// One step of the service loop.
pub type TerminusStep = DeviceStep<TerminusEvent, TerminusAction>;

/// One step of a command cycle.
pub type CycleStep = DeviceStep<CycleEvent, CycleAction>;

/// What follows a receive on the command channel in the service loop.
pub open spec fn dispatch_of(received: Result<usize, PldmServiceError>) -> TerminusAction {
    match received {
        Ok(msg_len) => TerminusAction::Dispatch { msg_len },
        Err(e) => TerminusAction::Stop(e),
    }
}

impl TerminusEvent {
    /// Whether the lengths that the interface reports lie in their buffers.
    pub open spec fn fits(self, buf_len: nat) -> bool {
        match self {
            TerminusEvent::Dispatched(Ok(resp_len)) => resp_len <= buf_len,
            TerminusEvent::Generated { outcome: Ok(Some(req_len)), request } => req_len
                <= FD_IPC_MAX_MSG,
            _ => true,
        }
    }

    /// The reason that the interface gives, if it failed.
    pub open spec fn interface_failure(self) -> Option<String> {
        match self {
            TerminusEvent::Generated { outcome: Err(reason), request } => Some(reason),
            TerminusEvent::Processed(Err(reason)) => Some(reason),
            TerminusEvent::Dispatched(Err(reason)) => Some(reason),
            _ => None,
        }
    }
}

impl DeviceStep<TerminusEvent, TerminusAction> {
    /// A command is received. A failure stops the service; a command goes to the
    /// interface.
    pub open spec fn takes_command(self, timeout_millis: u32) -> bool {
        &&& self.receives(timeout_millis)
        &&& self.action == dispatch_of(self.calls[0]->Recv_outcome)
    }

    /// `request` goes to the Update Agent. A failure stops the service; a
    /// response goes to the interface.
    pub open spec fn exchanges(self, request: Seq<u8>) -> bool {
        &&& self.transacts(request)
        &&& match self.calls[0]->Transact_outcome {
            Ok(n) => {
                &&& self.action matches TerminusAction::Process { response, resp_len }
                &&& response@ == self.calls[0]->Transact_after
                &&& resp_len == n
            },
            Err(e) => self.action == TerminusAction::Stop(e),
        }
    }

    /// The response `message` is sent. A failure stops the service.
    pub open spec fn answers(self, message: Seq<u8>) -> bool {
        &&& self.responds(message)
        &&& self.action == match self.calls[0]->Respond_outcome {
            Ok(_) => TerminusAction::CheckMode,
            Err(e) => TerminusAction::Stop(e),
        }
    }

    /// Nothing is called, and the interface is asked for its next request.
    pub open spec fn asks_for_request(self) -> bool {
        &&& self.is_silent()
        &&& self.action matches TerminusAction::Generate { request }
        &&& request@ == blank()
    }

    /// Nothing is called, and the service stops because the interface failed.
    pub open spec fn rejects(self, reason: String) -> bool {
        &&& self.is_silent()
        &&& self.action == TerminusAction::Stop(PldmServiceError::MsgHandler(reason))
    }

    /// What the device does on the event.
    pub open spec fn is_step(self, timeout_millis: u32) -> bool {
        match self.event {
            TerminusEvent::Ready { update_mode: true } => self.asks_for_request(),
            TerminusEvent::Ready { update_mode: false } => self.takes_command(timeout_millis),
            TerminusEvent::Generated { outcome: Ok(Some(req_len)), request } => self.exchanges(
                request@.take(req_len as int),
            ),
            TerminusEvent::Generated { outcome: Ok(None), request } => self.takes_command(
                timeout_millis,
            ),
            TerminusEvent::Generated { outcome: Err(reason), request } => self.rejects(reason),
            TerminusEvent::Processed(Ok(_)) => self.asks_for_request(),
            TerminusEvent::Processed(Err(reason)) => self.rejects(reason),
            TerminusEvent::Dispatched(Ok(resp_len)) => self.answers(
                self.before.take(resp_len as int),
            ),
            TerminusEvent::Dispatched(Err(reason)) => self.rejects(reason),
        }
    }

    /// A step of the service loop over the two channels.
    pub open spec fn is_step_over<R: FdUaRspChannel, Q: FdUaCmdChannel>(
        self,
        fd_rsp: &R,
        fw_req: &Q,
        timeout_millis: u32,
    ) -> bool {
        &&& self.is_step(timeout_millis)
        &&& self.is_over(fd_rsp, fw_req)
    }
}

impl CycleEvent {
    /// Whether the lengths that the interface reports lie in their buffers.
    pub open spec fn fits(self, buf_len: nat) -> bool {
        match self {
            CycleEvent::Dispatched(Ok(resp_len)) => resp_len <= buf_len,
            CycleEvent::Generated { outcome: Ok(Some(req_len)), request } => req_len
                <= FD_IPC_MAX_MSG,
            _ => true,
        }
    }

    /// The reason that the interface gives, if it failed.
    pub open spec fn interface_failure(self) -> Option<String> {
        match self {
            CycleEvent::Generated { outcome: Err(reason), request } => Some(reason),
            CycleEvent::Processed(Err(reason)) => Some(reason),
            CycleEvent::Dispatched(Err(reason)) => Some(reason),
            _ => None,
        }
    }
}

impl DeviceStep<CycleEvent, CycleAction> {
    /// The command is received. A failure stops the service; a command goes to
    /// the interface.
    pub open spec fn takes_command(self, timeout_millis: u32) -> bool {
        &&& self.receives(timeout_millis)
        &&& self.action == match self.calls[0]->Recv_outcome {
            Ok(msg_len) => CycleAction::Dispatch { msg_len },
            Err(e) => CycleAction::Stop(e),
        }
    }

    /// The response `message` is sent. A failure stops the service; otherwise the
    /// interface is asked for its next request.
    pub open spec fn answers(self, message: Seq<u8>) -> bool {
        &&& self.responds(message)
        &&& match self.calls[0]->Respond_outcome {
            Ok(_) => self.asks_for_request(),
            Err(e) => self.action == CycleAction::Stop(e),
        }
    }

    /// `request` goes to the Update Agent. A failure stops the service; a
    /// response goes to the interface.
    pub open spec fn exchanges(self, request: Seq<u8>) -> bool {
        &&& self.transacts(request)
        &&& match self.calls[0]->Transact_outcome {
            Ok(n) => {
                &&& self.action matches CycleAction::Process { response, resp_len }
                &&& response@ == self.calls[0]->Transact_after
                &&& resp_len == n
            },
            Err(e) => self.action == CycleAction::Stop(e),
        }
    }

    /// The interface is asked for its next request.
    pub open spec fn asks_for_request(self) -> bool {
        self.action matches CycleAction::Generate { request } && request@ == blank()
    }

    /// Nothing is called, and the service stops because the interface failed.
    pub open spec fn rejects(self, reason: String) -> bool {
        &&& self.is_silent()
        &&& self.action == CycleAction::Stop(PldmServiceError::MsgHandler(reason))
    }

    /// What the device does on the event.
    pub open spec fn is_step(self, timeout_millis: u32) -> bool {
        match self.event {
            CycleEvent::Start => self.takes_command(timeout_millis),
            CycleEvent::Dispatched(Ok(resp_len)) => self.answers(
                self.before.take(resp_len as int),
            ),
            CycleEvent::Dispatched(Err(reason)) => self.rejects(reason),
            CycleEvent::Generated { outcome: Ok(Some(req_len)), request } => self.exchanges(
                request@.take(req_len as int),
            ),
            CycleEvent::Generated { outcome: Ok(None), request } => {
                &&& self.is_silent()
                &&& self.action == CycleAction::Done
            },
            CycleEvent::Generated { outcome: Err(reason), request } => self.rejects(reason),
            CycleEvent::Processed(Ok(_)) => {
                &&& self.is_silent()
                &&& self.asks_for_request()
            },
            CycleEvent::Processed(Err(reason)) => self.rejects(reason),
        }
    }

    /// A step of a command cycle over the two channels.
    pub open spec fn is_step_over<R: FdUaRspChannel, Q: FdUaCmdChannel>(
        self,
        fd_rsp: &R,
        fw_req: &Q,
        timeout_millis: u32,
    ) -> bool {
        &&& self.is_step(timeout_millis)
        &&& self.is_over(fd_rsp, fw_req)
    }
}

/// PLDM firmware device service.
pub struct FirmwareDevice {}

impl FirmwareDevice {
    /// Create a new firmware device.
    ///
    /// The command interface that answers its actions should advertise at least
    /// the firmware-update type, so that it accepts and routes firmware-update
    /// commands.
    pub fn init() -> (device: Self)
        ensures
            device == (FirmwareDevice {  }),
    {
        FirmwareDevice {  }
    }

    /// What follows a receive on the command channel that ended in `received`.
    pub fn after_recv(received: Result<usize, PldmServiceError>) -> (action: TerminusAction)
        ensures
            action == dispatch_of(received),
    {
        match received {
            Ok(msg_len) => TerminusAction::Dispatch { msg_len },
            Err(e) => TerminusAction::Stop(e),
        }
    }

    /// Run the service loop up to the next action of the command interface.
    ///
    /// The device receives one command, has it handled and sends the response.
    /// Then, if the interface is in update mode, every request that it has
    /// pending goes to the Update Agent, and each response back to the
    /// interface. When no more requests are pending, the next command is
    /// received; and so on until something fails.
    ///
    /// `buf` holds the command and then its response. A `timeout_millis` of `0`
    /// blocks indefinitely on each receive.
    pub fn run_terminus<R: FdUaRspChannel, Q: FdUaCmdChannel>(
        &mut self,
        channels: &mut DeviceChannels<R, Q>,
        event: TerminusEvent,
        buf: &mut [u8],
        timeout_millis: u32,
    ) -> (action: TerminusAction)
        requires
            event.fits(old(buf)@.len()),
        ensures
            final(channels).follows(old(channels)),
            (DeviceStep {
                event,
                before: old(buf)@,
                after: final(buf)@,
                calls: final(channels).since(old(channels)),
                action,
            }).is_step_over(old(channels).fd_rsp(), old(channels).fw_req(), timeout_millis),
    {
        proof {
            lemma_no_call(channels);
        }
        match event {
            TerminusEvent::Ready { update_mode } => if update_mode {
                TerminusAction::Generate { request: blank_buffer() }
            } else {
                let received = channels.recv(buf, timeout_millis);
                Self::after_recv(received)
            },
            TerminusEvent::Generated { outcome: Ok(Some(req_len)), request } => {
                let mut response = blank_buffer();
                let pending = slice_subrange(&request, 0, req_len);
                match channels.transact(pending, &mut response) {
                    Ok(resp_len) => TerminusAction::Process { response, resp_len },
                    Err(e) => TerminusAction::Stop(e),
                }
            },
            TerminusEvent::Generated { outcome: Ok(None), request: _ } => {
                let received = channels.recv(buf, timeout_millis);
                Self::after_recv(received)
            },
            TerminusEvent::Generated { outcome: Err(reason), request: _ } => {
                TerminusAction::Stop(PldmServiceError::MsgHandler(reason))
            },
            TerminusEvent::Processed(Ok(_)) => {
                TerminusAction::Generate { request: blank_buffer() }
            },
            TerminusEvent::Processed(Err(reason)) => {
                TerminusAction::Stop(PldmServiceError::MsgHandler(reason))
            },
            TerminusEvent::Dispatched(Ok(resp_len)) => {
                let response = slice_subrange(buf, 0, resp_len);
                match channels.respond(response) {
                    Ok(_) => TerminusAction::CheckMode,
                    Err(e) => TerminusAction::Stop(e),
                }
            },
            TerminusEvent::Dispatched(Err(reason)) => {
                TerminusAction::Stop(PldmServiceError::MsgHandler(reason))
            },
        }
    }

    /// Run one full command cycle up to the next action of the command
    /// interface.
    ///
    /// 1. Inbound: receive one command, have it handled and send the response.
    /// 2. Outbound: while the interface has a request pending, send it to the
    ///    Update Agent and hand the response to the interface. Stop when no more
    ///    requests are pending.
    pub fn run_once<R: FdUaRspChannel, Q: FdUaCmdChannel>(
        &mut self,
        channels: &mut DeviceChannels<R, Q>,
        event: CycleEvent,
        buf: &mut [u8],
        timeout_millis: u32,
    ) -> (action: CycleAction)
        requires
            event.fits(old(buf)@.len()),
        ensures
            final(channels).follows(old(channels)),
            (DeviceStep {
                event,
                before: old(buf)@,
                after: final(buf)@,
                calls: final(channels).since(old(channels)),
                action,
            }).is_step_over(old(channels).fd_rsp(), old(channels).fw_req(), timeout_millis),
    {
        proof {
            lemma_no_call(channels);
        }
        match event {
            CycleEvent::Start => match channels.recv(buf, timeout_millis) {
                Ok(msg_len) => CycleAction::Dispatch { msg_len },
                Err(e) => CycleAction::Stop(e),
            },
            CycleEvent::Dispatched(Ok(resp_len)) => {
                let response = slice_subrange(buf, 0, resp_len);
                match channels.respond(response) {
                    Ok(_) => CycleAction::Generate { request: blank_buffer() },
                    Err(e) => CycleAction::Stop(e),
                }
            },
            CycleEvent::Dispatched(Err(reason)) => {
                CycleAction::Stop(PldmServiceError::MsgHandler(reason))
            },
            CycleEvent::Generated { outcome: Ok(Some(req_len)), request } => {
                let mut response = blank_buffer();
                let pending = slice_subrange(&request, 0, req_len);
                match channels.transact(pending, &mut response) {
                    Ok(resp_len) => CycleAction::Process { response, resp_len },
                    Err(e) => CycleAction::Stop(e),
                }
            },
            CycleEvent::Generated { outcome: Ok(None), request: _ } => CycleAction::Done,
            CycleEvent::Generated { outcome: Err(reason), request: _ } => {
                CycleAction::Stop(PldmServiceError::MsgHandler(reason))
            },
            CycleEvent::Processed(Ok(_)) => CycleAction::Generate { request: blank_buffer() },
            CycleEvent::Processed(Err(reason)) => {
                CycleAction::Stop(PldmServiceError::MsgHandler(reason))
            },
        }
    }
}

/// Where no call is made, the list of calls stays as it is.
proof fn lemma_no_call<'a, R: FdUaRspChannel, Q: FdUaCmdChannel>(
    channels: &DeviceChannels<'a, R, Q>,
)
    ensures
        channels.follows(channels),
        channels.since(channels) == Seq::<DeviceCall>::empty(),
{
    assert(channels.since(channels) =~= Seq::<DeviceCall>::empty());
    assert(channels.calls() =~= channels.calls() + channels.since(channels));
}

} // verus!
