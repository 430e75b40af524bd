//! PLDM requester that sends PLDM messages over MCTP and processes responses.
//!
//! [`PldmRequester`] acts as a PLDM *initiator*. It forwards the raw requests of
//! the firmware device to a remote endpoint ([`PldmRequester::run_requester`]),
//! and it sends the commands that are queued with it
//! ([`PldmRequester::run_once`]). It complements the responder, which handles
//! inbound requests.

use vstd::prelude::*;

#[allow(unused_imports)]
use crate::calls::RequestCall;
use crate::calls::RequestChannel;
use crate::error::PldmServiceError;
use crate::firmware_device::UaFdRspChannel;
use crate::frame::{message, pldm_len};

verus! {

/// One outbound requester command to send on the next
/// [`PldmRequester::run_once`].
#[derive(Copy, Clone, Debug, PartialEq, Eq, Structural)]
pub enum PldmRequesterCommand {
    /// PLDM Base `GetTID` request.
    GetTid,
}

/// What the MCTP transport has done while requests are forwarded.
#[derive(Debug, PartialEq, Eq)]
pub enum RequesterEvent {
    /// Forwarding begins.
    Start,
    /// The request has been sent and its PLDM response, of the given length,
    /// stands in `buf[1..]` behind the framing byte; or the exchange failed.
    Exchanged(Result<usize, PldmServiceError>),
}

/// What the MCTP transport is to do next while requests are forwarded.
#[derive(Debug, PartialEq, Eq)]
pub enum RequesterAction {
    /// Send the `pldm_len` PLDM bytes in `buf[1..]` to `remote_eid` and receive
    /// the response into `buf[1..]`.
    Exchange { remote_eid: u8, pldm_len: usize, timeout_millis: u32 },
    /// The service has failed.
    Stop(PldmServiceError),
}

/// What has been done for a queued command.
#[derive(Debug, PartialEq, Eq)]
pub enum CommandEvent {
    /// The pending command, if there is one, is to be sent.
    Start,
    /// The request, with the given number of PLDM bytes, stands in `buf[1..]`; or
    /// it could not be written.
    Encoded(Result<usize, PldmServiceError>),
    /// The request has been sent and its PLDM response, of the given length,
    /// stands in `buf[1..]`; or the exchange failed.
    Exchanged(Result<usize, PldmServiceError>),
    /// The response has been found valid, or not.
    Validated(Result<(), PldmServiceError>),
}

/// What is to be done next for a queued command.
#[derive(Debug, PartialEq, Eq)]
pub enum CommandAction {
    /// Write the request for `command` into `buf[1..]`, with `instance_id` in its
    /// header.
    Encode { command: PldmRequesterCommand, instance_id: u8 },
    /// Send the `pldm_len` PLDM bytes in `buf[1..]` to `remote_eid` and receive
    /// the response into `buf[1..]`.
    Exchange { remote_eid: u8, pldm_len: usize, timeout_millis: u32 },
    /// Validate the PLDM response of the given length in `buf[1..]`.
    Validate { pldm_resp_len: usize },
    /// Nothing is left to be done.
    Done,
    /// The service has failed.
    Stop(PldmServiceError),
}

/// What follows a receive on the request channel that ended in `received`.
pub open spec fn forward_of(
    received: Result<usize, PldmServiceError>,
    remote_eid: u8,
    timeout_millis: u32,
) -> RequesterAction {
    match received {
        Ok(msg_len) => match crate::frame::pldm_count(msg_len) {
            Ok(pldm_len) => RequesterAction::Exchange { remote_eid, pldm_len, timeout_millis },
            Err(e) => RequesterAction::Stop(e),
        },
        Err(e) => RequesterAction::Stop(e),
    }
}

/// One step of forwarding: what came in, the buffer before and after, the channel
/// calls that were made, in order, and what is asked for next.
pub struct RequesterStep {
    pub event: RequesterEvent,
    pub before: Seq<u8>,
    pub after: Seq<u8>,
    pub calls: Seq<RequestCall>,
    pub action: RequesterAction,
}

impl RequesterStep {
    /// Nothing is called, the buffer stays as it is, and the service stops with
    /// `error`.
    pub open spec fn refuses(self, error: PldmServiceError) -> bool {
        &&& self.calls == Seq::<RequestCall>::empty()
        &&& self.after == self.before
        &&& self.action == RequesterAction::Stop(error)
    }

    /// Call `k`, the last one, is the receive of a request, and its outcome
    /// decides.
    pub open spec fn receives(self, k: int, remote_eid: u8, timeout_millis: u32) -> bool {
        &&& self.calls.len() == k + 1
        &&& self.calls[k] matches RequestCall::Recv { before, after, outcome }
        &&& before == self.before
        &&& after == self.after
        &&& self.action == forward_of(outcome, remote_eid, timeout_millis)
    }

    /// The first call sends the response `message`. A failure stops the service;
    /// otherwise the second call receives the next request.
    pub open spec fn responds(self, message: Seq<u8>, remote_eid: u8, timeout_millis: u32) -> bool {
        &&& self.calls.len() > 0
        &&& self.calls[0] matches RequestCall::Respond { message: sent, outcome }
        &&& sent == message
        &&& match outcome {
            Ok(_) => self.receives(1, remote_eid, timeout_millis),
            Err(e) => {
                &&& self.calls.len() == 1
                &&& self.after == self.before
                &&& self.action == RequesterAction::Stop(e)
            },
        }
    }

    /// What the requester does on the event.
    pub open spec fn is_step(self, remote_eid: u8, timeout_millis: u32) -> bool {
        match self.event {
            RequesterEvent::Start => self.receives(0, remote_eid, timeout_millis),
            RequesterEvent::Exchanged(Ok(pldm_resp_len)) => if pldm_resp_len < self.before.len() {
                self.responds(self.before.take(pldm_resp_len + 1), remote_eid, timeout_millis)
            } else {
                self.refuses(PldmServiceError::Overflow)
            },
            RequesterEvent::Exchanged(Err(e)) => self.refuses(e),
        }
    }

    /// A step of forwarding over the channel: what the requester does on the
    /// event, every call ending as the channel allows.
    pub open spec fn is_step_over<R: UaFdRspChannel>(
        self,
        fd_req: &R,
        remote_eid: u8,
        timeout_millis: u32,
    ) -> bool {
        &&& self.is_step(remote_eid, timeout_millis)
        &&& self.after.len() == self.before.len()
        &&& forall|i: int|
            0 <= i < self.calls.len() ==> (#[trigger] self.calls[i]).allowed(fd_req)
    }
}

/// Whether the calls of a step of forwarding complete an exchange: its response
/// has been delivered.
pub open spec fn completes_exchange(calls: Seq<RequestCall>) -> bool {
    &&& calls.len() > 0
    &&& calls[0] matches RequestCall::Respond { message, outcome: Ok(_) }
}

/// PLDM requester service (initiator mode).
pub struct PldmRequester {
    /// Instance ID stamped into the next outgoing request header. Incremented
    /// (with wraparound) after each completed exchange, so that successive
    /// requests carry distinct instance IDs.
    instance_id: u8,
    /// Pending command to send on the next [`run_once`](Self::run_once).
    pending_command: Option<PldmRequesterCommand>,
}

impl PldmRequester {
    /// The instance ID of the next outgoing request.
    pub closed spec fn next_instance_id(&self) -> u8 {
        self.instance_id
    }

    /// The command that is queued, if there is one.
    pub closed spec fn pending(&self) -> Option<PldmRequesterCommand> {
        self.pending_command
    }

    /// What [`run_once`](Self::run_once) asks for on `event`.
    pub open spec fn command_step(
        &self,
        event: CommandEvent,
        remote_eid: u8,
        timeout_millis: u32,
    ) -> CommandAction {
        match event {
            CommandEvent::Start => match self.pending() {
                Some(command) => CommandAction::Encode {
                    command,
                    instance_id: self.next_instance_id(),
                },
                None => CommandAction::Done,
            },
            CommandEvent::Encoded(Ok(pldm_len)) => CommandAction::Exchange {
                remote_eid,
                pldm_len,
                timeout_millis,
            },
            CommandEvent::Exchanged(Ok(pldm_resp_len)) => CommandAction::Validate {
                pldm_resp_len,
            },
            CommandEvent::Validated(Ok(_)) => CommandAction::Done,
            CommandEvent::Encoded(Err(e)) => CommandAction::Stop(e),
            CommandEvent::Exchanged(Err(e)) => CommandAction::Stop(e),
            CommandEvent::Validated(Err(e)) => CommandAction::Stop(e),
        }
    }

    /// A completed exchange takes the requester from `self` to `done`: nothing is
    /// pending any more, and the instance ID has moved on, with wraparound.
    pub open spec fn completes(&self, done: &Self) -> bool {
        &&& done.pending() is None
        &&& done.next_instance_id() == (self.next_instance_id() + 1) % 256
    }

    /// A step of forwarding that made `calls` takes the requester from `self` to
    /// `next`: the instance ID has moved on, with wraparound, if the step
    /// completed an exchange, and what is queued stays queued.
    pub open spec fn moves_on(&self, calls: Seq<RequestCall>, next: &Self) -> bool {
        &&& next.pending() == self.pending()
        &&& next.next_instance_id() == if completes_exchange(calls) {
            (self.next_instance_id() + 1) % 256
        } else {
            self.next_instance_id() as int
        }
    }

    /// Create a new PLDM requester, with nothing queued.
    pub fn new() -> (requester: Self)
        ensures
            requester.next_instance_id() == 0,
            requester.pending() is None,
    {
        PldmRequester { instance_id: 0, pending_command: None }
    }

    /// Queue a `GetTID` request for the next [`run_once`](Self::run_once).
    pub fn queue_get_tid(&mut self)
        ensures
            final(self).pending() == Some(PldmRequesterCommand::GetTid),
            final(self).next_instance_id() == old(self).next_instance_id(),
    {
        self.pending_command = Some(PldmRequesterCommand::GetTid);
    }

    /// Send the pending command, up to the next thing that is to be done for it.
    ///
    /// The command stays pending until a valid response completes its exchange;
    /// then the instance ID moves on.
    pub fn run_once(&mut self, event: CommandEvent, remote_eid: u8, timeout_millis: u32) -> (action:
        CommandAction)
        ensures
            action == old(self).command_step(event, remote_eid, timeout_millis),
            event matches CommandEvent::Validated(Ok(_)) ==> old(self).completes(final(self)),
            !(event matches CommandEvent::Validated(Ok(_))) ==> *final(self) == *old(self),
    {
        match event {
            CommandEvent::Start => match self.pending_command {
                Some(command) => CommandAction::Encode { command, instance_id: self.instance_id },
                None => CommandAction::Done,
            },
            CommandEvent::Encoded(Ok(pldm_len)) => {
                CommandAction::Exchange { remote_eid, pldm_len, timeout_millis }
            },
            CommandEvent::Exchanged(Ok(pldm_resp_len)) => CommandAction::Validate { pldm_resp_len },
            CommandEvent::Validated(Ok(_)) => {
                self.pending_command = None;
                self.instance_id = self.instance_id.wrapping_add(1);
                CommandAction::Done
            },
            CommandEvent::Encoded(Err(e)) => CommandAction::Stop(e),
            CommandEvent::Exchanged(Err(e)) => CommandAction::Stop(e),
            CommandEvent::Validated(Err(e)) => CommandAction::Stop(e),
        }
    }

    /// What follows a receive on the request channel that ended in `received`.
    pub fn after_recv(
        received: Result<usize, PldmServiceError>,
        remote_eid: u8,
        timeout_millis: u32,
    ) -> (action: RequesterAction)
        ensures
            action == forward_of(received, remote_eid, timeout_millis),
    {
        match received {
            Ok(msg_len) => match pldm_len(msg_len) {
                Ok(pldm_len) => RequesterAction::Exchange { remote_eid, pldm_len, timeout_millis },
                Err(e) => RequesterAction::Stop(e),
            },
            Err(e) => RequesterAction::Stop(e),
        }
    }

    /// Forward raw PLDM requests from the firmware device over MCTP and return
    /// the responses, up to the next action of the MCTP transport.
    ///
    /// In each round the requester:
    /// 1. Receives a framed PLDM request from `fd_req` (`buf[0]` = MCTP type,
    ///    `buf[1..]` = PLDM bytes).
    /// 2. Has it exchanged with `remote_eid`; the response lands in `buf[1..]`.
    /// 3. Responds to `fd_req` with `buf[0..1+pldm_resp_len]`.
    ///
    /// The requests are forwarded as they are. Each delivered response completes an
    /// exchange and moves the instance ID on. Rounds follow each other until
    /// something fails. A `timeout_millis` of `0`
    /// blocks indefinitely on each MCTP exchange.
    pub fn run_requester<R: UaFdRspChannel>(
        &mut self,
        channel: &mut RequestChannel<R>,
        event: RequesterEvent,
        remote_eid: u8,
        buf: &mut [u8],
        timeout_millis: u32,
    ) -> (action: RequesterAction)
        ensures
            old(self).moves_on(final(channel).since(old(channel)), final(self)),
            final(channel).follows(old(channel)),
            (RequesterStep {
                event,
                before: old(buf)@,
                after: final(buf)@,
                calls: final(channel).since(old(channel)),
                action,
            }).is_step_over(old(channel).fd_req(), remote_eid, timeout_millis),
    {
        assert(channel.since(channel) =~= Seq::<RequestCall>::empty());
        assert(channel.calls() =~= channel.calls() + channel.since(channel));
        match event {
            RequesterEvent::Start => {
                let received = channel.recv(buf);
                Self::after_recv(received, remote_eid, timeout_millis)
            },
            RequesterEvent::Exchanged(Ok(pldm_resp_len)) => match message(buf, pldm_resp_len) {
                Ok(response) => match channel.respond(response) {
                    Ok(_) => {
                        self.instance_id = self.instance_id.wrapping_add(1);
                        let ghost responded = channel.since(old(channel));
                        let received = channel.recv(buf);
                        assert(channel.since(old(channel)) =~= responded.push(
                            channel.calls().last(),
                        ));
                        assert(channel.calls() =~= old(channel).calls() + channel.since(
                            old(channel),
                        ));
                        Self::after_recv(received, remote_eid, timeout_millis)
                    },
                    Err(e) => RequesterAction::Stop(e),
                },
                Err(e) => RequesterAction::Stop(e),
            },
            RequesterEvent::Exchanged(Err(e)) => RequesterAction::Stop(e),
        }
    }
}

} // verus!
