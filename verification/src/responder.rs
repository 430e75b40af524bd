//! PLDM responder that processes incoming PLDM-over-MCTP messages.
//!
//! MCTP delivers only the PLDM bytes, without a framing byte. The responder has
//! them received into `buf[1..]` and sets `buf[0]` before it hands the message
//! to the firmware device ([`PldmResponder::run_responder`]) or to a handler
//! ([`PldmResponder::run_handler`]). The PLDM response, again without its framing
//! byte, is then sent back from `buf[1..resp_len]`.

use vstd::prelude::*;

#[allow(unused_imports)]
use crate::calls::CommandCall;
use crate::calls::CommandChannel;
use crate::error::PldmServiceError;
use crate::firmware_device::{blank_buffer, UaFdCmdChannel};
use crate::frame::{frame_in_place, message};

verus! {

/// The MCTP message-type value used for PLDM.
pub const PLDM_MSG_TYPE: u8 = 0x01;

/// What the MCTP transport has done for the responder.
#[derive(Debug, PartialEq, Eq)]
pub enum ResponderEvent {
    /// A message is to be handled.
    Start,
    /// A PLDM message of the given length has been received into `buf[1..]`, or
    /// the receive failed.
    Received(Result<usize, PldmServiceError>),
    /// The response has been sent, or sending it failed.
    Replied(Result<(), PldmServiceError>),
}

/// What the MCTP transport is to do next for the responder.
#[derive(Debug, PartialEq, Eq)]
pub enum ResponderAction {
    /// Receive one PLDM message into `buf[1..]`.
    Receive { timeout_millis: u32 },
    /// Send `buf[1..resp_len]` back to the sender of the message.
    Reply { resp_len: usize },
    /// The message has been handled.
    Done,
    /// The service has failed.
    Stop(PldmServiceError),
}

/// What has been done for a message that a handler answers.
#[derive(Debug, PartialEq, Eq)]
pub enum HandlerEvent {
    /// A message is to be handled.
    Start,
    /// A PLDM message of the given length has been received into `buf[1..]`, or
    /// the receive failed.
    Received(Result<usize, PldmServiceError>),
    /// The handler has left its response at the start of the buffer and given its
    /// total length, framing byte included; or it failed.
    Handled(Result<usize, PldmServiceError>),
    /// The response has been sent, or sending it failed.
    Replied(Result<(), PldmServiceError>),
}

/// What is to be done next for a message that a handler answers.
#[derive(Debug, PartialEq, Eq)]
pub enum HandlerAction {
    /// Receive one PLDM message into `buf[1..]`.
    Receive { timeout_millis: u32 },
    /// Let the handler answer the framed message `buf[..msg_len]`.
    Handle { msg_len: usize },
    /// Send `buf[1..resp_len]` back to the sender of the message.
    Reply { resp_len: usize },
    /// The message has been handled.
    Done,
    /// The service has failed.
    Stop(PldmServiceError),
}

/// What follows a handler that ended in `handled`, with a buffer of `buf_len`
/// bytes. A response that has its framing byte and fits the buffer is sent back;
/// any other is an overflow.
pub open spec fn reply_of(
    handled: Result<usize, PldmServiceError>,
    buf_len: nat,
) -> HandlerAction {
    match handled {
        Ok(resp_len) => if 0 < resp_len <= buf_len {
            HandlerAction::Reply { resp_len }
        } else {
            HandlerAction::Stop(PldmServiceError::Overflow)
        },
        Err(e) => HandlerAction::Stop(e),
    }
}

/// One step of the responder with a handler: what came in, the buffer before and
/// after, and what is asked for next.
pub struct HandlerStep {
    pub event: HandlerEvent,
    pub before: Seq<u8>,
    pub after: Seq<u8>,
    pub action: HandlerAction,
}

impl HandlerStep {
    /// What the responder does on the event. A message that fits the buffer is
    /// framed; at any other event the buffer stays as it is.
    pub open spec fn is_step(self, timeout_millis: u32) -> bool {
        match self.event {
            HandlerEvent::Start => {
                &&& self.after == self.before
                &&& self.action == if self.before.len() == 0 {
                    HandlerAction::Stop(PldmServiceError::Overflow)
                } else {
                    HandlerAction::Receive { timeout_millis }
                }
            },
            HandlerEvent::Received(Ok(pldm_len)) => if pldm_len < self.before.len() {
                &&& self.after == self.before.update(0, PLDM_MSG_TYPE)
                &&& self.action == (HandlerAction::Handle { msg_len: (pldm_len + 1) as usize })
            } else {
                &&& self.after == self.before
                &&& self.action == HandlerAction::Stop(PldmServiceError::Overflow)
            },
            HandlerEvent::Handled(handled) => {
                &&& self.after == self.before
                &&& self.action == reply_of(handled, self.before.len())
            },
            HandlerEvent::Replied(Ok(_)) => {
                &&& self.after == self.before
                &&& self.action == HandlerAction::Done
            },
            HandlerEvent::Received(Err(e)) => {
                &&& self.after == self.before
                &&& self.action == HandlerAction::Stop(e)
            },
            HandlerEvent::Replied(Err(e)) => {
                &&& self.after == self.before
                &&& self.action == HandlerAction::Stop(e)
            },
        }
    }
}

/// What the responder makes of the firmware device's answer: of the response
/// buffer `resp` and the `outcome` of the round trip. A response that has its
/// framing byte and fits the buffer takes the place of the message and is sent
/// back; any other is an overflow.
pub open spec fn takes_response(
    resp: Seq<u8>,
    outcome: Result<usize, PldmServiceError>,
    before: Seq<u8>,
    after: Seq<u8>,
    action: ResponderAction,
) -> bool {
    match outcome {
        Ok(resp_len) => if 0 < resp_len <= before.len() {
            &&& after == resp.take(resp_len as int) + before.skip(resp_len as int)
            &&& action == ResponderAction::Reply { resp_len }
        } else {
            &&& after == before
            &&& action == ResponderAction::Stop(PldmServiceError::Overflow)
        },
        Err(e) => {
            &&& after == before
            &&& action == ResponderAction::Stop(e)
        },
    }
}

/// One step of the responder: what came in, the buffer before and after, the
/// channel calls that were made, and what is asked for next.
pub struct ResponderStep {
    pub event: ResponderEvent,
    pub before: Seq<u8>,
    pub after: Seq<u8>,
    pub calls: Seq<CommandCall>,
    pub action: ResponderAction,
}

impl ResponderStep {
    /// No channel is called and the buffer stays as it is.
    pub open spec fn is_silent(self) -> bool {
        &&& self.calls == Seq::<CommandCall>::empty()
        &&& self.after == self.before
    }

    /// The one call forwards the message in the first `pldm_len + 1` bytes of
    /// `framed`, with a blank response buffer, and its outcome decides.
    pub open spec fn forwards(self, framed: Seq<u8>, pldm_len: usize) -> bool {
        &&& self.calls.len() == 1
        &&& self.calls[0].request == framed.take(pldm_len + 1)
        &&& self.calls[0].before == crate::firmware_device::blank()
        &&& takes_response(
            self.calls[0].after,
            self.calls[0].outcome,
            framed,
            self.after,
            self.action,
        )
    }

    /// What the responder does on the event.
    pub open spec fn is_step(self, timeout_millis: u32) -> bool {
        match self.event {
            ResponderEvent::Start => {
                &&& self.is_silent()
                &&& self.action == if self.before.len() == 0 {
                    ResponderAction::Stop(PldmServiceError::Overflow)
                } else {
                    ResponderAction::Receive { timeout_millis }
                }
            },
            ResponderEvent::Received(Ok(pldm_len)) => if pldm_len < self.before.len() {
                self.forwards(self.before.update(0, PLDM_MSG_TYPE), pldm_len)
            } else {
                &&& self.is_silent()
                &&& self.action == ResponderAction::Stop(PldmServiceError::Overflow)
            },
            ResponderEvent::Received(Err(e)) => {
                &&& self.is_silent()
                &&& self.action == ResponderAction::Stop(e)
            },
            ResponderEvent::Replied(Ok(_)) => {
                &&& self.is_silent()
                &&& self.action == ResponderAction::Done
            },
            ResponderEvent::Replied(Err(e)) => {
                &&& self.is_silent()
                &&& self.action == ResponderAction::Stop(e)
            },
        }
    }

    /// A step of the responder over the channel: what it does on the event, every
    /// call ending as the channel allows.
    pub open spec fn is_step_over<U: UaFdCmdChannel>(
        self,
        fd_req: &U,
        timeout_millis: u32,
    ) -> bool {
        &&& self.is_step(timeout_millis)
        &&& self.after.len() == self.before.len()
        &&& forall|i: int|
            0 <= i < self.calls.len() ==> (#[trigger] self.calls[i]).allowed(fd_req)
    }
}

/// PLDM responder service.
pub struct PldmResponder {}

impl PldmResponder {
    /// Create a new PLDM responder.
    pub fn new() -> (responder: Self)
        ensures
            responder == (PldmResponder {  }),
    {
        PldmResponder {  }
    }

    /// What follows a round trip to the firmware device that ended in `outcome`
    /// and left `response` in the response buffer.
    pub fn after_transact(
        response: &[u8],
        outcome: Result<usize, PldmServiceError>,
        buf: &mut [u8],
    ) -> (action: ResponderAction)
        requires
            outcome matches Ok(resp_len) ==> resp_len <= response@.len(),
        ensures
            final(buf)@.len() == old(buf)@.len(),
            takes_response(response@, outcome, old(buf)@, final(buf)@, action),
    {
        match outcome {
            Ok(resp_len) => if 0 < resp_len && resp_len <= buf.len() {
                let ghost before = buf@;
                let mut i: usize = 0;
                while i < resp_len
                    invariant
                        i <= resp_len <= response@.len(),
                        resp_len <= before.len(),
                        buf@ == response@.take(i as int) + before.skip(i as int),
                    decreases resp_len - i,
                {
                    buf[i] = response[i];
                    i = i + 1;
                    assert(buf@ =~= response@.take(i as int) + before.skip(i as int));
                }
                ResponderAction::Reply { resp_len }
            } else {
                ResponderAction::Stop(PldmServiceError::Overflow)
            },
            Err(e) => ResponderAction::Stop(e),
        }
    }

    /// What follows a handler that was given the framed message, left its response
    /// in the same buffer of `buf_len` bytes and ended in `handled`: the total
    /// length of the response, framing byte included.
    pub fn after_handler(handled: Result<usize, PldmServiceError>, buf_len: usize) -> (action:
        HandlerAction)
        ensures
            action == reply_of(handled, buf_len as nat),
    {
        match handled {
            Ok(resp_len) => if 0 < resp_len && resp_len <= buf_len {
                HandlerAction::Reply { resp_len }
            } else {
                HandlerAction::Stop(PldmServiceError::Overflow)
            },
            Err(e) => HandlerAction::Stop(e),
        }
    }

    /// Handle one incoming PLDM message with a handler, up to the next thing that
    /// is to be done for it.
    ///
    /// The message is received and framed, the handler answers it in the same
    /// buffer, and its response is sent back. A `timeout_millis` of `0` blocks
    /// indefinitely.
    pub fn run_handler(&mut self, event: HandlerEvent, buf: &mut [u8], timeout_millis: u32) -> (
    action: HandlerAction)
        ensures
            (HandlerStep {
                event,
                before: old(buf)@,
                after: final(buf)@,
                action,
            }).is_step(timeout_millis),
    {
        match event {
            HandlerEvent::Start => if buf.len() == 0 {
                HandlerAction::Stop(PldmServiceError::Overflow)
            } else {
                HandlerAction::Receive { timeout_millis }
            },
            HandlerEvent::Received(Ok(pldm_len)) => match frame_in_place(buf, pldm_len) {
                Ok(msg_len) => HandlerAction::Handle { msg_len },
                Err(e) => HandlerAction::Stop(e),
            },
            HandlerEvent::Received(Err(e)) => HandlerAction::Stop(e),
            HandlerEvent::Handled(handled) => Self::after_handler(handled, buf.len()),
            HandlerEvent::Replied(Ok(_)) => HandlerAction::Done,
            HandlerEvent::Replied(Err(e)) => HandlerAction::Stop(e),
        }
    }

    /// Handle one incoming PLDM message, up to the next action of the MCTP
    /// transport.
    ///
    /// The message is framed, forwarded to the firmware device over `channel`,
    /// and the device's response is sent back. A `timeout_millis` of `0` blocks
    /// indefinitely.
    pub fn run_responder<U: UaFdCmdChannel>(
        &mut self,
        event: ResponderEvent,
        channel: &mut CommandChannel<U>,
        buf: &mut [u8],
        timeout_millis: u32,
    ) -> (action: ResponderAction)
        ensures
            final(channel).follows(old(channel)),
            (ResponderStep {
                event,
                before: old(buf)@,
                after: final(buf)@,
                calls: final(channel).since(old(channel)),
                action,
            }).is_step_over(old(channel).fd_req(), timeout_millis),
    {
        assert(channel.since(channel) =~= Seq::<CommandCall>::empty());
        assert(channel.calls() =~= channel.calls() + channel.since(channel));
        match event {
            ResponderEvent::Start => if buf.len() == 0 {
                ResponderAction::Stop(PldmServiceError::Overflow)
            } else {
                ResponderAction::Receive { timeout_millis }
            },
            ResponderEvent::Received(Ok(pldm_len)) => match frame_in_place(buf, pldm_len) {
                Ok(_) => match message(buf, pldm_len) {
                    Ok(command) => {
                        let mut response = blank_buffer();
                        let outcome = channel.transact(command, &mut response);
                        Self::after_transact(&response, outcome, buf)
                    },
                    Err(e) => ResponderAction::Stop(e),
                },
                Err(e) => ResponderAction::Stop(e),
            },
            ResponderEvent::Received(Err(e)) => ResponderAction::Stop(e),
            ResponderEvent::Replied(Ok(_)) => ResponderAction::Done,
            ResponderEvent::Replied(Err(e)) => ResponderAction::Stop(e),
        }
    }
}

} // verus!
