//! Recorders: the services reach their IPC channels only through these, and a
//! recorder keeps, in ghost state, the list of every call that was made through
//! it, in order, with its arguments and its outcome.
//!
//! The contracts of the services speak of these lists, and what they say of them
//! is proved. That one call on a channel stands behind each entry is not: a
//! channel's operations take `&self`, so no contract can count them. It holds
//! because the channels and the lists are private to this module, and each of
//! the six functions here that call a channel calls it once and adds one entry,
//! with nothing else in between.

use vstd::prelude::*;

use crate::error::PldmServiceError;
use crate::firmware_device::{FdUaCmdChannel, FdUaRspChannel, UaFdCmdChannel, UaFdRspChannel};

verus! {

/// A call of the firmware device on one of its two channels.
#[allow(inconsistent_fields)]
pub enum DeviceCall {
    /// [`FdUaRspChannel::recv`] with the buffer at `before`, which it left at
    /// `after`.
    Recv {
        timeout_millis: u32,
        before: Seq<u8>,
        after: Seq<u8>,
        outcome: Result<usize, PldmServiceError>,
    },
    /// [`FdUaRspChannel::respond`] with `message`.
    Respond { message: Seq<u8>, outcome: Result<(), PldmServiceError> },
    /// [`FdUaCmdChannel::transact`] with `request` and the response buffer at
    /// `before`, which it left at `after`.
    Transact {
        request: Seq<u8>,
        before: Seq<u8>,
        after: Seq<u8>,
        outcome: Result<usize, PldmServiceError>,
    },
}

impl DeviceCall {
    /// The error that the call ended in, if it failed.
    pub open spec fn failure(self) -> Option<PldmServiceError> {
        match self {
            DeviceCall::Recv { timeout_millis, before, after, outcome: Err(e) } => Some(e),
            DeviceCall::Respond { message, outcome: Err(e) } => Some(e),
            DeviceCall::Transact { request, before, after, outcome: Err(e) } => Some(e),
            _ => None,
        }
    }

    /// Whether the channels allow the call to end as it did.
    pub open spec fn allowed<R: FdUaRspChannel, Q: FdUaCmdChannel>(
        self,
        fd_rsp: &R,
        fw_req: &Q,
    ) -> bool {
        match self {
            DeviceCall::Recv { timeout_millis, before, after, outcome } => {
                &&& after.len() == before.len()
                &&& outcome matches Ok(n) ==> n <= before.len()
                &&& fd_rsp.may_recv(timeout_millis, before, after, outcome)
            },
            DeviceCall::Respond { message, outcome } => fd_rsp.may_respond(message, outcome),
            DeviceCall::Transact { request, before, after, outcome } => {
                &&& after.len() == before.len()
                &&& outcome matches Ok(n) ==> n <= before.len()
                &&& fw_req.may_transact(request, before, after, outcome)
            },
        }
    }
}

/// The channels of the firmware device.
pub struct DeviceChannels<'a, R: FdUaRspChannel, Q: FdUaCmdChannel> {
    fd_rsp: &'a R,
    fw_req: &'a Q,
    calls: Ghost<Seq<DeviceCall>>,
}

impl<'a, R: FdUaRspChannel, Q: FdUaCmdChannel> DeviceChannels<'a, R, Q> {
    /// The command channel.
    pub closed spec fn fd_rsp(&self) -> &'a R {
        self.fd_rsp
    }

    /// The Update Agent's channel.
    pub closed spec fn fw_req(&self) -> &'a Q {
        self.fw_req
    }

    /// Every call so far.
    pub closed spec fn calls(&self) -> Seq<DeviceCall> {
        self.calls@
    }

    /// The calls since `earlier`.
    pub open spec fn since(&self, earlier: &Self) -> Seq<DeviceCall> {
        self.calls().skip(earlier.calls().len() as int)
    }

    /// `self` is `earlier` after some more calls on the same channels.
    pub open spec fn follows(&self, earlier: &Self) -> bool {
        &&& self.fd_rsp() == earlier.fd_rsp()
        &&& self.fw_req() == earlier.fw_req()
        &&& self.calls() == earlier.calls() + self.since(earlier)
    }

    /// `self` is `earlier` after the one call `call`.
    pub open spec fn follows_by(&self, earlier: &Self, call: DeviceCall) -> bool {
        &&& self.follows(earlier)
        &&& self.since(earlier) == seq![call]
        &&& call.allowed(earlier.fd_rsp(), earlier.fw_req())
    }

    /// The two channels, with no call made yet.
    pub fn new(fd_rsp: &'a R, fw_req: &'a Q) -> (channels: Self)
        ensures
            channels.fd_rsp() == fd_rsp,
            channels.fw_req() == fw_req,
            channels.calls() == Seq::<DeviceCall>::empty(),
    {
        DeviceChannels { fd_rsp, fw_req, calls: Ghost(Seq::empty()) }
    }

    /// Receive one command into `buf`.
    pub fn recv(&mut self, buf: &mut [u8], timeout_millis: u32) -> (outcome: Result<
        usize,
        PldmServiceError,
    >)
        ensures
            final(buf)@.len() == old(buf)@.len(),
            final(self).follows_by(
                old(self),
                (DeviceCall::Recv {
                    timeout_millis,
                    before: old(buf)@,
                    after: final(buf)@,
                    outcome,
                }),
            ),
    {
        let ghost before = buf@;
        let outcome = self.fd_rsp.recv(buf, timeout_millis);
        self.calls = Ghost(
            self.calls@.push(DeviceCall::Recv { timeout_millis, before, after: buf@, outcome }),
        );
        assert(self.since(old(self)) =~= seq![
            DeviceCall::Recv { timeout_millis, before, after: buf@, outcome },
        ]);
        assert(self.calls() =~= old(self).calls() + self.since(old(self)));
        outcome
    }

    /// Send the response `message`.
    pub fn respond(&mut self, message: &[u8]) -> (outcome: Result<(), PldmServiceError>)
        ensures
            final(self).follows_by(
                old(self),
                (DeviceCall::Respond { message: message@, outcome }),
            ),
    {
        let outcome = self.fd_rsp.respond(message);
        self.calls = Ghost(self.calls@.push(DeviceCall::Respond { message: message@, outcome }));
        assert(self.since(old(self)) =~= seq![DeviceCall::Respond { message: message@, outcome }]);
        assert(self.calls() =~= old(self).calls() + self.since(old(self)));
        outcome
    }

    /// Send `request` to the Update Agent and receive its response into
    /// `response`.
    pub fn transact(&mut self, request: &[u8], response: &mut [u8]) -> (outcome: Result<
        usize,
        PldmServiceError,
    >)
        ensures
            final(response)@.len() == old(response)@.len(),
            final(self).follows_by(
                old(self),
                (DeviceCall::Transact {
                    request: request@,
                    before: old(response)@,
                    after: final(response)@,
                    outcome,
                }),
            ),
    {
        let ghost before = response@;
        let outcome = self.fw_req.transact(request, response);
        self.calls = Ghost(
            self.calls@.push(
                DeviceCall::Transact { request: request@, before, after: response@, outcome },
            ),
        );
        assert(self.since(old(self)) =~= seq![
            DeviceCall::Transact { request: request@, before, after: response@, outcome },
        ]);
        assert(self.calls() =~= old(self).calls() + self.since(old(self)));
        outcome
    }
}

/// A call of the requester on its channel.
#[allow(inconsistent_fields)]
pub enum RequestCall {
    /// [`UaFdRspChannel::recv`] with the buffer at `before`, which it left at
    /// `after`.
    Recv { before: Seq<u8>, after: Seq<u8>, outcome: Result<usize, PldmServiceError> },
    /// [`UaFdRspChannel::respond`] with `message`.
    Respond { message: Seq<u8>, outcome: Result<(), PldmServiceError> },
}

impl RequestCall {
    /// The error that the call ended in, if it failed.
    pub open spec fn failure(self) -> Option<PldmServiceError> {
        match self {
            RequestCall::Recv { before, after, outcome: Err(e) } => Some(e),
            RequestCall::Respond { message, outcome: Err(e) } => Some(e),
            _ => None,
        }
    }

    /// Whether the channel allows the call to end as it did.
    pub open spec fn allowed<R: UaFdRspChannel>(self, fd_req: &R) -> bool {
        match self {
            RequestCall::Recv { before, after, outcome } => {
                &&& after.len() == before.len()
                &&& outcome matches Ok(n) ==> n <= before.len()
                &&& fd_req.may_recv(before, after, outcome)
            },
            RequestCall::Respond { message, outcome } => fd_req.may_respond(message, outcome),
        }
    }
}

/// The channel of the requester.
pub struct RequestChannel<'a, R: UaFdRspChannel> {
    fd_req: &'a R,
    calls: Ghost<Seq<RequestCall>>,
}

impl<'a, R: UaFdRspChannel> RequestChannel<'a, R> {
    /// The channel.
    pub closed spec fn fd_req(&self) -> &'a R {
        self.fd_req
    }

    /// Every call so far.
    pub closed spec fn calls(&self) -> Seq<RequestCall> {
        self.calls@
    }

    /// The calls since `earlier`.
    pub open spec fn since(&self, earlier: &Self) -> Seq<RequestCall> {
        self.calls().skip(earlier.calls().len() as int)
    }

    /// `self` is `earlier` after some more calls on the same channel.
    pub open spec fn follows(&self, earlier: &Self) -> bool {
        &&& self.fd_req() == earlier.fd_req()
        &&& self.calls() == earlier.calls() + self.since(earlier)
    }

    /// `self` is `earlier` after the one call `call`.
    pub open spec fn follows_by(&self, earlier: &Self, call: RequestCall) -> bool {
        &&& self.follows(earlier)
        &&& self.since(earlier) == seq![call]
        &&& call.allowed(earlier.fd_req())
    }

    /// The channel, with no call made yet.
    pub fn new(fd_req: &'a R) -> (channel: Self)
        ensures
            channel.fd_req() == fd_req,
            channel.calls() == Seq::<RequestCall>::empty(),
    {
        RequestChannel { fd_req, calls: Ghost(Seq::empty()) }
    }

    /// Receive one request into `buf`.
    pub fn recv(&mut self, buf: &mut [u8]) -> (outcome: Result<usize, PldmServiceError>)
        ensures
            final(buf)@.len() == old(buf)@.len(),
            final(self).follows_by(
                old(self),
                (RequestCall::Recv { before: old(buf)@, after: final(buf)@, outcome }),
            ),
    {
        let ghost before = buf@;
        let outcome = self.fd_req.recv(buf);
        self.calls = Ghost(self.calls@.push(RequestCall::Recv { before, after: buf@, outcome }));
        assert(self.since(old(self)) =~= seq![RequestCall::Recv { before, after: buf@, outcome }]);
        assert(self.calls() =~= old(self).calls() + self.since(old(self)));
        outcome
    }

    /// Send the response `message`.
    pub fn respond(&mut self, message: &[u8]) -> (outcome: Result<(), PldmServiceError>)
        ensures
            final(self).follows_by(
                old(self),
                (RequestCall::Respond { message: message@, outcome }),
            ),
    {
        let outcome = self.fd_req.respond(message);
        self.calls = Ghost(self.calls@.push(RequestCall::Respond { message: message@, outcome }));
        assert(self.since(old(self)) =~= seq![RequestCall::Respond { message: message@, outcome }]);
        assert(self.calls() =~= old(self).calls() + self.since(old(self)));
        outcome
    }
}

/// A call of the responder on its channel: [`UaFdCmdChannel::transact`] with
/// `request` and the response buffer at `before`, which it left at `after`.
pub struct CommandCall {
    pub request: Seq<u8>,
    pub before: Seq<u8>,
    pub after: Seq<u8>,
    pub outcome: Result<usize, PldmServiceError>,
}

impl CommandCall {
    /// Whether the channel allows the call to end as it did.
    pub open spec fn allowed<U: UaFdCmdChannel>(self, fd_req: &U) -> bool {
        &&& self.after.len() == self.before.len()
        &&& self.outcome matches Ok(n) ==> n <= self.before.len()
        &&& fd_req.may_transact(self.request, self.before, self.after, self.outcome)
    }
}

/// The channel of the responder.
pub struct CommandChannel<'a, U: UaFdCmdChannel> {
    fd_req: &'a U,
    calls: Ghost<Seq<CommandCall>>,
}

impl<'a, U: UaFdCmdChannel> CommandChannel<'a, U> {
    /// The channel.
    pub closed spec fn fd_req(&self) -> &'a U {
        self.fd_req
    }

    /// Every call so far.
    pub closed spec fn calls(&self) -> Seq<CommandCall> {
        self.calls@
    }

    /// The calls since `earlier`.
    pub open spec fn since(&self, earlier: &Self) -> Seq<CommandCall> {
        self.calls().skip(earlier.calls().len() as int)
    }

    /// `self` is `earlier` after some more calls on the same channel.
    pub open spec fn follows(&self, earlier: &Self) -> bool {
        &&& self.fd_req() == earlier.fd_req()
        &&& self.calls() == earlier.calls() + self.since(earlier)
    }

    /// `self` is `earlier` after the one call `call`.
    pub open spec fn follows_by(&self, earlier: &Self, call: CommandCall) -> bool {
        &&& self.follows(earlier)
        &&& self.since(earlier) == seq![call]
        &&& call.allowed(earlier.fd_req())
    }

    /// The channel, with no call made yet.
    pub fn new(fd_req: &'a U) -> (channel: Self)
        ensures
            channel.fd_req() == fd_req,
            channel.calls() == Seq::<CommandCall>::empty(),
    {
        CommandChannel { fd_req, calls: Ghost(Seq::empty()) }
    }

    /// Send `request` to the firmware device and receive its response into
    /// `response`.
    pub fn transact(&mut self, request: &[u8], response: &mut [u8]) -> (outcome: Result<
        usize,
        PldmServiceError,
    >)
        ensures
            final(response)@.len() == old(response)@.len(),
            final(self).follows_by(
                old(self),
                (CommandCall {
                    request: request@,
                    before: old(response)@,
                    after: final(response)@,
                    outcome,
                }),
            ),
    {
        let ghost before = response@;
        let outcome = self.fd_req.transact(request, response);
        self.calls = Ghost(
            self.calls@.push(
                CommandCall { request: request@, before, after: response@, outcome },
            ),
        );
        assert(self.since(old(self)) =~= seq![
            CommandCall { request: request@, before, after: response@, outcome },
        ]);
        assert(self.calls() =~= old(self).calls() + self.since(old(self)));
        outcome
    }
}

} // verus!
