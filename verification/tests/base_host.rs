//! End-to-end host test wiring:
//! UA command -> PldmResponder -> FirmwareDevice -> PldmRequester -> remote UA
//! all via in-memory channels/transports.

use std::cell::{Cell, RefCell};

use openprot_pldm_service::calls::{CommandChannel, DeviceChannels, RequestChannel};
use openprot_pldm_service::firmware_device::{
    FdUaCmdChannel, FdUaRspChannel, FirmwareDevice, TerminusAction, TerminusEvent, UaFdCmdChannel,
    UaFdRspChannel,
};
use openprot_pldm_service::frame::payload;
use openprot_pldm_service::requester::{RequesterAction, RequesterEvent};
use openprot_pldm_service::responder::{ResponderAction, ResponderEvent};
use openprot_pldm_service::{PldmRequester, PldmResponder, PldmServiceError};

const FD_EID: u8 = 42;
const UA_EID: u8 = 8;
const TIMEOUT_MILLIS: u32 = 0;

/// One direction of an in-memory MCTP link: PLDM messages and where they go.
struct Link {
    messages: RefCell<Vec<(u8, Vec<u8>)>>,
}

impl Link {
    fn new() -> Self {
        Link {
            messages: RefCell::new(Vec::new()),
        }
    }

    fn send(&self, eid: u8, pldm: &[u8]) {
        self.messages.borrow_mut().push((eid, pldm.to_vec()));
    }

    fn recv(&self, eid: u8, buf: &mut [u8]) -> Result<usize, PldmServiceError> {
        let mut messages = self.messages.borrow_mut();
        if messages.is_empty() || messages[0].0 != eid {
            return Err(PldmServiceError::Mctp("timed out".to_string()));
        }
        let (_, pldm) = messages.remove(0);
        if pldm.len() > buf.len() {
            return Err(PldmServiceError::Overflow);
        }
        buf[..pldm.len()].copy_from_slice(&pldm);
        Ok(pldm.len())
    }
}

struct OneShotUaFdRsp {
    req: RefCell<Option<Vec<u8>>>,
    resp: RefCell<Option<Vec<u8>>>,
    served: Cell<bool>,
}

impl OneShotUaFdRsp {
    fn new() -> Self {
        Self {
            req: RefCell::new(None),
            resp: RefCell::new(None),
            served: Cell::new(false),
        }
    }

    fn load_req(&self, req: &[u8]) {
        *self.req.borrow_mut() = Some(req.to_vec());
        *self.resp.borrow_mut() = None;
        self.served.set(false);
    }

    fn take_resp(&self) -> Result<Vec<u8>, PldmServiceError> {
        self.resp.borrow_mut().take().ok_or(PldmServiceError::Ipc)
    }
}

impl UaFdRspChannel for OneShotUaFdRsp {
    fn recv(&self, buf: &mut [u8]) -> Result<usize, PldmServiceError> {
        if self.served.get() {
            return Err(PldmServiceError::Ipc);
        }

        let req = self.req.borrow_mut().take().ok_or(PldmServiceError::Ipc)?;
        if req.len() > buf.len() {
            return Err(PldmServiceError::Overflow);
        }

        buf[..req.len()].copy_from_slice(&req);
        self.served.set(true);
        Ok(req.len())
    }

    fn respond(&self, buf: &[u8]) -> Result<(), PldmServiceError> {
        *self.resp.borrow_mut() = Some(buf.to_vec());
        Ok(())
    }
}

struct OneShotFdRsp {
    req: RefCell<Option<Vec<u8>>>,
    resp: RefCell<Option<Vec<u8>>>,
    served: Cell<bool>,
}

impl OneShotFdRsp {
    fn new() -> Self {
        Self {
            req: RefCell::new(None),
            resp: RefCell::new(None),
            served: Cell::new(false),
        }
    }

    fn load_req(&self, req: &[u8]) {
        *self.req.borrow_mut() = Some(req.to_vec());
        *self.resp.borrow_mut() = None;
        self.served.set(false);
    }

    fn take_resp(&self) -> Result<Vec<u8>, PldmServiceError> {
        self.resp.borrow_mut().take().ok_or(PldmServiceError::Ipc)
    }
}

impl FdUaRspChannel for OneShotFdRsp {
    fn recv(&self, buf: &mut [u8], _timeout_millis: u32) -> Result<usize, PldmServiceError> {
        if self.served.get() {
            return Err(PldmServiceError::Ipc);
        }

        let req = self.req.borrow_mut().take().ok_or(PldmServiceError::Ipc)?;
        if req.len() > buf.len() {
            return Err(PldmServiceError::Overflow);
        }

        buf[..req.len()].copy_from_slice(&req);
        self.served.set(true);
        Ok(req.len())
    }

    fn respond(&self, buf: &[u8]) -> Result<(), PldmServiceError> {
        *self.resp.borrow_mut() = Some(buf.to_vec());
        Ok(())
    }
}

/// Stands for the PLDM command interface: it keeps a terminus ID, and it can be
/// put into update mode, where it asks for four bytes of firmware.
struct FakeInterface {
    tid: u8,
    update_mode: bool,
    firmware: Vec<u8>,
}

impl FakeInterface {
    fn is_update_mode(&self) -> bool {
        self.update_mode
    }

    fn generate_initiator_request(&mut self, buf: &mut [u8]) -> Result<Option<usize>, String> {
        if !self.update_mode {
            return Ok(None);
        }
        buf[0] = 0x01;
        buf[1] = 0x80;
        buf[2] = 0x05;
        buf[3] = 0x15;
        Ok(Some(4))
    }

    fn process_initiator_response(&mut self, buf: &[u8]) -> Result<(), String> {
        if buf.len() != 9 || buf[0] != 0x01 || buf[3] != 0x15 || buf[4] != 0 {
            return Err("unexpected response".to_string());
        }
        self.firmware.extend_from_slice(&buf[5..9]);
        self.update_mode = false;
        Ok(())
    }

    fn handle_responder_msg(&mut self, buf: &mut [u8], msg_len: usize) -> Result<usize, String> {
        if msg_len != 5 || buf[0] != 0x01 || buf[1] & 0x80 == 0 || buf[3] != 0x01 {
            return Err("not a SetTID request".to_string());
        }
        self.tid = buf[4];
        // The response header keeps the instance ID; then the completion code.
        buf[1] &= 0x1f;
        buf[4] = 0;
        Ok(5)
    }
}

/// Answers each request with its header, a completion code and four bytes.
fn fake_remote_ua(req: &[u8]) -> Vec<u8> {
    vec![req[0] & 0x1f, req[1], req[2], 0, 0xa0, 0xa1, 0xa2, 0xa3]
}

struct FdToRequesterBridge<'a> {
    chan: &'a OneShotUaFdRsp,
    requester: &'a RefCell<PldmRequester>,
    requester_buf: &'a RefCell<[u8; 1024]>,
    sent: &'a Link,
    remote_eid: u8,
}

impl FdToRequesterBridge<'_> {
    fn run_requester(&self) -> Result<(), PldmServiceError> {
        let mut requester = self.requester.borrow_mut();
        let mut buf = self.requester_buf.borrow_mut();
        let mut channel = RequestChannel::new(self.chan);
        let mut event = RequesterEvent::Start;
        loop {
            match requester.run_requester(
                &mut channel,
                event,
                self.remote_eid,
                &mut buf[..],
                TIMEOUT_MILLIS,
            ) {
                RequesterAction::Exchange {
                    remote_eid,
                    pldm_len,
                    timeout_millis,
                } => {
                    assert_eq!(timeout_millis, TIMEOUT_MILLIS);
                    self.sent.send(remote_eid, &buf[1..1 + pldm_len]);
                    let resp = fake_remote_ua(&buf[1..1 + pldm_len]);
                    buf[0] = 0x01;
                    buf[1..1 + resp.len()].copy_from_slice(&resp);
                    event = RequesterEvent::Exchanged(Ok(resp.len()));
                }
                RequesterAction::Stop(e) => return Err(e),
            }
        }
    }
}

impl FdUaCmdChannel for FdToRequesterBridge<'_> {
    fn transact(&self, req: &[u8], resp: &mut [u8]) -> Result<usize, PldmServiceError> {
        self.chan.load_req(req);
        match self.run_requester() {
            Ok(()) | Err(PldmServiceError::Ipc) => {}
            Err(e) => return Err(e),
        }

        let bridged_resp = self.chan.take_resp()?;
        if bridged_resp.len() > resp.len() {
            return Err(PldmServiceError::Overflow);
        }
        resp[..bridged_resp.len()].copy_from_slice(&bridged_resp);
        Ok(bridged_resp.len())
    }
}

struct ResponderToFdBridge<'a, T: FdUaCmdChannel> {
    chan: &'a OneShotFdRsp,
    fd: &'a RefCell<FirmwareDevice>,
    interface: &'a RefCell<FakeInterface>,
    fw_req: &'a T,
    fd_buf: &'a RefCell<[u8; 1024]>,
}

impl<T: FdUaCmdChannel> ResponderToFdBridge<'_, T> {
    fn run_terminus(&self) -> Result<(), PldmServiceError> {
        let mut fd = self.fd.borrow_mut();
        let mut interface = self.interface.borrow_mut();
        let mut buf = self.fd_buf.borrow_mut();
        let mut channels = DeviceChannels::new(self.chan, self.fw_req);
        let mut event = TerminusEvent::Ready {
            update_mode: interface.is_update_mode(),
        };
        loop {
            event = match fd.run_terminus(&mut channels, event, &mut buf[..], TIMEOUT_MILLIS) {
                TerminusAction::CheckMode => TerminusEvent::Ready {
                    update_mode: interface.is_update_mode(),
                },
                TerminusAction::Generate { mut request } => TerminusEvent::Generated {
                    outcome: interface.generate_initiator_request(&mut request),
                    request,
                },
                TerminusAction::Process { response, resp_len } => TerminusEvent::Processed(
                    interface.process_initiator_response(&response[..resp_len]),
                ),
                TerminusAction::Dispatch { msg_len } => TerminusEvent::Dispatched(
                    interface.handle_responder_msg(&mut buf[..], msg_len),
                ),
                TerminusAction::Stop(e) => return Err(e),
            };
        }
    }
}

impl<T: FdUaCmdChannel> UaFdCmdChannel for ResponderToFdBridge<'_, T> {
    fn transact(&self, req: &[u8], resp: &mut [u8]) -> Result<usize, PldmServiceError> {
        self.chan.load_req(req);
        match self.run_terminus() {
            Ok(()) | Err(PldmServiceError::Ipc) => {}
            Err(e) => return Err(e),
        }

        let out = self.chan.take_resp()?;
        if out.len() > resp.len() {
            return Err(PldmServiceError::Overflow);
        }
        resp[..out.len()].copy_from_slice(&out);
        Ok(out.len())
    }
}

fn run_responder(
    responder: &mut PldmResponder,
    ua_to_fd: &Link,
    fd_to_ua: &Link,
    bridge: &impl UaFdCmdChannel,
    buf: &mut [u8],
) -> Result<(), PldmServiceError> {
    let mut channel = CommandChannel::new(bridge);
    let mut event = ResponderEvent::Start;
    loop {
        event = match responder.run_responder(event, &mut channel, buf, TIMEOUT_MILLIS) {
            ResponderAction::Receive { timeout_millis } => {
                assert_eq!(timeout_millis, TIMEOUT_MILLIS);
                ResponderEvent::Received(ua_to_fd.recv(FD_EID, &mut buf[1..]))
            }
            ResponderAction::Reply { resp_len } => {
                let pldm = payload(buf, resp_len)?;
                fd_to_ua.send(UA_EID, pldm);
                ResponderEvent::Replied(Ok(()))
            }
            ResponderAction::Done => return Ok(()),
            ResponderAction::Stop(e) => return Err(e),
        };
    }
}

/// Sends SetTID with the given TID through the whole chain. Gives the response,
/// the interface, and what the requester sent.
fn run_chain(update_mode: bool, ua_req: &[u8]) -> (Vec<u8>, FakeInterface, Vec<(u8, Vec<u8>)>) {
    // In-memory MCTP endpoints: UA client side and FD responder side.
    let ua_to_fd = Link::new();
    let fd_to_ua = Link::new();
    let requester_to_ua = Link::new();

    let requester_bridge_chan = OneShotUaFdRsp::new();
    let fd_rsp_bridge_chan = OneShotFdRsp::new();

    let requester = RefCell::new(PldmRequester::new());
    let requester_buf = RefCell::new([0u8; 1024]);
    let fd_to_req_bridge = FdToRequesterBridge {
        chan: &requester_bridge_chan,
        requester: &requester,
        requester_buf: &requester_buf,
        sent: &requester_to_ua,
        remote_eid: FD_EID,
    };

    let fd = RefCell::new(FirmwareDevice::init());
    let interface = RefCell::new(FakeInterface {
        tid: 0,
        update_mode,
        firmware: Vec::new(),
    });
    let fd_buf = RefCell::new([0u8; 1024]);
    let responder_bridge = ResponderToFdBridge {
        chan: &fd_rsp_bridge_chan,
        fd: &fd,
        interface: &interface,
        fw_req: &fd_to_req_bridge,
        fd_buf: &fd_buf,
    };

    let mut responder = PldmResponder::new();
    let mut responder_buf = [0u8; 1024];

    // Run one full UA->FD->UA request/response roundtrip.
    ua_to_fd.send(FD_EID, ua_req);
    run_responder(
        &mut responder,
        &ua_to_fd,
        &fd_to_ua,
        &responder_bridge,
        &mut responder_buf,
    )
    .expect("responder should forward and reply");

    let mut ua_resp_payload = [0u8; 1024];
    let payload_size = fd_to_ua
        .recv(UA_EID, &mut ua_resp_payload)
        .expect("request_update response should be available");
    let sent = requester_to_ua.messages.borrow().clone();
    (
        ua_resp_payload[..payload_size].to_vec(),
        interface.into_inner(),
        sent,
    )
}

#[test]
fn base_full_chain_via_pldm_responder() {
    // SetTID request: header with instance 0, base type, command code, TID.
    let set_tid = [0x80, 0x00, 0x01, 0x42];
    let (ua_resp_payload, interface, sent) = run_chain(false, &set_tid);
    assert!(
        ua_resp_payload.len() >= 4,
        "response should include PLDM header and completion code"
    );
    assert_eq!(
        ua_resp_payload[3], 0,
        "request_update completion code should be success"
    );
    assert_eq!(ua_resp_payload, vec![0x00, 0x00, 0x01, 0x00]);
    assert_eq!(interface.tid, 0x42);
    assert!(sent.is_empty());
}

#[test]
fn full_chain_in_update_mode_goes_through_the_requester() {
    let set_tid = [0x83, 0x00, 0x01, 0x07];
    let (ua_resp_payload, interface, sent) = run_chain(true, &set_tid);
    assert_eq!(ua_resp_payload, vec![0x03, 0x00, 0x01, 0x00]);
    assert_eq!(interface.tid, 0x07);
    assert_eq!(interface.firmware, vec![0xa0, 0xa1, 0xa2, 0xa3]);
    // The request travels without its framing byte, and once.
    assert_eq!(sent, vec![(FD_EID, vec![0x80, 0x05, 0x15])]);
}
