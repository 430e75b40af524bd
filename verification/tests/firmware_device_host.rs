//! The firmware device against a scripted command queue and a pseudo Update
//! Agent.

use std::cell::{Cell, RefCell};

use openprot_pldm_service::calls::DeviceChannels;
use openprot_pldm_service::firmware_device::{
    CycleAction, CycleEvent, FdUaCmdChannel, FdUaRspChannel, FirmwareDevice, TerminusAction,
    TerminusEvent, FD_IPC_MAX_MSG,
};
use openprot_pldm_service::PldmServiceError;

/// Scripted command queue.
struct ScriptedFdRsp {
    /// Queue of outbound (UA to FD) commands
    commands: RefCell<Vec<Vec<u8>>>,
    /// Captured responses from FD
    responses: RefCell<Vec<Vec<u8>>>,
    /// Current command index
    cmd_index: Cell<usize>,
    /// The timeouts that were asked for
    timeouts: RefCell<Vec<u32>>,
    /// Every call, in order
    calls: RefCell<Vec<&'static str>>,
    /// What the next respond gives back, if not success
    respond_fails: Cell<bool>,
}

impl ScriptedFdRsp {
    fn new() -> Self {
        Self {
            commands: RefCell::new(Vec::new()),
            responses: RefCell::new(Vec::new()),
            cmd_index: Cell::new(0),
            timeouts: RefCell::new(Vec::new()),
            calls: RefCell::new(Vec::new()),
            respond_fails: Cell::new(false),
        }
    }

    fn queue_command(&self, cmd: &[u8]) {
        self.commands.borrow_mut().push(cmd.to_vec());
    }
}

impl FdUaRspChannel for ScriptedFdRsp {
    fn recv(&self, buf: &mut [u8], timeout_millis: u32) -> Result<usize, PldmServiceError> {
        self.timeouts.borrow_mut().push(timeout_millis);
        self.calls.borrow_mut().push("recv");
        let cmds = self.commands.borrow();
        let idx = self.cmd_index.get();

        if idx >= cmds.len() {
            // No more commands, signal end of test
            return Err(PldmServiceError::Ipc);
        }

        let cmd = &cmds[idx];
        if buf.len() < cmd.len() {
            return Err(PldmServiceError::Overflow);
        }

        buf[..cmd.len()].copy_from_slice(cmd);
        self.cmd_index.set(idx + 1);
        Ok(cmd.len())
    }

    fn respond(&self, buf: &[u8]) -> Result<(), PldmServiceError> {
        self.calls.borrow_mut().push("respond");
        if self.respond_fails.get() {
            return Err(PldmServiceError::Ipc);
        }
        self.responses.borrow_mut().push(buf.to_vec());
        Ok(())
    }
}

/// Pseudo Update Agent.
struct PseudoUa {
    /// Mock firmware image
    image: [u8; 1024],
    /// Track request count
    request_count: Cell<usize>,
    /// The length of the last request
    request_len: Cell<usize>,
}

impl PseudoUa {
    fn new() -> Self {
        let mut image = [0u8; 1024];
        // Fill with deterministic pattern
        for (i, byte) in image.iter_mut().enumerate() {
            *byte = (i % 256) as u8;
        }
        Self {
            image,
            request_count: Cell::new(0),
            request_len: Cell::new(0),
        }
    }
}

impl FdUaCmdChannel for PseudoUa {
    fn transact(&self, req: &[u8], resp: &mut [u8]) -> Result<usize, PldmServiceError> {
        // buf[0] = MCTP type, buf[1..] = PLDM payload
        if req.len() < 2 {
            return Err(PldmServiceError::InvalidLength);
        }

        let pldm_req = &req[1..]; // Skip MCTP byte

        // [hdr(8 bytes)][offset(4)][length(4)]
        if pldm_req.len() < 16 {
            return Err(PldmServiceError::InvalidLength);
        }

        let offset =
            u32::from_le_bytes([pldm_req[8], pldm_req[9], pldm_req[10], pldm_req[11]]) as usize;
        let length =
            u32::from_le_bytes([pldm_req[12], pldm_req[13], pldm_req[14], pldm_req[15]]) as usize;

        self.request_count.set(self.request_count.get() + 1);
        self.request_len.set(req.len());

        // Build response: success code + requested image data
        resp[0] = 0x01; // MCTP type
        resp[1..9].copy_from_slice(&pldm_req[..8]);
        resp[9] = 0; // Completion code: success

        let slice_len = (length).min(self.image.len() - offset);
        resp[10..10 + slice_len].copy_from_slice(&self.image[offset..offset + slice_len]);

        Ok(10 + slice_len)
    }
}

const REQUEST_UPDATE: u8 = 0x10;
const PASS_COMPONENT_TABLE: u8 = 0x13;
const UPDATE_COMPONENT: u8 = 0x14;
const REQUEST_FIRMWARE_DATA: u8 = 0x15;
const TRANSFER_COMPLETE: u8 = 0x16;
const VERIFY_COMPLETE: u8 = 0x17;
const APPLY_COMPLETE: u8 = 0x18;
const ACTIVATE_FIRMWARE: u8 = 0x1a;
const GET_STATUS: u8 = 0x1b;

/// Stands for the PLDM command interface over a device that accepts every
/// component: it downloads 1024 bytes in steps of 512, then verifies and applies
/// them on command.
struct FakeInterface {
    component_accepted: bool,
    downloading: bool,
    received: Vec<u8>,
    verified: bool,
    applied: bool,
    activated: bool,
}

impl FakeInterface {
    fn new() -> Self {
        FakeInterface {
            component_accepted: false,
            downloading: false,
            received: Vec::new(),
            verified: false,
            applied: false,
            activated: false,
        }
    }

    fn is_update_mode(&self) -> bool {
        self.downloading
    }

    /// Writes the next request, if there is one, and gives its length.
    fn generate(&mut self, buf: &mut [u8]) -> Option<usize> {
        if !self.downloading {
            return None;
        }
        buf[0] = 0x01;
        buf[1] = 0x80;
        buf[2] = 0x05;
        buf[3] = REQUEST_FIRMWARE_DATA;
        buf[9..13].copy_from_slice(&(self.received.len() as u32).to_le_bytes());
        buf[13..17].copy_from_slice(&512u32.to_le_bytes());
        Some(17)
    }

    fn process(&mut self, buf: &[u8]) -> Result<(), String> {
        if buf[0] != 0x01 || buf[3] != REQUEST_FIRMWARE_DATA || buf[9] != 0 {
            return Err("unexpected response".to_string());
        }
        self.received.extend_from_slice(&buf[10..522]);
        self.downloading = self.received.len() < 1024;
        Ok(())
    }

    fn handle_responder_msg(&mut self, buf: &mut [u8]) -> Result<usize, String> {
        match buf[3] {
            REQUEST_UPDATE | GET_STATUS => {}
            PASS_COMPONENT_TABLE => self.component_accepted = true,
            UPDATE_COMPONENT => self.downloading = true,
            TRANSFER_COMPLETE => assert_eq!(self.received.len(), 1024),
            VERIFY_COMPLETE => self.verified = true,
            APPLY_COMPLETE => self.applied = true,
            ACTIVATE_FIRMWARE => self.activated = true,
            _ => return Err("unsupported command".to_string()),
        }
        buf[1] &= 0x1f;
        buf[4] = 0;
        Ok(5)
    }
}

fn command(code: u8) -> [u8; 5] {
    [0x01, 0x80, 0x05, code, 0xff]
}

fn run_terminus(
    fd: &mut FirmwareDevice,
    interface: &mut FakeInterface,
    fd_rsp: &ScriptedFdRsp,
    fw_req: &impl FdUaCmdChannel,
    buf: &mut [u8],
    timeout_millis: u32,
) -> Result<(), PldmServiceError> {
    let mut channels = DeviceChannels::new(fd_rsp, fw_req);
    let mut event = TerminusEvent::Ready {
        update_mode: interface.is_update_mode(),
    };
    loop {
        event = match fd.run_terminus(&mut channels, event, buf, timeout_millis) {
            TerminusAction::CheckMode => TerminusEvent::Ready {
                update_mode: interface.is_update_mode(),
            },
            TerminusAction::Generate { mut request } => {
                assert_eq!(request, [0u8; FD_IPC_MAX_MSG]);
                let pending = interface.generate(&mut request);
                TerminusEvent::Generated {
                    outcome: Ok(pending),
                    request,
                }
            }
            TerminusAction::Process { response, resp_len } => {
                assert_eq!(resp_len, 522);
                TerminusEvent::Processed(interface.process(&response[..resp_len]))
            }
            TerminusAction::Dispatch { msg_len } => {
                TerminusEvent::Dispatched(interface.handle_responder_msg(&mut buf[..msg_len]))
            }
            TerminusAction::Stop(e) => return Err(e),
        };
    }
}

fn run_once(
    fd: &mut FirmwareDevice,
    interface: &mut FakeInterface,
    fd_rsp: &ScriptedFdRsp,
    fw_req: &impl FdUaCmdChannel,
    buf: &mut [u8],
) -> Result<(), PldmServiceError> {
    let mut channels = DeviceChannels::new(fd_rsp, fw_req);
    let mut event = CycleEvent::Start;
    loop {
        event = match fd.run_once(&mut channels, event, buf, 0) {
            CycleAction::Dispatch { msg_len } => {
                CycleEvent::Dispatched(interface.handle_responder_msg(&mut buf[..msg_len]))
            }
            CycleAction::Generate { mut request } => {
                let pending = interface.generate(&mut request);
                CycleEvent::Generated {
                    outcome: Ok(pending),
                    request,
                }
            }
            CycleAction::Process { response, resp_len } => {
                assert_eq!(resp_len, 522);
                CycleEvent::Processed(interface.process(&response[..resp_len]))
            }
            CycleAction::Done => return Ok(()),
            CycleAction::Stop(e) => return Err(e),
        };
    }
}

#[test]
fn firmware_device_update_flow() {
    let scripted_rsp = ScriptedFdRsp::new();
    let pseudo_ua = PseudoUa::new();

    let mut fd = FirmwareDevice::init();
    let mut fake_ops = FakeInterface::new();
    let mut buf = [0u8; 1024];

    // The device downloads the whole image between UpdateComponent and
    // TransferComplete.
    for code in [
        REQUEST_UPDATE,
        PASS_COMPONENT_TABLE,
        UPDATE_COMPONENT,
        TRANSFER_COMPLETE,
        VERIFY_COMPLETE,
        APPLY_COMPLETE,
        ACTIVATE_FIRMWARE,
        GET_STATUS,
    ] {
        scripted_rsp.queue_command(&command(code));
    }

    // Run FD loop until scripted commands are exhausted
    loop {
        match run_terminus(&mut fd, &mut fake_ops, &scripted_rsp, &pseudo_ua, &mut buf, 0) {
            Ok(()) => {}
            Err(PldmServiceError::Ipc) => break, // End of script
            Err(e) => panic!("FD error: {:?}", e),
        }
    }

    // Assert test expectations
    assert!(fake_ops.component_accepted, "component should be accepted");
    assert_eq!(fake_ops.received.len(), 1024, "should receive full image");
    assert!(fake_ops.verified, "verification should succeed");
    assert!(fake_ops.applied, "application should succeed");
    assert_eq!(pseudo_ua.request_count.get(), 2, "should request firmware data twice");

    // Check response sequence
    let responses = scripted_rsp.responses.borrow();
    assert!(responses.len() >= 8, "should produce responses for each command");
    assert_eq!(responses.len(), 8);
    assert_eq!(responses[0], vec![0x01, 0x00, 0x05, REQUEST_UPDATE, 0x00]);
    assert_eq!(responses[6], vec![0x01, 0x00, 0x05, ACTIVATE_FIRMWARE, 0x00]);
    assert_eq!(responses[7], vec![0x01, 0x00, 0x05, GET_STATUS, 0x00]);
    assert!(fake_ops.activated);
    assert_eq!(fake_ops.received, pseudo_ua.image.to_vec());
    // What is sent is the request and nothing behind it.
    assert_eq!(pseudo_ua.request_len.get(), 17);
    // Receives and responses take turns, up to the receive that failed.
    let calls = scripted_rsp.calls.borrow();
    assert_eq!(calls.len(), 17);
    for (i, call) in calls.iter().enumerate() {
        assert_eq!(*call, if i % 2 == 0 { "recv" } else { "respond" });
    }
}

#[test]
fn cycle_drains_every_pending_request() {
    let scripted_rsp = ScriptedFdRsp::new();
    let pseudo_ua = PseudoUa::new();
    let mut fd = FirmwareDevice::init();
    let mut interface = FakeInterface::new();
    let mut buf = [0u8; 1024];
    for code in [REQUEST_UPDATE, UPDATE_COMPONENT, TRANSFER_COMPLETE] {
        scripted_rsp.queue_command(&command(code));
    }

    assert_eq!(run_once(&mut fd, &mut interface, &scripted_rsp, &pseudo_ua, &mut buf), Ok(()));
    assert_eq!(scripted_rsp.responses.borrow().len(), 1);
    assert_eq!(pseudo_ua.request_count.get(), 0);

    assert_eq!(run_once(&mut fd, &mut interface, &scripted_rsp, &pseudo_ua, &mut buf), Ok(()));
    assert_eq!(scripted_rsp.responses.borrow().len(), 2);
    assert_eq!(pseudo_ua.request_count.get(), 2);
    assert_eq!(pseudo_ua.request_len.get(), 17);
    assert_eq!(interface.received, pseudo_ua.image.to_vec());

    assert_eq!(run_once(&mut fd, &mut interface, &scripted_rsp, &pseudo_ua, &mut buf), Ok(()));
    assert_eq!(
        run_once(&mut fd, &mut interface, &scripted_rsp, &pseudo_ua, &mut buf),
        Err(PldmServiceError::Ipc)
    );
    assert_eq!(scripted_rsp.responses.borrow().len(), 3);
    assert_eq!(pseudo_ua.request_count.get(), 2);
}

#[test]
fn terminus_does_not_turn_to_the_update_agent_outside_update_mode() {
    let scripted_rsp = ScriptedFdRsp::new();
    let pseudo_ua = PseudoUa::new();
    let mut fd = FirmwareDevice::init();
    let mut interface = FakeInterface::new();
    let mut buf = [0u8; 64];
    scripted_rsp.queue_command(&command(GET_STATUS));
    scripted_rsp.queue_command(&command(REQUEST_UPDATE));
    assert_eq!(
        run_terminus(&mut fd, &mut interface, &scripted_rsp, &pseudo_ua, &mut buf, 250),
        Err(PldmServiceError::Ipc)
    );
    assert_eq!(pseudo_ua.request_count.get(), 0);
    assert_eq!(scripted_rsp.responses.borrow().len(), 2);
    assert_eq!(*scripted_rsp.timeouts.borrow(), vec![250, 250, 250]);
}

#[test]
fn terminus_reports_what_failed() {
    let pseudo_ua = PseudoUa::new();
    let mut fd = FirmwareDevice::init();

    // The interface rejects the command: nothing is sent.
    let rsp = ScriptedFdRsp::new();
    rsp.queue_command(&command(0x7f));
    let mut buf = [0u8; 64];
    assert_eq!(
        run_terminus(&mut fd, &mut FakeInterface::new(), &rsp, &pseudo_ua, &mut buf, 0),
        Err(PldmServiceError::MsgHandler("unsupported command".to_string()))
    );
    assert_eq!(*rsp.calls.borrow(), vec!["recv"]);

    // The command does not fit the buffer.
    let rsp = ScriptedFdRsp::new();
    rsp.queue_command(&command(GET_STATUS));
    let mut small = [0u8; 4];
    assert_eq!(
        run_terminus(&mut fd, &mut FakeInterface::new(), &rsp, &pseudo_ua, &mut small, 0),
        Err(PldmServiceError::Overflow)
    );
    assert_eq!(*rsp.calls.borrow(), vec!["recv"]);

    // The response cannot be sent.
    let rsp = ScriptedFdRsp::new();
    rsp.queue_command(&command(GET_STATUS));
    rsp.respond_fails.set(true);
    assert_eq!(
        run_terminus(&mut fd, &mut FakeInterface::new(), &rsp, &pseudo_ua, &mut buf, 0),
        Err(PldmServiceError::Ipc)
    );
    assert_eq!(*rsp.calls.borrow(), vec!["recv", "respond"]);
    assert_eq!(pseudo_ua.request_count.get(), 0);
}

struct BrokenUa {}

impl FdUaCmdChannel for BrokenUa {
    fn transact(&self, _req: &[u8], _resp: &mut [u8]) -> Result<usize, PldmServiceError> {
        Err(PldmServiceError::InvalidLength)
    }
}

#[test]
fn terminus_stops_before_receiving_when_the_exchange_fails() {
    let rsp = ScriptedFdRsp::new();
    rsp.queue_command(&command(GET_STATUS));
    let mut fd = FirmwareDevice::init();
    let mut interface = FakeInterface::new();
    interface.downloading = true;
    let mut buf = [7u8; 64];
    assert_eq!(
        run_terminus(&mut fd, &mut interface, &rsp, &BrokenUa {}, &mut buf, 0),
        Err(PldmServiceError::InvalidLength)
    );
    assert!(rsp.timeouts.borrow().is_empty());
    assert_eq!(buf, [7u8; 64]);
}

#[test]
fn terminus_wraps_the_interface_errors() {
    let rsp = ScriptedFdRsp::new();
    let ua = PseudoUa::new();
    let mut fd = FirmwareDevice::init();
    let mut buf = [0u8; 8];
    let request = [0u8; FD_IPC_MAX_MSG];
    let mut channels = DeviceChannels::new(&rsp, &ua);
    let expected = || TerminusAction::Stop(PldmServiceError::MsgHandler("bad".to_string()));
    let event = TerminusEvent::Generated {
        outcome: Err("bad".to_string()),
        request,
    };
    assert_eq!(fd.run_terminus(&mut channels, event, &mut buf, 0), expected());
    let event = TerminusEvent::Processed(Err("bad".to_string()));
    assert_eq!(fd.run_terminus(&mut channels, event, &mut buf, 0), expected());
    let event = TerminusEvent::Dispatched(Err("bad".to_string()));
    assert_eq!(fd.run_terminus(&mut channels, event, &mut buf, 0), expected());

    let expected = || CycleAction::Stop(PldmServiceError::MsgHandler("bad".to_string()));
    let event = CycleEvent::Generated {
        outcome: Err("bad".to_string()),
        request,
    };
    assert_eq!(fd.run_once(&mut channels, event, &mut buf, 0), expected());
    let event = CycleEvent::Processed(Err("bad".to_string()));
    assert_eq!(fd.run_once(&mut channels, event, &mut buf, 0), expected());
    let event = CycleEvent::Dispatched(Err("bad".to_string()));
    assert_eq!(fd.run_once(&mut channels, event, &mut buf, 0), expected());
    assert!(rsp.calls.borrow().is_empty());
    assert_eq!(ua.request_count.get(), 0);
}

#[test]
fn receive_outcomes_decide_the_dispatch() {
    assert_eq!(
        FirmwareDevice::after_recv(Ok(5)),
        TerminusAction::Dispatch { msg_len: 5 }
    );
    assert_eq!(
        FirmwareDevice::after_recv(Err(PldmServiceError::Ipc)),
        TerminusAction::Stop(PldmServiceError::Ipc)
    );
}

#[test]
fn terminus_answers_two_commands_with_two_responses() {
    let set_tid = [0x01, 0x80, 0x00, 0x01, 0x42];
    let get_tid = [0x01, 0x80, 0x00, 0x02];
    let rsp = ScriptedFdRsp::new();
    rsp.queue_command(&set_tid);
    rsp.queue_command(&get_tid);
    let ua = PseudoUa::new();
    let mut channels = DeviceChannels::new(&rsp, &ua);
    let mut fd = FirmwareDevice::init();
    let mut buf = [0u8; 16];
    let ready = || TerminusEvent::Ready { update_mode: false };

    let action = fd.run_terminus(&mut channels, ready(), &mut buf, 3);
    assert_eq!(action, TerminusAction::Dispatch { msg_len: 5 });
    assert_eq!(buf[..5], set_tid);
    buf[..5].copy_from_slice(&[0x01, 0x00, 0x00, 0x01, 0x00]);
    let event = TerminusEvent::Dispatched(Ok(5));
    let action = fd.run_terminus(&mut channels, event, &mut buf, 3);
    assert_eq!(action, TerminusAction::CheckMode);

    let action = fd.run_terminus(&mut channels, ready(), &mut buf, 3);
    assert_eq!(action, TerminusAction::Dispatch { msg_len: 4 });
    assert_eq!(buf[..4], get_tid);
    // The response is longer than the command.
    buf[..6].copy_from_slice(&[0x01, 0x00, 0x00, 0x02, 0x00, 0x42]);
    let event = TerminusEvent::Dispatched(Ok(6));
    let action = fd.run_terminus(&mut channels, event, &mut buf, 3);
    assert_eq!(action, TerminusAction::CheckMode);

    let action = fd.run_terminus(&mut channels, ready(), &mut buf, 3);
    assert_eq!(action, TerminusAction::Stop(PldmServiceError::Ipc));
    assert_eq!(
        *rsp.responses.borrow(),
        vec![
            vec![0x01, 0x00, 0x00, 0x01, 0x00],
            vec![0x01, 0x00, 0x00, 0x02, 0x00, 0x42],
        ]
    );
    assert_eq!(
        *rsp.calls.borrow(),
        vec!["recv", "respond", "recv", "respond", "recv"]
    );
    assert_eq!(*rsp.timeouts.borrow(), vec![3, 3, 3]);
    assert_eq!(ua.request_count.get(), 0);
}

#[test]
fn nothing_is_sent_after_a_failing_receive() {
    let rsp = ScriptedFdRsp::new();
    let ua = PseudoUa::new();
    let mut channels = DeviceChannels::new(&rsp, &ua);
    let mut fd = FirmwareDevice::init();
    let mut buf = [7u8; 8];
    let event = TerminusEvent::Ready { update_mode: false };
    assert_eq!(
        fd.run_terminus(&mut channels, event, &mut buf, 9),
        TerminusAction::Stop(PldmServiceError::Ipc)
    );
    assert_eq!(
        fd.run_once(&mut channels, CycleEvent::Start, &mut buf, 9),
        CycleAction::Stop(PldmServiceError::Ipc)
    );
    assert_eq!(*rsp.calls.borrow(), vec!["recv", "recv"]);
    assert_eq!(ua.request_count.get(), 0);
    assert_eq!(buf, [7u8; 8]);
}

/// Keeps what it is sent and answers with two bytes.
struct KeepingUa {
    requests: RefCell<Vec<Vec<u8>>>,
}

impl FdUaCmdChannel for KeepingUa {
    fn transact(&self, req: &[u8], resp: &mut [u8]) -> Result<usize, PldmServiceError> {
        assert_eq!(resp, &[0u8; FD_IPC_MAX_MSG][..]);
        self.requests.borrow_mut().push(req.to_vec());
        resp[0] = 0x01;
        resp[1] = self.requests.borrow().len() as u8;
        Ok(2)
    }
}

#[test]
fn terminus_sends_every_pending_request_before_it_receives() {
    let rsp = ScriptedFdRsp::new();
    rsp.queue_command(&command(GET_STATUS));
    let ua = KeepingUa {
        requests: RefCell::new(Vec::new()),
    };
    let mut channels = DeviceChannels::new(&rsp, &ua);
    let mut fd = FirmwareDevice::init();
    let mut buf = [0u8; 16];
    let mut request = [0u8; FD_IPC_MAX_MSG];
    request[..4].copy_from_slice(&[0x01, 0x80, 0x05, 0x15]);

    let event = TerminusEvent::Ready { update_mode: true };
    let action = fd.run_terminus(&mut channels, event, &mut buf, 0);
    assert!(matches!(action, TerminusAction::Generate { .. }));
    for (i, req_len) in [4usize, 3, FD_IPC_MAX_MSG].into_iter().enumerate() {
        let event = TerminusEvent::Generated {
            outcome: Ok(Some(req_len)),
            request,
        };
        let mut expected = [0u8; FD_IPC_MAX_MSG];
        expected[..2].copy_from_slice(&[0x01, i as u8 + 1]);
        assert_eq!(
            fd.run_terminus(&mut channels, event, &mut buf, 0),
            TerminusAction::Process {
                response: expected,
                resp_len: 2
            }
        );
        assert_eq!(ua.requests.borrow()[i], request[..req_len].to_vec());
        let event = TerminusEvent::Processed(Ok(()));
        let action = fd.run_terminus(&mut channels, event, &mut buf, 0);
        assert!(matches!(action, TerminusAction::Generate { .. }));
    }
    assert!(rsp.calls.borrow().is_empty());

    let event = TerminusEvent::Generated {
        outcome: Ok(None),
        request,
    };
    let action = fd.run_terminus(&mut channels, event, &mut buf, 0);
    assert_eq!(action, TerminusAction::Dispatch { msg_len: 5 });
    assert_eq!(*rsp.calls.borrow(), vec!["recv"]);
    assert_eq!(ua.requests.borrow().len(), 3);
}
