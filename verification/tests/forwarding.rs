//! Framing, the requester and the responder on their own.

use std::cell::RefCell;

use openprot_pldm_service::calls::{CommandChannel, RequestChannel};
use openprot_pldm_service::firmware_device::{UaFdCmdChannel, UaFdRspChannel};
use openprot_pldm_service::frame::{frame_in_place, message, payload, pldm_len};
use openprot_pldm_service::requester::{
    CommandAction, CommandEvent, PldmRequesterCommand, RequesterAction, RequesterEvent,
};
use openprot_pldm_service::responder::{
    HandlerAction, HandlerEvent, ResponderAction, ResponderEvent, PLDM_MSG_TYPE,
};
use openprot_pldm_service::{PldmRequester, PldmResponder, PldmServiceError};

/// Hands out the given requests in order and keeps the responses.
struct Requests {
    requests: RefCell<Vec<Vec<u8>>>,
    responses: RefCell<Vec<Vec<u8>>>,
    respond_fails: bool,
    calls: RefCell<Vec<&'static str>>,
}

impl Requests {
    fn new(requests: &[&[u8]]) -> Self {
        Requests {
            requests: RefCell::new(requests.iter().map(|r| r.to_vec()).collect()),
            responses: RefCell::new(Vec::new()),
            respond_fails: false,
            calls: RefCell::new(Vec::new()),
        }
    }
}

impl UaFdRspChannel for Requests {
    fn recv(&self, buf: &mut [u8]) -> Result<usize, PldmServiceError> {
        self.calls.borrow_mut().push("recv");
        let mut requests = self.requests.borrow_mut();
        if requests.is_empty() {
            return Err(PldmServiceError::Ipc);
        }
        let request = requests.remove(0);
        buf[..request.len()].copy_from_slice(&request);
        Ok(request.len())
    }

    fn respond(&self, buf: &[u8]) -> Result<(), PldmServiceError> {
        self.calls.borrow_mut().push("respond");
        if self.respond_fails {
            return Err(PldmServiceError::InvalidLength);
        }
        self.responses.borrow_mut().push(buf.to_vec());
        Ok(())
    }
}

#[test]
fn framing_round_trip() {
    let mut buf = [0u8, 0x80, 0x05, 0x15, 9];
    assert_eq!(frame_in_place(&mut buf, 3), Ok(4));
    assert_eq!(buf, [PLDM_MSG_TYPE, 0x80, 0x05, 0x15, 9]);
    assert_eq!(message(&buf, 3), Ok(&[0x01u8, 0x80, 0x05, 0x15][..]));
    assert_eq!(payload(&buf, 4), Ok(&[0x80u8, 0x05, 0x15][..]));
    assert_eq!(pldm_len(4), Ok(3));
}

#[test]
fn framing_edges() {
    let mut buf = [7u8; 3];
    assert_eq!(frame_in_place(&mut buf, 3), Err(PldmServiceError::Overflow));
    assert_eq!(buf, [7u8; 3]);
    assert_eq!(frame_in_place(&mut buf, 2), Ok(3));
    assert_eq!(message(&buf, 2), Ok(&[0x01u8, 7, 7][..]));
    assert_eq!(message(&buf, 3), Err(PldmServiceError::Overflow));
    assert_eq!(message(&buf, usize::MAX), Err(PldmServiceError::Overflow));
    assert_eq!(payload(&buf, 1), Ok(&[][..]));
    assert_eq!(payload(&buf, 0), Err(PldmServiceError::Overflow));
    assert_eq!(payload(&buf, 4), Err(PldmServiceError::Overflow));
    assert_eq!(pldm_len(0), Err(PldmServiceError::Overflow));
    assert_eq!(frame_in_place(&mut [], 0), Err(PldmServiceError::Overflow));
}

#[test]
fn requester_returns_each_response_before_the_next_request() {
    let channel = Requests::new(&[&[0x01, 0x80, 0x05, 0x15], &[0x01, 0x81]]);
    let mut ipc = RequestChannel::new(&channel);
    let mut requester = PldmRequester::new();
    let mut buf = [0u8; 8];

    let action = requester.run_requester(&mut ipc, RequesterEvent::Start, 42, &mut buf, 100);
    assert_eq!(
        action,
        RequesterAction::Exchange {
            remote_eid: 42,
            pldm_len: 3,
            timeout_millis: 100
        }
    );
    assert_eq!(buf[1..4], [0x80, 0x05, 0x15]);
    assert!(channel.responses.borrow().is_empty());

    buf = [0x01, 0x00, 0x05, 0x15, 0x00, 0xee, 0xee, 0xee];
    let event = RequesterEvent::Exchanged(Ok(4));
    let action = requester.run_requester(&mut ipc, event, 42, &mut buf, 100);
    assert_eq!(
        action,
        RequesterAction::Exchange {
            remote_eid: 42,
            pldm_len: 1,
            timeout_millis: 100
        }
    );
    assert_eq!(
        *channel.responses.borrow(),
        vec![vec![0x01, 0x00, 0x05, 0x15, 0x00]]
    );
    assert_eq!(buf[..2], [0x01, 0x81]);

    let event = RequesterEvent::Exchanged(Ok(7));
    let action = requester.run_requester(&mut ipc, event, 42, &mut buf, 100);
    assert_eq!(action, RequesterAction::Stop(PldmServiceError::Ipc));
    assert_eq!(channel.responses.borrow()[1].len(), 8);
    assert_eq!(
        *channel.calls.borrow(),
        vec!["recv", "respond", "recv", "respond", "recv"]
    );
}

#[test]
fn requester_stops_with_the_cause() {
    let mut requester = PldmRequester::new();
    let mut buf = [0u8; 4];

    // The exchange fails: nothing is returned, nothing is received.
    let channel = Requests::new(&[&[0x01, 0x80]]);
    let mut ipc = RequestChannel::new(&channel);
    let event = RequesterEvent::Exchanged(Err(PldmServiceError::Mctp("timed out".to_string())));
    assert_eq!(
        requester.run_requester(&mut ipc, event, 42, &mut buf, 0),
        RequesterAction::Stop(PldmServiceError::Mctp("timed out".to_string()))
    );
    assert!(channel.calls.borrow().is_empty());

    // The response does not fit.
    for len in [4, usize::MAX] {
        let event = RequesterEvent::Exchanged(Ok(len));
        assert_eq!(
            requester.run_requester(&mut ipc, event, 42, &mut buf, 0),
            RequesterAction::Stop(PldmServiceError::Overflow)
        );
    }
    assert!(channel.calls.borrow().is_empty());

    // A request without a framing byte.
    let channel = Requests::new(&[&[]]);
    let mut ipc = RequestChannel::new(&channel);
    assert_eq!(
        requester.run_requester(&mut ipc, RequesterEvent::Start, 42, &mut buf, 0),
        RequesterAction::Stop(PldmServiceError::Overflow)
    );
    assert_eq!(*channel.calls.borrow(), vec!["recv"]);

    // The response cannot be delivered.
    let mut channel = Requests::new(&[&[0x01, 0x80]]);
    channel.respond_fails = true;
    let mut ipc = RequestChannel::new(&channel);
    let event = RequesterEvent::Exchanged(Ok(3));
    assert_eq!(
        requester.run_requester(&mut ipc, event, 42, &mut buf, 0),
        RequesterAction::Stop(PldmServiceError::InvalidLength)
    );
    assert_eq!(*channel.calls.borrow(), vec!["respond"]);
}

#[test]
fn requester_delivers_one_response_for_one_request() {
    let requests = Requests::new(&[&[0x01, 0x80, 0x00, 0x02]]);
    let mut channel = RequestChannel::new(&requests);
    let mut requester = PldmRequester::new();
    let mut buf = [0u8; 16];
    assert_eq!(
        requester.run_requester(&mut channel, RequesterEvent::Start, 8, &mut buf, 0),
        RequesterAction::Exchange {
            remote_eid: 8,
            pldm_len: 3,
            timeout_millis: 0
        }
    );
    buf[..6].copy_from_slice(&[0x01, 0x00, 0x00, 0x02, 0x00, 0x42]);
    let event = RequesterEvent::Exchanged(Ok(5));
    assert_eq!(
        requester.run_requester(&mut channel, event, 8, &mut buf, 0),
        RequesterAction::Stop(PldmServiceError::Ipc)
    );
    assert_eq!(
        *requests.responses.borrow(),
        vec![vec![0x01, 0x00, 0x00, 0x02, 0x00, 0x42]]
    );
    assert_eq!(*requests.calls.borrow(), vec!["recv", "respond", "recv"]);
}

#[test]
fn requester_forwards_a_message_of_the_framing_byte_alone() {
    let requests = Requests::new(&[&[0x01]]);
    let mut channel = RequestChannel::new(&requests);
    let mut requester = PldmRequester::new();
    let mut buf = [0u8; 4];
    assert_eq!(
        requester.run_requester(&mut channel, RequesterEvent::Start, 8, &mut buf, 7),
        RequesterAction::Exchange {
            remote_eid: 8,
            pldm_len: 0,
            timeout_millis: 7
        }
    );
    let event = RequesterEvent::Exchanged(Ok(0));
    assert_eq!(
        requester.run_requester(&mut channel, event, 8, &mut buf, 7),
        RequesterAction::Stop(PldmServiceError::Ipc)
    );
    assert_eq!(*requests.responses.borrow(), vec![vec![0x01]]);
    assert_eq!(*requests.calls.borrow(), vec!["recv", "respond", "recv"]);
}

/// The instance ID that the requester would give its next request.
fn next_instance_id(requester: &mut PldmRequester) -> u8 {
    requester.queue_get_tid();
    match requester.run_once(CommandEvent::Start, 42, 10) {
        CommandAction::Encode { instance_id, .. } => instance_id,
        other => panic!("unexpected action: {:?}", other),
    }
}

#[test]
fn forwarded_exchanges_move_the_instance_id() {
    let requests: Vec<&[u8]> = vec![&[0x01, 0x85]; 258];
    let channel = Requests::new(&requests);
    let mut ipc = RequestChannel::new(&channel);
    let mut requester = PldmRequester::new();
    let mut buf = [0u8; 4];
    let exchange = || RequesterAction::Exchange {
        remote_eid: 42,
        pldm_len: 1,
        timeout_millis: 0,
    };

    let action = requester.run_requester(&mut ipc, RequesterEvent::Start, 42, &mut buf, 0);
    assert_eq!(action, exchange());
    assert_eq!(next_instance_id(&mut requester), 0);
    for round in 1..258u32 {
        let event = RequesterEvent::Exchanged(Ok(1));
        let action = requester.run_requester(&mut ipc, event, 42, &mut buf, 0);
        assert_eq!(action, exchange());
        assert_eq!(next_instance_id(&mut requester) as u32, round % 256);
        // The request itself is forwarded as it is.
        assert_eq!(buf[..2], [0x01, 0x85]);
    }

    // The last response is delivered, but no request follows.
    let event = RequesterEvent::Exchanged(Ok(1));
    let action = requester.run_requester(&mut ipc, event, 42, &mut buf, 0);
    assert_eq!(action, RequesterAction::Stop(PldmServiceError::Ipc));
    assert_eq!(next_instance_id(&mut requester), 2);
}

#[test]
fn exchanges_that_are_not_completed_keep_the_instance_id() {
    let mut channel = Requests::new(&[]);
    channel.respond_fails = true;
    let mut ipc = RequestChannel::new(&channel);
    let mut requester = PldmRequester::new();
    let mut buf = [0u8; 4];
    for event in [
        RequesterEvent::Start,
        RequesterEvent::Exchanged(Ok(3)),
        RequesterEvent::Exchanged(Ok(4)),
        RequesterEvent::Exchanged(Err(PldmServiceError::Ipc)),
    ] {
        let action = requester.run_requester(&mut ipc, event, 42, &mut buf, 0);
        assert!(matches!(action, RequesterAction::Stop(_)));
        assert_eq!(next_instance_id(&mut requester), 0);
    }
}

#[test]
fn receive_outcomes_decide_the_exchange() {
    assert_eq!(
        PldmRequester::after_recv(Ok(1), 9, 5),
        RequesterAction::Exchange {
            remote_eid: 9,
            pldm_len: 0,
            timeout_millis: 5
        }
    );
    assert_eq!(
        PldmRequester::after_recv(Ok(0), 9, 5),
        RequesterAction::Stop(PldmServiceError::Overflow)
    );
    assert_eq!(
        PldmRequester::after_recv(Err(PldmServiceError::Ipc), 9, 5),
        RequesterAction::Stop(PldmServiceError::Ipc)
    );
}

fn send_get_tid(requester: &mut PldmRequester) -> u8 {
    requester.queue_get_tid();
    let instance_id = match requester.run_once(CommandEvent::Start, 42, 10) {
        CommandAction::Encode {
            command: PldmRequesterCommand::GetTid,
            instance_id,
        } => instance_id,
        other => panic!("unexpected action: {:?}", other),
    };
    assert_eq!(
        requester.run_once(CommandEvent::Encoded(Ok(3)), 42, 10),
        CommandAction::Exchange {
            remote_eid: 42,
            pldm_len: 3,
            timeout_millis: 10
        }
    );
    assert_eq!(
        requester.run_once(CommandEvent::Exchanged(Ok(5)), 42, 10),
        CommandAction::Validate { pldm_resp_len: 5 }
    );
    assert_eq!(
        requester.run_once(CommandEvent::Validated(Ok(())), 42, 10),
        CommandAction::Done
    );
    instance_id
}

#[test]
fn queued_commands_carry_successive_instance_ids() {
    let mut requester = PldmRequester::new();
    assert_eq!(
        requester.run_once(CommandEvent::Start, 42, 10),
        CommandAction::Done
    );
    for i in 0..600u32 {
        assert_eq!(send_get_tid(&mut requester) as u32, i % 256);
    }
    // Nothing is left to send.
    assert_eq!(
        requester.run_once(CommandEvent::Start, 42, 10),
        CommandAction::Done
    );
}

#[test]
fn failed_command_stays_pending_with_its_instance_id() {
    let mut requester = PldmRequester::new();
    requester.queue_get_tid();
    for event in [
        CommandEvent::Encoded(Err(PldmServiceError::Overflow)),
        CommandEvent::Exchanged(Err(PldmServiceError::Overflow)),
        CommandEvent::Validated(Err(PldmServiceError::Overflow)),
    ] {
        assert_eq!(
            requester.run_once(event, 42, 10),
            CommandAction::Stop(PldmServiceError::Overflow)
        );
        assert_eq!(
            requester.run_once(CommandEvent::Start, 42, 10),
            CommandAction::Encode {
                command: PldmRequesterCommand::GetTid,
                instance_id: 0
            }
        );
    }
}

/// Answers every command with a fixed response, or fails.
struct Device {
    response: Result<Vec<u8>, ()>,
    commands: RefCell<Vec<Vec<u8>>>,
}

impl UaFdCmdChannel for Device {
    fn transact(&self, req: &[u8], resp: &mut [u8]) -> Result<usize, PldmServiceError> {
        self.commands.borrow_mut().push(req.to_vec());
        assert_eq!(resp, &[0u8; 1024][..]);
        match &self.response {
            Ok(response) => {
                resp[..response.len()].copy_from_slice(response);
                Ok(response.len())
            }
            Err(()) => Err(PldmServiceError::Ipc),
        }
    }
}

fn device(response: Result<Vec<u8>, ()>) -> Device {
    Device {
        response,
        commands: RefCell::new(Vec::new()),
    }
}

#[test]
fn responder_frames_forwards_and_replies() {
    let device = device(Ok(vec![0x01, 0x00, 0x00, 0x02, 0x00, 0x42]));
    let mut ipc = CommandChannel::new(&device);
    let mut responder = PldmResponder::new();
    let mut buf = [0xffu8; 8];

    let action = responder.run_responder(ResponderEvent::Start, &mut ipc, &mut buf, 30);
    assert_eq!(action, ResponderAction::Receive { timeout_millis: 30 });
    buf[1..4].copy_from_slice(&[0x80, 0x00, 0x02]);
    let action = responder.run_responder(ResponderEvent::Received(Ok(3)), &mut ipc, &mut buf, 30);
    assert_eq!(action, ResponderAction::Reply { resp_len: 6 });
    assert_eq!(
        *device.commands.borrow(),
        vec![vec![0x01, 0x80, 0x00, 0x02]]
    );
    assert_eq!(buf, [0x01, 0x00, 0x00, 0x02, 0x00, 0x42, 0xff, 0xff]);
    let action = responder.run_responder(ResponderEvent::Replied(Ok(())), &mut ipc, &mut buf, 30);
    assert_eq!(action, ResponderAction::Done);
    assert_eq!(device.commands.borrow().len(), 1);
}

#[test]
fn responder_reports_what_failed() {
    let mut responder = PldmResponder::new();
    let overflow = || ResponderAction::Stop(PldmServiceError::Overflow);

    // No room for the framing byte.
    let dev = device(Err(()));
    let mut ipc = CommandChannel::new(&dev);
    let action = responder.run_responder(ResponderEvent::Start, &mut ipc, &mut [], 0);
    assert_eq!(action, overflow());

    // Transport failures.
    let mut buf = [0u8; 4];
    let event = ResponderEvent::Received(Err(PldmServiceError::Mctp("down".to_string())));
    let action = responder.run_responder(event, &mut ipc, &mut buf, 0);
    assert_eq!(
        action,
        ResponderAction::Stop(PldmServiceError::Mctp("down".to_string()))
    );
    let event = ResponderEvent::Replied(Err(PldmServiceError::Mctp("down".to_string())));
    let action = responder.run_responder(event, &mut ipc, &mut buf, 0);
    assert_eq!(
        action,
        ResponderAction::Stop(PldmServiceError::Mctp("down".to_string()))
    );

    // More bytes than the buffer can hold behind the framing byte.
    let action = responder.run_responder(ResponderEvent::Received(Ok(4)), &mut ipc, &mut buf, 0);
    assert_eq!(action, overflow());
    assert!(dev.commands.borrow().is_empty());

    // The device fails.
    let action = responder.run_responder(ResponderEvent::Received(Ok(3)), &mut ipc, &mut buf, 0);
    assert_eq!(action, ResponderAction::Stop(PldmServiceError::Ipc));
    assert_eq!(dev.commands.borrow().len(), 1);

    // The response is empty, or longer than the buffer.
    for response in [vec![], vec![1, 2, 3, 4, 5]] {
        let dev = device(Ok(response));
        let mut ipc = CommandChannel::new(&dev);
        let mut buf = [9u8; 4];
        let event = ResponderEvent::Received(Ok(3));
        let action = responder.run_responder(event, &mut ipc, &mut buf, 0);
        assert_eq!(action, overflow());
        assert_eq!(buf, [1, 9, 9, 9]);
    }
}

#[test]
fn responder_frames_handles_and_replies() {
    let mut responder = PldmResponder::new();
    let mut buf = [0xffu8; 8];
    assert_eq!(
        responder.run_handler(HandlerEvent::Start, &mut buf, 30),
        HandlerAction::Receive { timeout_millis: 30 }
    );
    assert_eq!(buf, [0xff; 8]);
    buf[1..4].copy_from_slice(&[0x80, 0x00, 0x02]);
    assert_eq!(
        responder.run_handler(HandlerEvent::Received(Ok(3)), &mut buf, 30),
        HandlerAction::Handle { msg_len: 4 }
    );
    assert_eq!(buf[..5], [0x01, 0x80, 0x00, 0x02, 0xff]);
    buf[..6].copy_from_slice(&[0x01, 0x00, 0x00, 0x02, 0x00, 0x42]);
    assert_eq!(
        responder.run_handler(HandlerEvent::Handled(Ok(6)), &mut buf, 30),
        HandlerAction::Reply { resp_len: 6 }
    );
    assert_eq!(payload(&buf, 6), Ok(&[0x00, 0x00, 0x02, 0x00, 0x42][..]));
    assert_eq!(
        responder.run_handler(HandlerEvent::Replied(Ok(())), &mut buf, 30),
        HandlerAction::Done
    );
}

#[test]
fn responder_with_a_handler_reports_what_failed() {
    let mut responder = PldmResponder::new();
    let mut buf = [9u8; 4];
    let overflow = || HandlerAction::Stop(PldmServiceError::Overflow);
    assert_eq!(
        responder.run_handler(HandlerEvent::Start, &mut [], 0),
        overflow()
    );
    for event in [
        HandlerEvent::Received(Ok(4)),
        HandlerEvent::Received(Ok(usize::MAX)),
        HandlerEvent::Handled(Ok(0)),
        HandlerEvent::Handled(Ok(5)),
    ] {
        assert_eq!(responder.run_handler(event, &mut buf, 0), overflow());
    }
    for event in [
        HandlerEvent::Received(Err(PldmServiceError::Ipc)),
        HandlerEvent::Handled(Err(PldmServiceError::Ipc)),
        HandlerEvent::Replied(Err(PldmServiceError::Ipc)),
    ] {
        assert_eq!(
            responder.run_handler(event, &mut buf, 0),
            HandlerAction::Stop(PldmServiceError::Ipc)
        );
    }
    assert_eq!(buf, [9u8; 4]);
}

#[test]
fn handler_outcomes_decide_the_reply() {
    assert_eq!(
        PldmResponder::after_handler(Ok(4), 4),
        HandlerAction::Reply { resp_len: 4 }
    );
    for resp_len in [0, 5] {
        assert_eq!(
            PldmResponder::after_handler(Ok(resp_len), 4),
            HandlerAction::Stop(PldmServiceError::Overflow)
        );
    }
    assert_eq!(
        PldmResponder::after_handler(Err(PldmServiceError::Ipc), 4),
        HandlerAction::Stop(PldmServiceError::Ipc)
    );
    let mut buf = [0u8; 3];
    assert_eq!(
        PldmResponder::after_transact(&[1, 2, 3, 4], Ok(2), &mut buf),
        ResponderAction::Reply { resp_len: 2 }
    );
    assert_eq!(buf, [1, 2, 0]);
}
