use fifo_ipc::frame::read_framed;
use fifo_ipc::handshake::{
    check_reply, ListenerAction, ListenerEvent, ListenerMachine, SenderAction, SenderEvent,
    SenderMachine,
};
use fifo_ipc::{Error, Message};

fn sender(id: u32, payload: &str) -> SenderMachine {
    SenderMachine::new(
        "/tmp/rust-fifo".to_string(),
        "/tmp/rust-fifo".to_string(),
        id,
        payload.to_string(),
    )
}

fn listener() -> ListenerMachine {
    ListenerMachine::new("/tmp/rust-fifo".to_string(), "/tmp/rust-fifo".to_string())
}

/// Runs one sender through its happy path and returns the paths it
/// created, the identifier bytes it announced, the request frame it
/// sent, and the paths it cleaned up at the end.
fn run_sender(m: &mut SenderMachine) -> (Vec<String>, Vec<u8>, Vec<u8>, Vec<String>) {
    let (rp, wp) = match m.step(SenderEvent::Start) {
        SenderAction::CreatePipes { read_path, write_path } => (read_path, write_path),
        a => panic!("expected CreatePipes, got {:?}", a),
    };
    let announced = match m.step(SenderEvent::PipesReady) {
        SenderAction::AnnounceIdentifier { rendezvous, bytes } => {
            assert_eq!(rendezvous, "/tmp/rust-fifo");
            bytes
        }
        a => panic!("expected AnnounceIdentifier, got {:?}", a),
    };
    match m.step(SenderEvent::IdentifierWritten) {
        SenderAction::OpenPipes { open_for_writing, open_for_reading } => {
            assert_eq!(open_for_writing, wp);
            assert_eq!(open_for_reading, rp);
        }
        a => panic!("expected OpenPipes, got {:?}", a),
    }
    let frame = match m.step(SenderEvent::Opened) {
        SenderAction::Exchange { frame } => frame,
        a => panic!("expected Exchange, got {:?}", a),
    };
    let cleaned = match m.step(SenderEvent::ReplyReceived(Message::Ack())) {
        SenderAction::Cleanup { read_path, write_path } => vec![read_path, write_path],
        a => panic!("expected Cleanup, got {:?}", a),
    };
    (vec![rp, wp], announced, frame, cleaned)
}

#[test]
fn end_to_end_hello() {
    let mut s = sender(42, "hello");
    let mut l = listener();

    match l.step(ListenerEvent::Start) {
        ListenerAction::AcceptOne { rendezvous } => assert_eq!(rendezvous, "/tmp/rust-fifo"),
        a => panic!("expected AcceptOne, got {:?}", a),
    }

    match s.step(SenderEvent::Start) {
        SenderAction::CreatePipes { read_path, write_path } => {
            assert_eq!(read_path, "/tmp/rust-fifo-read.42");
            assert_eq!(write_path, "/tmp/rust-fifo-write.42");
        }
        a => panic!("expected CreatePipes, got {:?}", a),
    }
    let announced = match s.step(SenderEvent::PipesReady) {
        SenderAction::AnnounceIdentifier { bytes, .. } => bytes,
        a => panic!("expected AnnounceIdentifier, got {:?}", a),
    };

    // The listener decodes the 4 announced bytes and opens the pair
    // with the roles swapped: it writes on the sender's read path.
    let id = u32::from_le_bytes(announced.as_slice().try_into().unwrap());
    assert_eq!(id, 42);
    match l.step(ListenerEvent::Accepted(id)) {
        ListenerAction::OpenPipes { open_for_writing, open_for_reading } => {
            assert_eq!(open_for_writing, "/tmp/rust-fifo-read.42");
            assert_eq!(open_for_reading, "/tmp/rust-fifo-write.42");
        }
        a => panic!("expected OpenPipes, got {:?}", a),
    }

    match s.step(SenderEvent::IdentifierWritten) {
        SenderAction::OpenPipes { open_for_writing, open_for_reading } => {
            assert_eq!(open_for_writing, "/tmp/rust-fifo-write.42");
            assert_eq!(open_for_reading, "/tmp/rust-fifo-read.42");
        }
        a => panic!("expected OpenPipes, got {:?}", a),
    }
    let request_frame = match s.step(SenderEvent::Opened) {
        SenderAction::Exchange { frame } => frame,
        a => panic!("expected Exchange, got {:?}", a),
    };

    match l.step(ListenerEvent::Opened) {
        ListenerAction::ReceiveRequest => {}
        a => panic!("expected ReceiveRequest, got {:?}", a),
    }
    let (request, used) = read_framed(&request_frame).unwrap();
    assert_eq!(used, request_frame.len());
    assert_eq!(request, Message::Print("hello".to_string()));

    let reply_frame = match l.step(ListenerEvent::RequestReceived(request)) {
        ListenerAction::Reply { text, frame } => {
            assert_eq!(text, "hello");
            frame
        }
        a => panic!("expected Reply, got {:?}", a),
    };
    match l.step(ListenerEvent::ReplySent) {
        ListenerAction::Teardown { read_path, write_path } => {
            assert_eq!(read_path, "/tmp/rust-fifo-read.42");
            assert_eq!(write_path, "/tmp/rust-fifo-write.42");
        }
        a => panic!("expected Teardown, got {:?}", a),
    }
    match l.step(ListenerEvent::TornDown) {
        ListenerAction::AcceptOne { .. } => {}
        a => panic!("expected AcceptOne, got {:?}", a),
    }

    // The sender reads the reply: an acknowledgment, which carries no
    // text, so nothing further is printed.
    let (reply, _) = read_framed(&reply_frame).unwrap();
    assert_eq!(reply, Message::Ack());
    assert_eq!(check_reply(&reply), Ok(()));
    match s.step(SenderEvent::ReplyReceived(reply)) {
        SenderAction::Cleanup { read_path, write_path } => {
            assert_eq!(read_path, "/tmp/rust-fifo-read.42");
            assert_eq!(write_path, "/tmp/rust-fifo-write.42");
        }
        a => panic!("expected Cleanup, got {:?}", a),
    }
}

#[test]
fn concurrent_senders_never_share_a_connection_path() {
    let mut a = sender(7, "from a");
    let mut b = sender(8, "from b");
    let (paths_a, announced_a, frame_a, cleaned_a) = run_sender(&mut a);
    let (paths_b, announced_b, frame_b, cleaned_b) = run_sender(&mut b);

    for p in paths_a.iter().chain(cleaned_a.iter()) {
        for q in paths_b.iter().chain(cleaned_b.iter()) {
            assert_ne!(p, q);
        }
    }
    assert_ne!(announced_a, announced_b);

    // Each side's frame decodes to its own request, never the other's.
    let (req_a, _) = read_framed(&frame_a).unwrap();
    let (req_b, _) = read_framed(&frame_b).unwrap();
    assert_eq!(req_a, Message::Print("from a".to_string()));
    assert_eq!(req_b, Message::Print("from b".to_string()));
}

#[test]
fn identifier_reuse_after_teardown() {
    // A full create-use-teardown run keyed by one identifier, then a
    // second run reusing it: the derived paths are the same and the
    // second attempt walks the same happy path to completion.
    let mut first = sender(99, "once");
    let (paths1, _, _, cleaned1) = run_sender(&mut first);
    assert_eq!(paths1, cleaned1);

    let mut second = sender(99, "again");
    let (paths2, _, _, cleaned2) = run_sender(&mut second);
    assert_eq!(paths1, paths2);
    assert_eq!(paths2, cleaned2);
}

#[test]
fn sender_failure_orders_cleanup_of_both_pipes() {
    // A failure at each stage of the attempt: the machine closes and
    // orders exactly its two connection pipes removed.
    for failures_after in 0..4 {
        let mut s = sender(13, "payload");
        let events = [
            SenderEvent::Start,
            SenderEvent::PipesReady,
            SenderEvent::IdentifierWritten,
            SenderEvent::Opened,
        ];
        let mut taken = 0;
        for ev in events {
            if taken == failures_after {
                break;
            }
            s.step(ev);
            taken += 1;
        }
        match s.step(SenderEvent::Failed) {
            SenderAction::Cleanup { read_path, write_path } => {
                assert_eq!(read_path, "/tmp/rust-fifo-read.13");
                assert_eq!(write_path, "/tmp/rust-fifo-write.13");
            }
            a => panic!("expected Cleanup, got {:?}", a),
        }
        // Closed is terminal: nothing further is ordered.
        match s.step(SenderEvent::Failed) {
            SenderAction::Done => {}
            a => panic!("expected Done, got {:?}", a),
        }
    }
}

#[test]
fn listener_failure_aborts_only_that_connection() {
    let mut l = listener();
    l.step(ListenerEvent::Start);
    l.step(ListenerEvent::Accepted(5));
    match l.step(ListenerEvent::Failed) {
        ListenerAction::Abort { error, read_path, write_path } => {
            assert_eq!(error, Error::IoError);
            assert_eq!(read_path, "/tmp/rust-fifo-read.5");
            assert_eq!(write_path, "/tmp/rust-fifo-write.5");
        }
        a => panic!("expected Abort, got {:?}", a),
    }
    // The accept loop goes on serving.
    match l.step(ListenerEvent::Accepted(6)) {
        ListenerAction::OpenPipes { open_for_writing, .. } => {
            assert_eq!(open_for_writing, "/tmp/rust-fifo-read.6");
        }
        a => panic!("expected OpenPipes, got {:?}", a),
    }
}

#[test]
fn acknowledgment_as_request_is_protocol_violation() {
    let mut l = listener();
    l.step(ListenerEvent::Start);
    l.step(ListenerEvent::Accepted(3));
    l.step(ListenerEvent::Opened);
    match l.step(ListenerEvent::RequestReceived(Message::Ack())) {
        ListenerAction::Abort { error, read_path, write_path } => {
            assert_eq!(error, Error::ProtocolViolation);
            assert_eq!(read_path, "/tmp/rust-fifo-read.3");
            assert_eq!(write_path, "/tmp/rust-fifo-write.3");
        }
        a => panic!("expected Abort, got {:?}", a),
    }
}

#[test]
fn text_as_reply_is_protocol_violation() {
    assert_eq!(
        check_reply(&Message::Print("unexpected".to_string())),
        Err(Error::ProtocolViolation)
    );
}
