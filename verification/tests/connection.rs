use contract_whist::connection::{Connection, FrameAction, Intake};
use contract_whist::framing::{encode_frame, FrameError, MAX_PAYLOAD};
use contract_whist::message::Message;
use contract_whist::requests::{Recipient, Request};

fn decode(payload: &[u8]) -> Option<Message> {
    match payload {
        b"start" => Some(Message::GameStart),
        b"rename" => Some(Message::Rename("Marmot".to_string())),
        _ => None,
    }
}

#[test]
fn a_frame_that_is_no_message_is_dropped_and_the_next_one_is_served() {
    let mut connection = Connection::new(3);
    let mut stream = encode_frame(b"\xff\xfe garbage").expect("fits");
    stream.extend(encode_frame(b"rename").expect("fits"));
    let payloads = match connection.on_read(&stream) {
        Intake::Frames(payloads) => payloads,
        other => panic!("frames were due, not {other:?}"),
    };
    assert_eq!(payloads.len(), 2);
    let first = connection.on_frame(decode(&payloads[0]));
    assert!(matches!(first, FrameAction::Discard));
    assert!(connection.is_open());
    let second = connection.on_frame(decode(&payloads[1]));
    match second {
        FrameAction::Forward(id, message) => {
            assert_eq!(id, 3);
            assert_eq!(message, Message::Rename("Marmot".to_string()));
        }
        FrameAction::Discard => panic!("the message was to go on"),
    }
}

#[test]
fn a_message_split_over_reads_is_served_when_it_is_whole() {
    let mut connection = Connection::new(0);
    let frame = encode_frame(b"start").expect("fits");
    let early = connection.on_read(&frame[..4]);
    assert!(matches!(early, Intake::Frames(payloads) if payloads.is_empty()));
    let late = connection.on_read(&frame[4..]);
    assert!(matches!(late, Intake::Frames(payloads) if payloads == vec![b"start".to_vec()]));
}

#[test]
fn the_end_of_the_stream_closes_the_connection_once() {
    let mut connection = Connection::new(5);
    assert_eq!(connection.id(), 5);
    assert!(connection.is_open());
    let end = connection.on_read(&[]);
    assert!(matches!(end, Intake::HangUp(Request::Leave(5))));
    assert!(!connection.is_open());
    assert!(matches!(connection.on_read(b"more"), Intake::Nothing));
    assert!(matches!(connection.on_read(&[]), Intake::Nothing));
    assert!(connection.on_failure().is_none());
    assert!(matches!(connection.on_frame(Some(Message::GameStart)), FrameAction::Discard));
}

#[test]
fn a_failed_read_closes_the_connection_once() {
    let mut connection = Connection::new(2);
    assert!(matches!(connection.on_failure(), Some(Request::Leave(2))));
    assert!(!connection.is_open());
    assert!(connection.on_failure().is_none());
}

#[test]
fn a_connection_takes_what_is_meant_for_its_player() {
    let connection = Connection::new(2);
    assert!(connection.accepts(Recipient::All));
    assert!(connection.accepts(Recipient::One(2)));
    assert!(!connection.accepts(Recipient::One(3)));
    assert!(connection.accepts(Recipient::AllBut(3)));
    assert!(!connection.accepts(Recipient::AllBut(2)));
    let mut closed = Connection::new(2);
    closed.on_failure();
    assert!(!closed.accepts(Recipient::All));
    assert!(!closed.accepts(Recipient::One(2)));
}

#[test]
fn what_goes_out_is_framed_for_those_it_is_meant_for() {
    let connection = Connection::new(1);
    assert_eq!(connection.outgoing(Recipient::All, b"hi"), Ok(Some(vec![0, 2, b'h', b'i'])));
    assert_eq!(connection.outgoing(Recipient::One(4), b"hi"), Ok(None));
    let too_long = vec![0u8; MAX_PAYLOAD + 1];
    assert_eq!(connection.outgoing(Recipient::One(1), &too_long), Err(FrameError::TooLong));
    assert_eq!(connection.outgoing(Recipient::One(4), &too_long), Ok(None));
}
