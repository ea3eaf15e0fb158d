use whoami::{
    encoding_failed, no_data_received, server_step, undecodable_response, ClientStep, FailureKind,
    FailureReason, ReceiveBuffer, ServerStep,
};

#[test]
fn new_buffer_is_empty_with_room() {
    let b = ReceiveBuffer::new(4096);
    assert_eq!(b.len(), 0);
    assert_eq!(b.spare(), 4096);
    assert_eq!(b.received_bytes(), &[] as &[u8]);
    assert_eq!(b.client_step(true, false), ClientStep::Fail(FailureReason::NoData));
}

#[test]
fn received_bytes_are_the_chunks_in_order() {
    let mut b = ReceiveBuffer::new(8);
    assert!(b.receive(&[1, 2, 3]));
    assert!(b.receive(&[4]));
    assert_eq!(b.received_bytes(), &[1, 2, 3, 4]);
    assert_eq!(b.len(), 4);
    assert_eq!(b.spare(), 4);
    assert_eq!(b.client_step(true, false), ClientStep::Fail(FailureReason::Undecodable));
}

#[test]
fn buffer_doubles_when_filled() {
    let mut b = ReceiveBuffer::new(4);
    assert!(b.receive(&[9, 9]));
    assert_eq!(b.spare(), 2);
    assert!(b.receive(&[8, 8]));
    // the read filled the buffer: it doubled to 8
    assert_eq!(b.spare(), 4);
    assert!(b.receive(&[7, 7, 7, 7]));
    assert_eq!(b.spare(), 8);
    assert_eq!(b.received_bytes(), &[9, 9, 8, 8, 7, 7, 7, 7]);
}

#[test]
fn empty_read_is_end_of_stream() {
    let mut b = ReceiveBuffer::new(2);
    assert!(b.receive(&[5]));
    assert!(!b.receive(&[]));
    assert_eq!(b.received_bytes(), &[5]);
    assert_eq!(b.spare(), 1);
}

#[test]
fn no_data_error() {
    let e = no_data_received();
    assert_eq!(e.kind, FailureKind::UnexpectedEof);
    assert_eq!(e.message, "No data received");
}

#[test]
fn undecodable_error_carries_detail() {
    let e = undecodable_response("eof");
    assert_eq!(e.kind, FailureKind::InvalidData);
    assert_eq!(e.message, "Failed to deserialize response: eof");
}

#[test]
fn encoding_error_is_invalid_data() {
    let e = encoding_failed("too big");
    assert_eq!(e.kind, FailureKind::InvalidData);
    assert_eq!(e.message, "too big");
}

#[test]
fn client_finishes_on_first_decode() {
    let mut b = ReceiveBuffer::new(8);
    assert!(b.receive(&[1]));
    assert_eq!(b.client_step(false, false), ClientStep::ReadMore);
    assert_eq!(b.client_step(false, true), ClientStep::Finish { pause: true });
    assert_eq!(b.client_step(true, true), ClientStep::Finish { pause: false });
}

#[test]
fn client_with_nothing_received_fails_at_end() {
    let b = ReceiveBuffer::new(8);
    assert_eq!(b.client_step(true, true), ClientStep::Fail(FailureReason::NoData));
    assert_eq!(b.client_step(false, false), ClientStep::ReadMore);
}

#[test]
fn server_replies_on_decode_or_end() {
    assert_eq!(server_step(false, false), ServerStep::ReadMore);
    assert_eq!(server_step(false, true), ServerStep::Reply);
    assert_eq!(server_step(true, false), ServerStep::Reply);
    assert_eq!(server_step(true, true), ServerStep::Reply);
}
