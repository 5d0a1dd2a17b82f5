use bytes::Buf;
use p2p_vpn::error::Status;
use p2p_vpn::proto::v1;
use p2p_vpn::proto::{
    control_to_status, response_to, status_to_control, stop_code, StreamReader, MAX_MESSAGE_SIZE,
};
use thin_status::ErrorCode;

#[test]
fn responses_carry_results_to_the_peer() {
    assert!(control_to_status(response_to(Ok(()))).is_ok());
    let status = Status::new(ErrorCode::FailedPrecondition, "no routes".to_string());
    let received = control_to_status(response_to(Err(status))).unwrap_err();
    assert_eq!((received.code, received.message.as_str()), (9, "no routes"));
    // Unknown numbers survive too.
    let status = Status { code: -7, message: String::new() };
    let received = control_to_status(status_to_control(status)).unwrap_err();
    assert_eq!((received.code, received.message.as_str()), (-7, ""));
}

#[test]
fn responses_without_an_error_are_a_success() {
    assert!(control_to_status(v1::ControlResponse { status: None }).is_ok());
    let zero = v1::Status { code: 0, message: Some("ignored".to_string()) };
    assert!(control_to_status(v1::ControlResponse { status: Some(zero) }).is_ok());
    let bare = v1::Status { code: 5, message: None };
    let err = control_to_status(v1::ControlResponse { status: Some(bare) }).unwrap_err();
    assert_eq!((err.code, err.message.as_str()), (5, ""));
}

#[test]
fn malformed_messages_stop_the_stream_with_aborted() {
    assert_eq!(stop_code(true), 0);
    assert_eq!(stop_code(false), 10);
}

#[test]
fn chunks_are_put_together() {
    let reader = StreamReader::new(MAX_MESSAGE_SIZE);
    let reader = reader.accept(vec![vec![1, 2], vec![], vec![3]]).ok().unwrap();
    let reader = reader.accept(vec![]).ok().unwrap();
    let reader = reader.accept(vec![vec![4]]).ok().unwrap();
    let mut list = reader.finish();
    assert_eq!(list.num_bytes(), 4);
    assert_eq!(list.copy_to_bytes(4).to_vec(), vec![1, 2, 3, 4]);
}

#[test]
fn streams_are_cut_off_at_the_limit() {
    let full = StreamReader::new(4).accept(vec![vec![0; 3]]).ok().unwrap();
    let err = full.accept(vec![vec![0]]).err().unwrap();
    assert_eq!(err.code, 11);
    assert_eq!(err.message, "stream longer than the limit of 4 bytes");
    assert!(StreamReader::new(4).accept(vec![vec![0; 4]]).is_err());
    assert!(StreamReader::new(4).accept(vec![vec![0; 2], vec![0; 2]]).is_err());
    assert!(StreamReader::new(4).accept(vec![vec![0; 2], vec![0; 1]]).is_ok());
    let err = StreamReader::new(MAX_MESSAGE_SIZE).accept(vec![vec![0; 2048]]).err().unwrap();
    assert_eq!(err.message, "stream longer than the limit of 2048 bytes");

    // Nothing fits in nothing, but an empty stream does.
    assert!(StreamReader::new(0).accept(vec![]).is_ok());
    assert!(StreamReader::new(0).accept(vec![vec![]]).is_err());
}

#[test]
fn cutting_a_stream_differently_gives_the_same() {
    let once = StreamReader::new(10).accept(vec![vec![1, 2, 3, 4, 5]]).ok().unwrap();
    let many = StreamReader::new(10)
        .accept(vec![vec![1], vec![2, 3]])
        .ok()
        .unwrap()
        .accept(vec![vec![4, 5]])
        .ok()
        .unwrap();
    let (mut a, mut b) = (once.finish(), many.finish());
    assert_eq!(a.copy_to_bytes(5), b.copy_to_bytes(5));
}
