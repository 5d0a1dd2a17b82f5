use p2p_vpn::error::{
    await_loop_result, check_eq, error_kind_str, mask_cancelled, unwrap_join_handle,
    ExtractedErrorCode, IoFailure, JoinError, Label, Status,
};
use std::io::ErrorKind;
use thin_status::ErrorCode;

fn failure(kind: ErrorKind) -> IoFailure {
    IoFailure { raw_os_error: None, kind, message: "broken".to_string() }
}

fn pairs(labels: &[Label]) -> Vec<(&str, &str)> {
    labels.iter().map(|l| (l.name.as_str(), l.value.as_str())).collect()
}

#[test]
fn codes_have_the_numbers_of_grpc() {
    let codes = [
        ErrorCode::Cancelled,
        ErrorCode::Unknown,
        ErrorCode::InvalidArgument,
        ErrorCode::DeadlineExceeded,
        ErrorCode::NotFound,
        ErrorCode::AlreadyExists,
        ErrorCode::PermissionDenied,
        ErrorCode::ResourceExhausted,
        ErrorCode::FailedPrecondition,
        ErrorCode::Aborted,
        ErrorCode::OutOfRange,
        ErrorCode::Unimplemented,
        ErrorCode::Internal,
        ErrorCode::Unavailable,
        ErrorCode::DataLoss,
        ErrorCode::Unauthenticated,
    ];
    for (i, code) in codes.into_iter().enumerate() {
        let status = Status::new(code, "x".to_string());
        assert_eq!(status.code, i as i32 + 1);
        assert_eq!(status.code(), Some(code));
    }
    assert_eq!(Status { code: 17, message: String::new() }.code(), None);
    assert_eq!(Status { code: -1, message: String::new() }.code(), None);
}

#[test]
fn io_errors_have_codes() {
    let expected = [
        (ErrorKind::NotFound, 5),
        (ErrorKind::PermissionDenied, 7),
        (ErrorKind::AlreadyExists, 6),
        (ErrorKind::InvalidInput, 3),
        (ErrorKind::ArgumentListTooLong, 3),
        (ErrorKind::TimedOut, 4),
        (ErrorKind::StorageFull, 8),
        (ErrorKind::QuotaExceeded, 8),
        (ErrorKind::OutOfMemory, 8),
        (ErrorKind::DirectoryNotEmpty, 9),
        (ErrorKind::IsADirectory, 9),
        (ErrorKind::NotADirectory, 9),
        (ErrorKind::NotConnected, 9),
        (ErrorKind::AddrInUse, 9),
        (ErrorKind::ResourceBusy, 9),
        (ErrorKind::ExecutableFileBusy, 9),
        (ErrorKind::ReadOnlyFilesystem, 9),
        (ErrorKind::CrossesDevices, 9),
        (ErrorKind::NotSeekable, 9),
        (ErrorKind::FileTooLarge, 11),
        (ErrorKind::Unsupported, 12),
        (ErrorKind::WouldBlock, 14),
        (ErrorKind::Interrupted, 14),
        (ErrorKind::BrokenPipe, 14),
        (ErrorKind::ConnectionRefused, 14),
        (ErrorKind::ConnectionReset, 14),
        (ErrorKind::ConnectionAborted, 14),
        (ErrorKind::HostUnreachable, 14),
        (ErrorKind::NetworkUnreachable, 14),
        (ErrorKind::NetworkDown, 14),
        (ErrorKind::Deadlock, 10),
        (ErrorKind::StaleNetworkFileHandle, 10),
        (ErrorKind::InvalidData, 15),
        (ErrorKind::WriteZero, 15),
        (ErrorKind::UnexpectedEof, 15),
        (ErrorKind::AddrNotAvailable, 2),
        (ErrorKind::TooManyLinks, 2),
        (ErrorKind::InvalidFilename, 2),
        (ErrorKind::Other, 2),
    ];
    for (kind, number) in expected {
        let status = Status::from_io(&failure(kind));
        assert_eq!((kind, status.code), (kind, number));
        assert_eq!(status.message, "broken");
    }
}

#[test]
fn kinds_are_named_as_in_std() {
    for kind in [
        ErrorKind::NotFound,
        ErrorKind::PermissionDenied,
        ErrorKind::ConnectionRefused,
        ErrorKind::HostUnreachable,
        ErrorKind::AddrNotAvailable,
        ErrorKind::StaleNetworkFileHandle,
        ErrorKind::InvalidFilename,
        ErrorKind::OutOfMemory,
        ErrorKind::Other,
    ] {
        assert_eq!(error_kind_str(kind), format!("{:?}", kind));
    }
}

#[test]
fn labels_tell_code_and_kind() {
    let extracted = ExtractedErrorCode::from_io(&failure(ErrorKind::TimedOut));
    assert_eq!(extracted.code, ErrorCode::DeadlineExceeded);
    assert_eq!(extracted.kind, ErrorKind::TimedOut);
    assert_eq!(
        pairs(&extracted.into_labels()),
        vec![("ERROR_CODE", "DEADLINE_EXCEEDED"), ("ERROR_KIND", "TimedOut")]
    );
    assert_eq!(
        pairs(&extracted.labels_with("if_name", "tun0")),
        vec![
            ("ERROR_CODE", "DEADLINE_EXCEEDED"),
            ("ERROR_KIND", "TimedOut"),
            ("if_name", "tun0")
        ]
    );
    let code = ExtractedErrorCode { code: ErrorCode::Aborted, kind: ErrorKind::Other };
    assert_eq!(pairs(&code.into_labels())[0], ("ERROR_CODE", "ABORTED"));
}

#[test]
fn status_comes_before_kind() {
    let status = Status::new(ErrorCode::Aborted, String::new());
    let unknown = Status { code: 99, message: String::new() };
    let both = ExtractedErrorCode::from_anyhow(Some(ErrorKind::NotFound), Some(&status));
    assert_eq!((both.code, both.kind), (ErrorCode::Aborted, ErrorKind::NotFound));
    let only_status = ExtractedErrorCode::from_anyhow(None, Some(&status));
    assert_eq!((only_status.code, only_status.kind), (ErrorCode::Aborted, ErrorKind::Other));
    let only_kind = ExtractedErrorCode::from_anyhow(Some(ErrorKind::NotFound), None);
    assert_eq!((only_kind.code, only_kind.kind), (ErrorCode::NotFound, ErrorKind::NotFound));
    let neither = ExtractedErrorCode::from_anyhow(None, None);
    assert_eq!((neither.code, neither.kind), (ErrorCode::Unknown, ErrorKind::Other));
    let odd = ExtractedErrorCode::from_anyhow(Some(ErrorKind::NotFound), Some(&unknown));
    assert_eq!(odd.code, ErrorCode::NotFound);
    let odd = ExtractedErrorCode::from_anyhow(None, Some(&unknown));
    assert_eq!(odd.code, ErrorCode::Unknown);
}

#[test]
fn cancellation_is_masked() {
    assert!(mask_cancelled(Ok(())).is_ok());
    assert!(mask_cancelled(Err(Status::new(ErrorCode::Cancelled, String::new()))).is_ok());
    let err = mask_cancelled(Err(Status::new(ErrorCode::Aborted, "a".to_string()))).unwrap_err();
    assert_eq!((err.code, err.message.as_str()), (10, "a"));
}

#[test]
fn joined_tasks_are_unwrapped() {
    assert_eq!(unwrap_join_handle(Ok(Ok(5))).unwrap(), 5);
    let inner = unwrap_join_handle::<()>(Ok(Err(Status::new(ErrorCode::Aborted, "a".to_string()))));
    assert_eq!(inner.unwrap_err().code, 10);
    let cancelled = JoinError { cancelled: true, message: "task was cancelled".to_string() };
    let err = unwrap_join_handle::<()>(Err(cancelled)).unwrap_err();
    assert_eq!((err.code, err.message.as_str()), (1, "task was cancelled"));
    let panicked = JoinError { cancelled: false, message: "task panicked".to_string() };
    let err = unwrap_join_handle::<()>(Err(panicked)).unwrap_err();
    assert_eq!((err.code, err.message.as_str()), (13, "task panicked"));
}

#[test]
fn loop_results_mask_both_ways_of_cancellation() {
    assert!(await_loop_result(Ok(Ok(()))).is_ok());
    let status = Status::new(ErrorCode::Cancelled, String::new());
    assert!(await_loop_result(Ok(Err(status))).is_ok());
    let cancelled = JoinError { cancelled: true, message: String::new() };
    assert!(await_loop_result(Err(cancelled)).is_ok());
    let panicked = JoinError { cancelled: false, message: "p".to_string() };
    assert_eq!(await_loop_result(Err(panicked)).unwrap_err().code, 13);
    let status = Status::new(ErrorCode::NotFound, "n".to_string());
    assert_eq!(await_loop_result(Ok(Err(status))).unwrap_err().message, "n");
}

#[test]
fn failed_checks_tell_what_was_compared() {
    assert!(check_eq(true, "a", "b").is_ok());
    let err = check_eq(false, "a.len()", "b").unwrap_err();
    assert_eq!((err.code, err.message.as_str()), (13, "a.len() != b"));
}

#[test]
fn close_frames_hold_number_and_message() {
    let status = Status::new(ErrorCode::Aborted, "é".to_string());
    assert_eq!(status.close_frame(), (10, vec![0xc3, 0xa9]));
    assert_eq!(Status { code: -1, message: String::new() }.close_frame(), (u32::MAX, vec![]));
}
