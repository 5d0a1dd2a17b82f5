use p2p_vpn::buffer_pool::{BufferPool, PooledSlice};
use p2p_vpn::error::{IoFailure, Label};
use p2p_vpn::osal::tun::error::{is_tun_transient, transient_label, TransientErrors};
use p2p_vpn::osal::buffer_pool::PooledBuffer;
use p2p_vpn::osal::tun::{
    after_read, after_write, decode_if_name, encode_if_name, received, sent, tun_flags,
    FrameAction, WriteAction,
};
use p2p_vpn::tun::packet::TxPacket;
use p2p_vpn::tun::{recorded_size, RxAction, Tun, TxAction};
use std::io::ErrorKind;

fn os_failure(number: i32, kind: ErrorKind) -> IoFailure {
    IoFailure { raw_os_error: Some(number), kind, message: "os".to_string() }
}

fn own_failure() -> IoFailure {
    IoFailure { raw_os_error: None, kind: ErrorKind::WouldBlock, message: "own".to_string() }
}

fn tun() -> Tun {
    Tun::new("tun7".to_string(), 12)
}

fn frame(bytes: &[u8]) -> PooledSlice {
    let mut buffer = BufferPool::new(1, 16).pop().unwrap();
    buffer.chunk_mut()[..bytes.len()].copy_from_slice(bytes);
    buffer.read_frame(bytes.len())
}

fn pairs(labels: &[Label]) -> Vec<(&str, &str)> {
    labels.iter().map(|l| (l.name.as_str(), l.value.as_str())).collect()
}

#[test]
fn transient_errors_have_names() {
    let kind = ErrorKind::Other;
    for (number, name) in [
        (libc::EAGAIN, "EAGAIN"),
        (libc::EINTR, "EINTR"),
        (libc::EINVAL, "EINVAL"),
        (libc::EMSGSIZE, "EMSGSIZE"),
        (libc::ENOBUFS, "ENOBUFS"),
    ] {
        assert!(is_tun_transient(&os_failure(number, kind)));
        assert_eq!(transient_label(&os_failure(number, kind)), Some(name));
    }
    assert!(!is_tun_transient(&os_failure(libc::EBADF, kind)));
    assert_eq!(transient_label(&os_failure(libc::EIO, kind)), None);
    assert!(!is_tun_transient(&own_failure()));
}

#[test]
fn transient_errors_are_looked_up_in_order() {
    let errors = TransientErrors { eagain: 1, eintr: 2, einval: 2, emsgsize: 4, enobufs: 5 };
    assert_eq!(errors.label(&os_failure(2, ErrorKind::Other)), Some("EINTR"));
    assert_eq!(errors.label(&os_failure(4, ErrorKind::Other)), Some("EMSGSIZE"));
    assert_eq!(errors.label(&os_failure(3, ErrorKind::Other)), None);
    assert_eq!(errors.label(&own_failure()), None);
}

#[test]
fn read_packets_are_forwarded_unless_they_are_empty() {
    match tun().received(Ok(frame(&[1, 2, 3]))) {
        RxAction::Forward(size, packet) => {
            assert_eq!(size, 3);
            assert_eq!(packet.as_slice(), &[1, 2, 3]);
        }
        _ => panic!("not forwarded"),
    }
    match tun().received(Ok(frame(&[]))) {
        RxAction::Skip(frame) => assert_eq!(frame.clear().remaining_mut(), 16),
        _ => panic!("not skipped"),
    }
}

#[test]
fn transient_read_errors_are_retried() {
    let failure = os_failure(libc::EAGAIN, ErrorKind::WouldBlock);
    match tun().received(Err(failure)) {
        RxAction::Retry(labels) => assert_eq!(
            pairs(&labels),
            vec![("ERROR_CODE", "UNAVAILABLE"), ("ERROR_KIND", "WouldBlock"), ("if_name", "tun7")]
        ),
        _ => panic!("not retried"),
    }
    for number in [libc::EINTR, libc::EINVAL, libc::EMSGSIZE, libc::ENOBUFS] {
        let failure = os_failure(number, ErrorKind::Other);
        assert!(matches!(tun().received(Err(failure)), RxAction::Retry(_)));
    }
    match tun().received(Err(own_failure())) {
        RxAction::Fail(failure) => assert_eq!(failure.message, "own"),
        _ => panic!("not failed"),
    }
    match tun().received(Err(os_failure(libc::EBADF, ErrorKind::Other))) {
        RxAction::Fail(failure) => assert_eq!(failure.raw_os_error, Some(libc::EBADF)),
        _ => panic!("not failed"),
    }
}

#[test]
fn interfaces_are_asked_for_with_several_queues() {
    assert_eq!(
        tun_flags() as i32,
        libc::IFF_TUN | libc::IFF_NO_PI | libc::IFF_MULTI_QUEUE
    );
    assert_eq!(tun_flags(), 0x1101);
}

#[test]
fn read_frames_are_forwarded_unless_they_are_empty() {
    match received(Ok(PooledBuffer::read_frame(vec![1, 2, 3]))) {
        FrameAction::Forward(frame) => assert_eq!(frame.as_slice(), &[1, 2, 3]),
        _ => panic!("not forwarded"),
    }
    assert!(matches!(
        received(Ok(PooledBuffer::read_frame(vec![]))),
        FrameAction::Skip(frame) if frame.as_slice().is_empty()
    ));
    let failure = os_failure(libc::EMSGSIZE, ErrorKind::Other);
    assert!(matches!(received(Err(failure)), FrameAction::Retry("EMSGSIZE")));
    match received(Err(os_failure(libc::EBADF, ErrorKind::Other))) {
        FrameAction::Fail(failure) => assert_eq!(failure.raw_os_error, Some(libc::EBADF)),
        _ => panic!("not failed"),
    }
    assert!(matches!(received(Err(own_failure())), FrameAction::Fail(_)));

    let errors = TransientErrors { eagain: 1, eintr: 2, einval: 3, emsgsize: 4, enobufs: 5 };
    let failure = os_failure(5, ErrorKind::Other);
    assert!(matches!(after_read(&errors, Err(failure)), FrameAction::Retry("ENOBUFS")));
    let failure = os_failure(6, ErrorKind::Other);
    assert!(matches!(after_read(&errors, Err(failure)), FrameAction::Fail(_)));
}

#[test]
fn written_frames_are_checked() {
    let frame = PooledBuffer::read_frame(vec![1, 2]);
    assert!(matches!(sent(&frame, Ok(2)), WriteAction::Done));
    match sent(&frame, Ok(1)) {
        WriteAction::Fail(failure) => {
            assert_eq!(failure.message, "Buffer length 2 != written 1");
            assert_eq!(failure.kind, ErrorKind::Other);
        }
        _ => panic!("not failed"),
    }
    let failure = os_failure(libc::EAGAIN, ErrorKind::WouldBlock);
    assert!(matches!(sent(&frame, Err(failure)), WriteAction::Lost("EAGAIN")));
    match sent(&frame, Err(os_failure(libc::EIO, ErrorKind::Other))) {
        WriteAction::Fail(failure) => assert_eq!(failure.raw_os_error, Some(libc::EIO)),
        _ => panic!("not failed"),
    }

    let errors = TransientErrors { eagain: 1, eintr: 2, einval: 3, emsgsize: 4, enobufs: 5 };
    let failure = os_failure(2, ErrorKind::Other);
    assert!(matches!(after_write(&errors, &frame, Err(failure)), WriteAction::Lost("EINTR")));
    assert!(matches!(after_write(&errors, &frame, Err(own_failure())), WriteAction::Fail(_)));
}

#[test]
fn written_packets_are_checked() {
    let packet = TxPacket::new(vec![1, 2]);
    assert!(matches!(tun().sent(&packet, Ok(2)), TxAction::Done));
    match tun().sent(&packet, Ok(1)) {
        TxAction::Fail(failure) => assert_eq!(failure.message, "Buffer length 2 != written 1"),
        _ => panic!("not failed"),
    }
    match tun().sent(&packet, Err(os_failure(libc::ENOBUFS, ErrorKind::Other))) {
        TxAction::Lost(labels) => assert_eq!(
            pairs(&labels),
            vec![("ERROR_CODE", "UNKNOWN"), ("ERROR_KIND", "Other"), ("if_name", "tun7")]
        ),
        _ => panic!("not lost"),
    }
    assert!(matches!(tun().sent(&packet, Err(own_failure())), TxAction::Fail(_)));
    match tun().sent(&packet, Err(os_failure(libc::EIO, ErrorKind::Other))) {
        TxAction::Fail(failure) => assert_eq!(failure.raw_os_error, Some(libc::EIO)),
        _ => panic!("not failed"),
    }
}

#[test]
fn sizes_are_recorded() {
    assert_eq!(tun().if_index(), 12);
    assert_eq!(recorded_size(2048), 2048);
    assert_eq!(recorded_size(u32::MAX as usize + 3), 2);
}

#[test]
fn interface_names_are_read_back() {
    for name in ["tun0", "", "a", "fifteen-bytes-x", "é"] {
        let buffer = encode_if_name(Some(name)).unwrap();
        assert_eq!(buffer.len(), 16);
        assert_eq!(decode_if_name(&buffer).unwrap(), name);
    }
    assert_eq!(encode_if_name(None).unwrap(), vec![0; 16]);
    assert_eq!(&encode_if_name(Some("tun0")).unwrap()[..6], b"tun0\0\0");
}

#[test]
fn long_interface_names_are_refused() {
    let err = encode_if_name(Some("sixteen-bytes-xx")).unwrap_err();
    assert_eq!(err.kind, ErrorKind::InvalidInput);
    assert_eq!(err.message, "Name too long");
}

#[test]
fn malformed_interface_names_are_refused() {
    let err = decode_if_name(&[b'x'; 16]).unwrap_err();
    assert_eq!(err.kind, ErrorKind::InvalidData);
    assert_eq!(err.message, "data provided does not contain a nul");
    let err = decode_if_name(&[0xff, 0]).unwrap_err();
    assert_eq!(err.kind, ErrorKind::InvalidData);
    let reason = String::from_utf8(vec![0xff]).unwrap_err().utf8_error().to_string();
    assert!(!reason.is_empty());
    assert_eq!(err.message, reason);
    // What comes after the first NUL does not matter.
    assert_eq!(decode_if_name(&[b'x', 0, 0xff, 0]).unwrap(), "x");
}
