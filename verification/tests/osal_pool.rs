use p2p_vpn::osal::buffer_pool::{BufferPool, PooledBuffer};
use std::io::ErrorKind;

#[test]
fn growing_buffers_come_back_empty() {
    let mut pool = BufferPool::new(1, 8);
    let buffer = pool.pop().unwrap();
    assert!(pool.pop().is_none());
    let mut bytes = buffer.into_vec();
    assert!(bytes.is_empty());
    assert!(bytes.capacity() >= 8);
    bytes.extend([1, 2, 3]);

    let slice = PooledBuffer::read_frame(bytes);
    assert_eq!(slice.as_slice(), &[1, 2, 3]);
    let buffer = slice.into_buffer();
    assert_eq!(buffer.as_slice(), &[1, 2, 3]);
    assert!(buffer.write_frame(3).is_ok());
    let err = buffer.write_frame(2).unwrap_err();
    assert_eq!(err.kind, ErrorKind::Other);
    assert_eq!(err.message, "Buffer length 3 != written 2");

    pool.reclaim(buffer);
    assert!(pool.pop().unwrap().as_slice().is_empty());
}
