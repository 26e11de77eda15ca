use unienc::buffer::{SharedBuffer, SharedBufferPool};
use unienc::error::CommonError;

#[test]
fn allocated_buffer_is_zeroed_and_has_the_requested_length() {
    let mut pool = SharedBufferPool::new(16);
    let buffer = pool.allocate(5).unwrap();
    assert_eq!(buffer.len(), 5);
    assert!(!buffer.is_empty());
    assert_eq!(buffer.data(), &[0u8, 0, 0, 0, 0]);
}

#[test]
fn live_buffers_count_against_the_limit() {
    let mut pool = SharedBufferPool::new(10);
    let first = pool.allocate(6).unwrap();
    assert!(matches!(
        pool.allocate(5),
        Err(CommonError::BufferPoolExceeded)
    ));
    let second = pool.allocate(4).unwrap();
    assert!(matches!(
        pool.allocate(1),
        Err(CommonError::BufferPoolExceeded)
    ));
    assert_eq!(first.len() + second.len(), 10);
}

#[test]
fn dropped_buffers_give_their_bytes_back() {
    let mut pool = SharedBufferPool::new(10);
    let first = pool.allocate(6).unwrap();
    let second = pool.allocate(4).unwrap();
    drop(first);
    let third = pool.allocate(6).unwrap();
    assert!(pool.allocate(1).is_err());
    drop(second);
    drop(third);
    assert_eq!(pool.allocate(10).unwrap().len(), 10);
}

#[test]
fn zero_limit_is_unlimited() {
    let mut pool = SharedBufferPool::new(0);
    let mut held = Vec::new();
    for _ in 0..8 {
        held.push(pool.allocate(1 << 16).unwrap());
    }
    assert_eq!(held.len(), 8);
}

#[test]
fn request_over_the_limit_by_itself_is_refused() {
    let mut pool = SharedBufferPool::new(3);
    assert!(pool.allocate(4).is_err());
    assert!(pool.allocate(usize::MAX).is_err());
    assert!(pool.allocate(3).is_ok());
}

#[test]
fn full_pool_takes_empty_buffers_only() {
    let mut pool = SharedBufferPool::new(3);
    let full = pool.allocate(3).unwrap();
    let empty = pool.allocate(0).unwrap();
    assert!(empty.is_empty());
    assert!(pool.allocate(1).is_err());
    drop(full);
}

#[test]
fn refused_request_changes_nothing_for_the_next_one() {
    let mut pool = SharedBufferPool::new(8);
    let held = pool.allocate(5).unwrap();
    for _ in 0..4 {
        assert!(pool.allocate(4).is_err());
    }
    assert_eq!(pool.allocate(3).unwrap().len(), 3);
    drop(held);
}

#[test]
fn observed_counts_decide_which_buffers_are_counted() {
    let mut pool = SharedBufferPool::new(10);
    let held = pool.allocate(6).unwrap();
    assert!(pool.allocate_observed(&vec![2], 5).is_err());
    assert!(pool.allocate_observed(&vec![1], 5).is_ok());
    drop(held);
}

#[test]
fn dropping_the_pool_leaves_its_buffers() {
    let mut pool = SharedBufferPool::new(4);
    let mut buffer = pool.allocate(4).unwrap();
    drop(pool);
    buffer.data_mut()[3] = 7;
    assert_eq!(buffer.data(), &[0u8, 0, 0, 7]);
}

#[test]
fn unmanaged_buffer_holds_the_given_bytes() {
    let buffer = SharedBuffer::new_unmanaged(vec![1, 2, 3]);
    assert_eq!(buffer.len(), 3);
    assert_eq!(buffer.data(), &[1u8, 2, 3]);
    assert!(SharedBuffer::new_unmanaged(Vec::new()).is_empty());
}

#[test]
fn written_bytes_are_read_back() {
    let mut buffer = SharedBuffer::new_unmanaged(vec![0; 4]);
    buffer.data_mut().copy_from_slice(&[9, 8, 7, 6]);
    assert_eq!(buffer.data(), &[9u8, 8, 7, 6]);
    assert_eq!(buffer.len(), 4);
}
