use voxl::time::{CircularBuffer, DeltaTime};

#[test]
fn circular_buffer_pops_the_oldest_only_when_full() {
    let mut buf: CircularBuffer<u32> = CircularBuffer::new(2);
    assert_eq!(buf.len(), 0);
    assert_eq!(buf.push(1), None);
    assert_eq!(buf.push(2), None);
    assert_eq!(buf.len(), 2);
    // Full: the oldest value leaves, front to back is oldest to newest.
    assert_eq!(buf.push(3), Some(1));
    assert_eq!(buf.push(4), Some(2));
    assert_eq!(buf.len(), 2);
}

#[test]
fn circular_buffer_of_capacity_one_cycles() {
    let mut buf: CircularBuffer<u32> = CircularBuffer::new(1);
    assert_eq!(buf.push(7), None);
    assert_eq!(buf.push(8), Some(7));
    assert_eq!(buf.push(9), Some(8));
    assert_eq!(buf.len(), 1);
}

#[test]
fn delta_time_flush_recaptures_the_clock() {
    let mut dt = DeltaTime::new();
    let before = dt.instant();
    dt.flush();
    let after = dt.instant();
    assert!(after >= before);
}
