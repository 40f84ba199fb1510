use grid_kernel::ai_ingestion_buffer::AiIngestionBuffer;

#[test]
fn full_buffer_hands_the_setpoint_back() {
    let mut buffer = AiIngestionBuffer::new(2);
    assert_eq!(buffer.push((10.0_f64, 1.0_f64, 1_u64)), Ok(()));
    assert_eq!(buffer.push((20.0, 2.0, 2)), Ok(()));
    assert_eq!(buffer.push((30.0, 3.0, 3)), Err((30.0, 3.0, 3)));
    assert_eq!(buffer.len(), 2);
}

#[test]
fn setpoints_leave_in_arrival_order() {
    let mut buffer = AiIngestionBuffer::new(4);
    for ts in 1..=3_u64 {
        assert!(buffer.push(ts).is_ok());
    }
    assert_eq!(buffer.pop(), Some(1));
    assert!(buffer.push(4).is_ok());
    assert_eq!(buffer.pop(), Some(2));
    assert_eq!(buffer.pop(), Some(3));
    assert_eq!(buffer.pop(), Some(4));
    assert_eq!(buffer.pop(), None);
}

#[test]
fn empty_buffer_pops_nothing_and_zero_capacity_accepts_nothing() {
    let mut empty: AiIngestionBuffer<u64> = AiIngestionBuffer::new(8);
    assert_eq!(empty.pop(), None);
    let mut closed = AiIngestionBuffer::new(0);
    assert_eq!(closed.push(7_u64), Err(7));
    assert_eq!(closed.pop(), None);
}
