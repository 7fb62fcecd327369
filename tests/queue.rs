use ble_midi_bridge::queue::{EventQueue, Received, EVENT_QUEUE_CAPACITY};

#[test]
fn full_queue_holds_back_second_send_until_drained() {
    let mut q = EventQueue::new(EVENT_QUEUE_CAPACITY);
    assert_eq!(q.try_send(vec![0x90, 0x3C, 0x7F]), Ok(()));
    assert!(q.is_full());
    assert_eq!(q.try_send(vec![0x80, 0x3C, 0x00]), Err(vec![0x80, 0x3C, 0x00]));
    assert_eq!(q.len(), 1);
    assert_eq!(q.try_recv(), Received::Event(vec![0x90, 0x3C, 0x7F]));
    assert_eq!(q.try_send(vec![0x80, 0x3C, 0x00]), Ok(()));
    assert_eq!(q.try_recv(), Received::Event(vec![0x80, 0x3C, 0x00]));
}

#[test]
fn events_leave_in_order() {
    let mut q = EventQueue::new(3);
    assert_eq!(q.capacity(), 3);
    assert_eq!(q.try_send(vec![1]), Ok(()));
    assert_eq!(q.try_send(vec![2]), Ok(()));
    assert_eq!(q.try_send(vec![3]), Ok(()));
    assert_eq!(q.try_send(vec![4]), Err(vec![4]));
    assert_eq!(q.try_recv(), Received::Event(vec![1]));
    assert_eq!(q.try_recv(), Received::Event(vec![2]));
    assert_eq!(q.try_recv(), Received::Event(vec![3]));
    assert_eq!(q.try_recv(), Received::Empty);
}

#[test]
fn closed_queue_drains_then_reports_source_closed() {
    let mut q = EventQueue::new(EVENT_QUEUE_CAPACITY);
    assert_eq!(q.try_send(vec![0xB0, 0x07, 0x64]), Ok(()));
    q.close();
    assert!(q.is_closed());
    assert_eq!(q.try_recv(), Received::Event(vec![0xB0, 0x07, 0x64]));
    assert_eq!(q.try_recv(), Received::SourceClosed);
    assert_eq!(q.try_recv(), Received::SourceClosed);
}

#[test]
fn capacity_is_one() {
    assert_eq!(EVENT_QUEUE_CAPACITY, 1);
}
