use esp_hal::queue::{CompatQueue, QueueImplementation, QueueInner, SemaphoreHandle, SemaphoreKind};

#[test]
fn queue_is_first_in_first_out() {
    let mut q = QueueInner::new(3, 2);
    q.send_to_back(&[1, 1]);
    q.send_to_back(&[2, 2]);
    q.send_to_back(&[3, 3]);
    assert_eq!(q.len(), 3);
    let mut dst = [0u8; 2];
    q.read_from_front(&mut dst);
    assert_eq!(dst, [1, 1]);
    q.send_to_back(&[4, 4]);
    q.read_from_front(&mut dst);
    assert_eq!(dst, [2, 2]);
    q.read_from_front(&mut dst);
    assert_eq!(dst, [3, 3]);
    q.read_from_front(&mut dst);
    assert_eq!(dst, [4, 4]);
    assert_eq!(q.len(), 0);
}

#[test]
fn send_to_front_jumps_the_queue() {
    let mut q = QueueInner::new(4, 1);
    q.send_to_back(&[1]);
    q.send_to_front(&[9]);
    let mut dst = [0u8; 1];
    q.read_from_front(&mut dst);
    assert_eq!(dst, [9]);
    q.read_from_front(&mut dst);
    assert_eq!(dst, [1]);
}

#[test]
fn remove_takes_out_the_first_equal_item() {
    let mut q = QueueInner::new(4, 1);
    q.send_to_back(&[5]);
    q.send_to_back(&[6]);
    q.send_to_back(&[5]);
    assert!(q.remove(&[5]));
    assert!(!q.remove(&[7]));
    assert_eq!(q.len(), 2);
    let mut dst = [0u8; 1];
    q.read_from_front(&mut dst);
    assert_eq!(dst, [6]);
    q.read_from_front(&mut dst);
    assert_eq!(dst, [5]);
}

#[test]
fn compat_queue_refuses_when_full_and_empty() {
    let mut q = CompatQueue::create(2, 1);
    assert!(q.send_to_back(&[1], None));
    assert!(q.send_to_front(&[0], Some(10)));
    assert!(!q.send_to_back(&[2], Some(0)));
    assert!(!q.try_send_to_back_from_isr(&[2], None));
    assert_eq!(q.messages_waiting(), 2);
    let mut item = [0u8; 1];
    assert!(q.receive(&mut item, None));
    assert_eq!(item, [0]);
    assert!(q.try_receive_from_isr(&mut item, None));
    assert_eq!(item, [1]);
    assert!(!q.receive(&mut item, Some(5)));
    assert_eq!(q.messages_waiting(), 0);
}

#[test]
fn compat_queue_remove() {
    let mut q = CompatQueue::create(3, 1);
    q.send_to_back(&[1], None);
    q.send_to_back(&[2], None);
    q.remove(&[1]);
    assert_eq!(q.messages_waiting(), 1);
    let mut item = [0u8; 1];
    assert!(q.receive(&mut item, None));
    assert_eq!(item, [2]);
}

#[test]
fn counting_semaphore_counts_tokens() {
    let mut s = SemaphoreHandle::new(SemaphoreKind::Counting { max: 2, initial: 1 });
    assert_eq!(s.current_count(), 1);
    assert!(s.take(None));
    assert!(!s.take(Some(100)));
    assert!(s.give());
    assert!(s.give());
    assert!(!s.give());
    assert_eq!(s.current_count(), 2);
    assert!(s.try_take_from_isr(None));
    assert!(s.try_give_from_isr(None));
}

#[test]
fn mutex_semaphore_has_one_token() {
    let mut m = SemaphoreHandle::new(SemaphoreKind::Mutex);
    assert!(m.take(None));
    assert!(!m.take(None));
    assert!(m.give());
    assert!(!m.give());
}
