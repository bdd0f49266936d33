use hazptr::queue::RawQueue;

#[test]
fn raw_queue_new_is_empty() {
    let mut queue: RawQueue<u32> = RawQueue::new();
    assert!(queue.is_empty());
    assert!(queue.take_all().is_empty());
}

#[test]
fn raw_queue_push_take_all_head_first() {
    let mut queue = RawQueue::new();
    queue.push(1u32);
    queue.push(2);
    queue.push(3);
    assert!(!queue.is_empty());
    assert_eq!(queue.take_all(), vec![3, 2, 1]);
    assert!(queue.is_empty());
}

#[test]
fn raw_queue_push_many_keeps_sub_list_order() {
    let mut queue = RawQueue::new();
    queue.push(1u32);
    queue.push_many(vec![5, 6, 7]);
    assert_eq!(queue.take_all_unsync(), vec![5, 6, 7, 1]);
    assert!(queue.is_empty());
}
