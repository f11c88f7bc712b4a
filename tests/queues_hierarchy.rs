use ooap::queues_hierarchy::{
    Deque, DequeImpl, DequeueHeadStatus, DequeueTailStatus, GetHeadStatus, GetTailStatus,
    ParentQueue, Queue, QueueImpl,
};

#[test]
fn queues_hierarchy_test_queue() {
    let mut queue: QueueImpl<i64> = Queue::<i64>::new();
    assert_eq!(queue.len(), 0);
    assert_eq!(queue.get_dequeue_head_status(), DequeueHeadStatus::Nil);
    assert_eq!(queue.get_head(), None);
    queue.dequeue_head();
    assert_eq!(queue.get_dequeue_head_status(), DequeueHeadStatus::Empty);

    let max = 100;
    let range = 1..max + 1;

    for i in range.clone() {
        queue.enqueue_tail(i);
        assert_eq!(queue.len(), i as usize);
    }

    for i in range {
        assert_eq!(queue.get_head(), Some(&i));
        queue.dequeue_head();
        assert_eq!(queue.get_dequeue_head_status(), DequeueHeadStatus::Success);
        assert_eq!(queue.len(), (max - i) as usize);
    }
}

#[test]
fn deque_works_at_both_ends() {
    let mut deque: DequeImpl<i64> = Deque::<i64>::new();
    assert_eq!(deque.get_tail(), None);
    assert_eq!(deque.get_get_tail_status(), GetTailStatus::Empty);
    deque.dequeue_tail();
    assert_eq!(deque.get_dequeue_tail_status(), DequeueTailStatus::Empty);
    deque.enqueue_tail(2);
    deque.enqueue_head(1);
    deque.enqueue_tail(3);
    assert_eq!(deque.len(), 3);
    assert_eq!(deque.get_head(), Some(&1));
    assert_eq!(deque.get_get_head_status(), GetHeadStatus::Success);
    assert_eq!(deque.get_tail(), Some(&3));
    assert_eq!(deque.get_get_tail_status(), GetTailStatus::Success);
    deque.dequeue_tail();
    assert_eq!(deque.get_dequeue_tail_status(), DequeueTailStatus::Success);
    assert_eq!(deque.get_tail(), Some(&2));
    deque.dequeue_head();
    assert_eq!(deque.get_head(), Some(&2));
    assert_eq!(deque.len(), 1);
}
