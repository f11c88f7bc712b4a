use ooap::queue::{DequeueStatus, Queue, QueueImpl};

#[test]
fn queue_test_queue() {
    let mut queue: QueueImpl<i64> = Queue::<i64>::new();
    assert_eq!(queue.len(), 0);
    assert_eq!(queue.get_dequeue_status(), DequeueStatus::Nil);
    assert_eq!(queue.dequeue(), None);
    assert_eq!(queue.get_dequeue_status(), DequeueStatus::Empty);

    let max = 100;
    let range = 1..max + 1;

    for i in range.clone() {
        queue.enqueue(i);
        assert_eq!(queue.len(), i as usize);
    }

    for i in range {
        assert_eq!(queue.dequeue(), Some(i));
        assert_eq!(queue.get_dequeue_status(), DequeueStatus::Success);
        assert_eq!(queue.len(), (max - i) as usize);
    }
}

#[test]
fn queue_interleaved_enqueue_keeps_fifo_order() {
    let mut queue: QueueImpl<i64> = Queue::<i64>::new();
    queue.enqueue(1);
    queue.enqueue(2);
    queue.enqueue(3);
    assert_eq!(queue.dequeue(), Some(1));
    queue.enqueue(4);
    assert_eq!(queue.dequeue(), Some(2));
    assert_eq!(queue.dequeue(), Some(3));
    assert_eq!(queue.dequeue(), Some(4));
    assert_eq!(queue.dequeue(), None);
    assert_eq!(queue.get_dequeue_status(), DequeueStatus::Empty);
}
