//! A family of queues over one double-ended buffer: a one-way queue, and a
//! deque that also works at the other end.
use std::collections::VecDeque;
use vstd::prelude::*;

verus! {

/// Outcome of the last `get_tail()` call.
#[derive(Debug, Copy, Clone, PartialEq, Eq, Structural)]
pub enum GetTailStatus {
    /// `get_tail()` has not been called.
    Nil,
    Success,
    /// The queue was empty.
    Empty,
}

/// Outcome of the last `dequeue_tail()` call.
#[derive(Debug, Copy, Clone, PartialEq, Eq, Structural)]
pub enum DequeueTailStatus {
    Nil,
    Success,
    Empty,
}

/// Outcome of the last `get_head()` call.
#[derive(Debug, Copy, Clone, PartialEq, Eq, Structural)]
pub enum GetHeadStatus {
    Nil,
    Success,
    Empty,
}

/// Outcome of the last `dequeue_head()` call.
#[derive(Debug, Copy, Clone, PartialEq, Eq, Structural)]
pub enum DequeueHeadStatus {
    Nil,
    Success,
    Empty,
}

/// Base type "ParentQueue": values enter at the tail and leave at the head.
pub trait ParentQueue<T>: Sized {
    /// The values, head first.
    spec fn items(&self) -> Seq<T>;

    spec fn get_head_state(&self) -> GetHeadStatus;

    spec fn dequeue_head_state(&self) -> DequeueHeadStatus;

    /// An empty queue.
    fn new() -> (r: Self)
        ensures
            r.items() == Seq::<T>::empty(),
            r.get_head_state() == GetHeadStatus::Nil,
            r.dequeue_head_state() == DequeueHeadStatus::Nil,
    ;

    /// Add `value` at the tail.
    fn enqueue_tail(&mut self, value: T)
        ensures
            final(self).items() == old(self).items().push(value),
            final(self).get_head_state() == old(self).get_head_state(),
            final(self).dequeue_head_state() == old(self).dequeue_head_state(),
    ;

    /// The value at the head, if any.
    fn get_head(&mut self) -> (r: Option<&T>)
        ensures
            final(self).items() == old(self).items(),
            final(self).dequeue_head_state() == old(self).dequeue_head_state(),
            old(self).items().len() == 0 ==> r is None && final(self).get_head_state()
                == GetHeadStatus::Empty,
            old(self).items().len() > 0 ==> r == Some(&old(self).items()[0])
                && final(self).get_head_state() == GetHeadStatus::Success,
    ;

    /// Take the value at the head away, if any.
    fn dequeue_head(&mut self)
        ensures
            final(self).get_head_state() == old(self).get_head_state(),
            old(self).items().len() == 0 ==> final(self).items() == old(self).items()
                && final(self).dequeue_head_state() == DequeueHeadStatus::Empty,
            old(self).items().len() > 0 ==> final(self).items() == old(self).items().drop_first()
                && final(self).dequeue_head_state() == DequeueHeadStatus::Success,
    ;

    fn len(&self) -> (r: usize)
        ensures
            r == self.items().len(),
    ;

    fn get_get_head_status(&self) -> (r: GetHeadStatus)
        ensures
            r == self.get_head_state(),
    ;

    fn get_dequeue_head_status(&self) -> (r: DequeueHeadStatus)
        ensures
            r == self.dequeue_head_state(),
    ;
}

/// Abstract data type "Queue".
pub trait Queue<T>: ParentQueue<T> {
    /// An empty queue, as `ParentQueue::new` builds it.
    fn new() -> Self;
}

/// Abstract data type "Deque": a queue that also works at its tail end and
/// accepts values at its head end.
pub trait Deque<T>: ParentQueue<T> {
    spec fn get_tail_state(&self) -> GetTailStatus;

    spec fn dequeue_tail_state(&self) -> DequeueTailStatus;

    /// An empty deque, as `ParentQueue::new` builds it.
    fn new() -> Self;

    /// Add `value` at the head.
    fn enqueue_head(&mut self, value: T)
        ensures
            final(self).items() == seq![value] + old(self).items(),
            final(self).get_head_state() == old(self).get_head_state(),
            final(self).dequeue_head_state() == old(self).dequeue_head_state(),
            final(self).get_tail_state() == old(self).get_tail_state(),
            final(self).dequeue_tail_state() == old(self).dequeue_tail_state(),
    ;

    /// The value at the tail, if any.
    fn get_tail(&mut self) -> (r: Option<&T>)
        ensures
            final(self).items() == old(self).items(),
            final(self).get_head_state() == old(self).get_head_state(),
            final(self).dequeue_head_state() == old(self).dequeue_head_state(),
            final(self).dequeue_tail_state() == old(self).dequeue_tail_state(),
            old(self).items().len() == 0 ==> r is None && final(self).get_tail_state()
                == GetTailStatus::Empty,
            old(self).items().len() > 0 ==> r == Some(&old(self).items().last())
                && final(self).get_tail_state() == GetTailStatus::Success,
    ;

    /// Take the value at the tail away, if any.
    fn dequeue_tail(&mut self)
        ensures
            final(self).get_head_state() == old(self).get_head_state(),
            final(self).dequeue_head_state() == old(self).dequeue_head_state(),
            final(self).get_tail_state() == old(self).get_tail_state(),
            old(self).items().len() == 0 ==> final(self).items() == old(self).items()
                && final(self).dequeue_tail_state() == DequeueTailStatus::Empty,
            old(self).items().len() > 0 ==> final(self).items() == old(self).items().drop_last()
                && final(self).dequeue_tail_state() == DequeueTailStatus::Success,
    ;

    fn get_get_tail_status(&self) -> (r: GetTailStatus)
        ensures
            r == self.get_tail_state(),
    ;

    fn get_dequeue_tail_status(&self) -> (r: DequeueTailStatus)
        ensures
            r == self.dequeue_tail_state(),
    ;
}

/// The shared queue over a `VecDeque`.
pub struct ParentQueueImpl<T> {
    data: VecDeque<T>,
    get_head_status: GetHeadStatus,
    dequeue_head_status: DequeueHeadStatus,
}

impl<T> ParentQueue<T> for ParentQueueImpl<T> {
    closed spec fn items(&self) -> Seq<T> {
        self.data@
    }

    closed spec fn get_head_state(&self) -> GetHeadStatus {
        self.get_head_status
    }

    closed spec fn dequeue_head_state(&self) -> DequeueHeadStatus {
        self.dequeue_head_status
    }

    fn new() -> (r: Self) {
        ParentQueueImpl {
            data: VecDeque::new(),
            get_head_status: GetHeadStatus::Nil,
            dequeue_head_status: DequeueHeadStatus::Nil,
        }
    }

    fn enqueue_tail(&mut self, value: T) {
        self.data.push_back(value)
    }

    fn get_head(&mut self) -> (r: Option<&T>) {
        if self.data.len() == 0 {
            self.get_head_status = GetHeadStatus::Empty;
            return None;
        }
        self.get_head_status = GetHeadStatus::Success;
        Some(&self.data[0])
    }

    fn dequeue_head(&mut self) {
        if self.data.len() == 0 {
            self.dequeue_head_status = DequeueHeadStatus::Empty;
            return ;
        }
        self.dequeue_head_status = DequeueHeadStatus::Success;
        self.data.pop_front();
    }

    fn len(&self) -> (r: usize) {
        self.data.len()
    }

    fn get_get_head_status(&self) -> (r: GetHeadStatus) {
        self.get_head_status
    }

    fn get_dequeue_head_status(&self) -> (r: DequeueHeadStatus) {
        self.dequeue_head_status
    }
}

/// The one-way queue.
pub struct QueueImpl<T> {
    delegate_queue: ParentQueueImpl<T>,
}

impl<T> Queue<T> for QueueImpl<T> {
    fn new() -> Self {
        <Self as ParentQueue<T>>::new()
    }
}

impl<T> ParentQueue<T> for QueueImpl<T> {
    closed spec fn items(&self) -> Seq<T> {
        self.delegate_queue.items()
    }

    closed spec fn get_head_state(&self) -> GetHeadStatus {
        self.delegate_queue.get_head_state()
    }

    closed spec fn dequeue_head_state(&self) -> DequeueHeadStatus {
        self.delegate_queue.dequeue_head_state()
    }

    fn new() -> (r: Self) {
        QueueImpl { delegate_queue: ParentQueueImpl::new() }
    }

    fn enqueue_tail(&mut self, value: T) {
        self.delegate_queue.enqueue_tail(value)
    }

    fn get_head(&mut self) -> (r: Option<&T>) {
        self.delegate_queue.get_head()
    }

    fn dequeue_head(&mut self) {
        self.delegate_queue.dequeue_head()
    }

    fn len(&self) -> (r: usize) {
        self.delegate_queue.len()
    }

    fn get_get_head_status(&self) -> (r: GetHeadStatus) {
        self.delegate_queue.get_get_head_status()
    }

    fn get_dequeue_head_status(&self) -> (r: DequeueHeadStatus) {
        self.delegate_queue.get_dequeue_head_status()
    }
}

/// The double-ended queue.
pub struct DequeImpl<T> {
    delegate_deque: ParentQueueImpl<T>,
    get_tail_status: GetTailStatus,
    dequeue_tail_status: DequeueTailStatus,
}

impl<T> Deque<T> for DequeImpl<T> {
    closed spec fn get_tail_state(&self) -> GetTailStatus {
        self.get_tail_status
    }

    closed spec fn dequeue_tail_state(&self) -> DequeueTailStatus {
        self.dequeue_tail_status
    }

    fn new() -> Self {
        <Self as ParentQueue<T>>::new()
    }

    fn enqueue_head(&mut self, value: T) {
        self.delegate_deque.data.push_front(value)
    }

    fn get_tail(&mut self) -> (r: Option<&T>) {
        let n = self.delegate_deque.data.len();
        if n == 0 {
            self.get_tail_status = GetTailStatus::Empty;
            return None;
        }
        self.get_tail_status = GetTailStatus::Success;
        Some(&self.delegate_deque.data[n - 1])
    }

    fn dequeue_tail(&mut self) {
        if self.delegate_deque.data.len() == 0 {
            self.dequeue_tail_status = DequeueTailStatus::Empty;
            return ;
        }
        self.dequeue_tail_status = DequeueTailStatus::Success;
        self.delegate_deque.data.pop_back();
    }

    fn get_get_tail_status(&self) -> (r: GetTailStatus) {
        self.get_tail_status
    }

    fn get_dequeue_tail_status(&self) -> (r: DequeueTailStatus) {
        self.dequeue_tail_status
    }
}

impl<T> ParentQueue<T> for DequeImpl<T> {
    closed spec fn items(&self) -> Seq<T> {
        self.delegate_deque.items()
    }

    closed spec fn get_head_state(&self) -> GetHeadStatus {
        self.delegate_deque.get_head_state()
    }

    closed spec fn dequeue_head_state(&self) -> DequeueHeadStatus {
        self.delegate_deque.dequeue_head_state()
    }

    fn new() -> (r: Self) {
        DequeImpl {
            delegate_deque: ParentQueueImpl::new(),
            get_tail_status: GetTailStatus::Nil,
            dequeue_tail_status: DequeueTailStatus::Nil,
        }
    }

    fn enqueue_tail(&mut self, value: T)
        ensures
            final(self).get_tail_state() == old(self).get_tail_state(),
            final(self).dequeue_tail_state() == old(self).dequeue_tail_state(),
    {
        self.delegate_deque.enqueue_tail(value)
    }

    fn get_head(&mut self) -> (r: Option<&T>)
        ensures
            final(self).get_tail_state() == old(self).get_tail_state(),
            final(self).dequeue_tail_state() == old(self).dequeue_tail_state(),
    {
        self.delegate_deque.get_head()
    }

    fn dequeue_head(&mut self)
        ensures
            final(self).get_tail_state() == old(self).get_tail_state(),
            final(self).dequeue_tail_state() == old(self).dequeue_tail_state(),
    {
        self.delegate_deque.dequeue_head()
    }

    fn len(&self) -> (r: usize) {
        self.delegate_deque.len()
    }

    fn get_get_head_status(&self) -> (r: GetHeadStatus) {
        self.delegate_deque.get_get_head_status()
    }

    fn get_dequeue_head_status(&self) -> (r: DequeueHeadStatus) {
        self.delegate_deque.get_dequeue_head_status()
    }
}

} // verus!
