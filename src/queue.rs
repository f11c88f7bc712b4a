//! A FIFO queue built from two stacks: values are pushed on a back stack and
//! popped from a front stack, which is refilled from the back stack in reverse
//! order when it runs empty.
use vstd::prelude::*;

verus! {

/// Outcome of the last `dequeue()` call.
#[derive(Debug, Copy, Clone, PartialEq, Eq, Structural)]
pub enum DequeueStatus {
    /// `dequeue()` has not been called.
    Nil,
    /// A value was taken from the front.
    Success,
    /// The queue was empty.
    Empty,
}

/// Abstract data type "Queue".
pub trait Queue<T>: Sized {
    /// The values, front first.
    spec fn items(&self) -> Seq<T>;

    spec fn dequeue_state(&self) -> DequeueStatus;

    /// An empty queue.
    fn new() -> (r: Self)
        ensures
            r.items() == Seq::<T>::empty(),
            r.dequeue_state() == DequeueStatus::Nil,
    ;

    /// Add `value` at the back.
    fn enqueue(&mut self, value: T)
        requires
            old(self).items().len() < usize::MAX,
        ensures
            final(self).items() == old(self).items().push(value),
            final(self).dequeue_state() == old(self).dequeue_state(),
    ;

    /// Take the value at the front, if any.
    fn dequeue(&mut self) -> (r: Option<T>)
        ensures
            old(self).items().len() == 0 ==> r is None && final(self).items() == old(self).items()
                && final(self).dequeue_state() == DequeueStatus::Empty,
            old(self).items().len() > 0 ==> r == Some(old(self).items()[0]) && final(self).items()
                == old(self).items().drop_first() && final(self).dequeue_state()
                == DequeueStatus::Success,
    ;

    fn len(&self) -> (r: usize)
        requires
            self.items().len() <= usize::MAX,
        ensures
            r == self.items().len(),
    ;

    fn get_dequeue_status(&self) -> (r: DequeueStatus)
        ensures
            r == self.dequeue_state(),
    ;
}

/// The queue as two vectors used as stacks.
pub struct QueueImpl<T> {
    back_stack: Vec<T>,
    front_stack: Vec<T>,
    dequeue_status: DequeueStatus,
}

impl<T> Queue<T> for QueueImpl<T> {
    /// The front stack from its top down, then the back stack from its bottom up.
    closed spec fn items(&self) -> Seq<T> {
        self.front_stack@.reverse() + self.back_stack@
    }

    closed spec fn dequeue_state(&self) -> DequeueStatus {
        self.dequeue_status
    }

    fn new() -> (r: Self) {
        let r = QueueImpl {
            back_stack: Vec::new(),
            front_stack: Vec::new(),
            dequeue_status: DequeueStatus::Nil,
        };
        assert(r.items() =~= Seq::<T>::empty());
        r
    }

    fn enqueue(&mut self, value: T) {
        self.back_stack.push(value);
        assert(self.items() =~= old(self).items().push(value));
    }

    fn dequeue(&mut self) -> (r: Option<T>) {
        if self.front_stack.len() == 0 && self.back_stack.len() == 0 {
            assert(self.items() =~= Seq::<T>::empty());
            self.dequeue_status = DequeueStatus::Empty;
            return None;
        }
        self.dequeue_status = DequeueStatus::Success;
        if self.front_stack.len() > 0 {
            let ghost front = self.front_stack@;
            let r = self.front_stack.pop();
            proof {
                assert(front.reverse() =~= seq![front.last()] + front.drop_last().reverse());
                assert(self.items() =~= old(self).items().drop_first());
            }
            return r;
        }
        let ghost pending = self.back_stack@;
        assert(self.front_stack@.reverse() =~= Seq::<T>::empty());
        while self.back_stack.len() > 1
            invariant
                self.back_stack@.len() >= 1,
                self.back_stack@ + self.front_stack@.reverse() == pending,
                self.dequeue_status == DequeueStatus::Success,
            decreases self.back_stack@.len(),
        {
            let ghost back = self.back_stack@;
            let ghost front = self.front_stack@;
            let x = self.back_stack.pop().unwrap();
            self.front_stack.push(x);
            proof {
                assert(self.front_stack@.reverse() =~= seq![x] + front.reverse());
                assert(back =~= self.back_stack@ + seq![x]);
                assert(self.back_stack@ + self.front_stack@.reverse() =~= back
                    + front.reverse());
            }
        }
        let r = self.back_stack.pop();
        proof {
            assert(self.items() =~= pending.drop_first());
        }
        r
    }

    fn len(&self) -> (r: usize) {
        self.back_stack.len() + self.front_stack.len()
    }

    fn get_dequeue_status(&self) -> (r: DequeueStatus) {
        self.dequeue_status
    }
}

} // verus!
