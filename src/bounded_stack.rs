//! A stack with a fixed upper bound on the number of items it holds.
use vstd::prelude::*;

verus! {

/// Outcome of the last `push()` call.
#[derive(Debug, Copy, Clone, PartialEq, Eq, Structural)]
pub enum PushStatus {
    /// `push()` has not been called.
    Nil,
    /// The value was pushed.
    Success,
    /// The stack was full.
    Error,
}

/// Outcome of the last `pop()` call.
#[derive(Debug, Copy, Clone, PartialEq, Eq, Structural)]
pub enum PopStatus {
    Nil,
    Success,
    /// The stack was empty.
    Error,
}

/// Outcome of the last `peek()` call.
#[derive(Debug, Copy, Clone, PartialEq, Eq, Structural)]
pub enum PeekStatus {
    Nil,
    Success,
    /// The stack was empty.
    Error,
}

/// The upper bound of a stack built with `new()`.
pub const DEFAULT_UPPER_BOUND: usize = 32;

/// Abstract data type "BoundedStack".
pub trait BoundedStack<T>: Sized {
    /// The items, bottom first.
    spec fn items(&self) -> Seq<T>;

    /// The most items the stack may hold.
    spec fn bound(&self) -> nat;

    spec fn push_state(&self) -> PushStatus;

    spec fn pop_state(&self) -> PopStatus;

    spec fn peek_state(&self) -> PeekStatus;

    /// An empty stack bounded by `DEFAULT_UPPER_BOUND`.
    fn new() -> (r: Self)
        ensures
            r.items() == Seq::<T>::empty(),
            r.bound() == DEFAULT_UPPER_BOUND,
            r.push_state() == PushStatus::Nil,
            r.pop_state() == PopStatus::Nil,
            r.peek_state() == PeekStatus::Nil,
    ;

    /// An empty stack bounded by `upper_bound`.
    fn new_with_upper_bound(upper_bound: usize) -> (r: Self)
        ensures
            r.items() == Seq::<T>::empty(),
            r.bound() == upper_bound,
            r.push_state() == PushStatus::Nil,
            r.pop_state() == PopStatus::Nil,
            r.peek_state() == PeekStatus::Nil,
    ;

    /// Push `value` unless the stack is full.
    fn push(&mut self, value: T)
        ensures
            final(self).bound() == old(self).bound(),
            final(self).pop_state() == old(self).pop_state(),
            final(self).peek_state() == old(self).peek_state(),
            old(self).items().len() < old(self).bound() ==> final(self).items()
                == old(self).items().push(value) && final(self).push_state()
                == PushStatus::Success,
            old(self).items().len() >= old(self).bound() ==> final(self).items()
                == old(self).items() && final(self).push_state() == PushStatus::Error,
    ;

    /// Take off the top item unless the stack is empty.
    fn pop(&mut self)
        ensures
            final(self).bound() == old(self).bound(),
            final(self).push_state() == old(self).push_state(),
            final(self).peek_state() == old(self).peek_state(),
            old(self).items().len() > 0 ==> final(self).items() == old(self).items().drop_last()
                && final(self).pop_state() == PopStatus::Success,
            old(self).items().len() == 0 ==> final(self).items() == old(self).items()
                && final(self).pop_state() == PopStatus::Error,
    ;

    /// Empty the stack and reset every status; the bound is kept.
    fn clear(&mut self)
        ensures
            final(self).items() == Seq::<T>::empty(),
            final(self).bound() == old(self).bound(),
            final(self).push_state() == PushStatus::Nil,
            final(self).pop_state() == PopStatus::Nil,
            final(self).peek_state() == PeekStatus::Nil,
    ;

    /// The top item, if any.
    fn peek(&mut self) -> (r: Option<T>)
        ensures
            final(self).items() == old(self).items(),
            final(self).bound() == old(self).bound(),
            final(self).push_state() == old(self).push_state(),
            final(self).pop_state() == old(self).pop_state(),
            old(self).items().len() > 0 ==> r == Some(old(self).items().last())
                && final(self).peek_state() == PeekStatus::Success,
            old(self).items().len() == 0 ==> r is None && final(self).peek_state()
                == PeekStatus::Error,
    ;

    fn size(&self) -> (r: usize)
        ensures
            r == self.items().len(),
    ;

    fn get_push_status(&self) -> (r: PushStatus)
        ensures
            r == self.push_state(),
    ;

    fn get_pop_status(&self) -> (r: PopStatus)
        ensures
            r == self.pop_state(),
    ;

    fn get_peek_status(&self) -> (r: PeekStatus)
        ensures
            r == self.peek_state(),
    ;
}

/// A bounded stack over a vector.
pub struct BoundedStackImpl<T> {
    stack: Vec<T>,
    const_upper_bound: usize,
    push_status: PushStatus,
    pop_status: PopStatus,
    peek_status: PeekStatus,
}

impl<T: Copy> BoundedStackImpl<T> {
    /// The most items this stack may hold.
    pub fn upper_bound(&self) -> (r: usize)
        ensures
            r == self.bound(),
    {
        self.const_upper_bound
    }
}

impl<T: Copy> BoundedStack<T> for BoundedStackImpl<T> {
    closed spec fn items(&self) -> Seq<T> {
        self.stack@
    }

    closed spec fn bound(&self) -> nat {
        self.const_upper_bound as nat
    }

    closed spec fn push_state(&self) -> PushStatus {
        self.push_status
    }

    closed spec fn pop_state(&self) -> PopStatus {
        self.pop_status
    }

    closed spec fn peek_state(&self) -> PeekStatus {
        self.peek_status
    }

    fn new() -> (r: Self) {
        Self::new_with_upper_bound(DEFAULT_UPPER_BOUND)
    }

    fn new_with_upper_bound(upper_bound: usize) -> (r: Self) {
        BoundedStackImpl {
            stack: Vec::new(),
            const_upper_bound: upper_bound,
            push_status: PushStatus::Nil,
            pop_status: PopStatus::Nil,
            peek_status: PeekStatus::Nil,
        }
    }

    fn push(&mut self, value: T) {
        if self.stack.len() >= self.const_upper_bound {
            self.push_status = PushStatus::Error;
            return ;
        }
        self.stack.push(value);
        self.push_status = PushStatus::Success;
    }

    fn pop(&mut self) {
        if self.stack.len() == 0 {
            self.pop_status = PopStatus::Error;
            return ;
        }
        self.stack.pop();
        self.pop_status = PopStatus::Success;
    }

    fn clear(&mut self) {
        self.stack = Vec::new();
        self.push_status = PushStatus::Nil;
        self.pop_status = PopStatus::Nil;
        self.peek_status = PeekStatus::Nil;
    }

    fn peek(&mut self) -> (r: Option<T>) {
        let n = self.stack.len();
        if n == 0 {
            self.peek_status = PeekStatus::Error;
            return None;
        }
        self.peek_status = PeekStatus::Success;
        Some(self.stack[n - 1])
    }

    fn size(&self) -> (r: usize) {
        self.stack.len()
    }

    fn get_push_status(&self) -> (r: PushStatus) {
        self.push_status
    }

    fn get_pop_status(&self) -> (r: PopStatus) {
        self.pop_status
    }

    fn get_peek_status(&self) -> (r: PeekStatus) {
        self.peek_status
    }
}

} // verus!
