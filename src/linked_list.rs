//! Abstract data type "LinkedList": the interface of a one-way cursor list
//! whose operations record a status instead of failing.
//!
//! `list_hierarchy` holds the implemented cursor lists; this module states the
//! same operations for a singly-linked design, with `NoNext` as the boundary
//! status of `right()`.
use vstd::prelude::*;

verus! {

/// Outcome of the last `head()` call.
#[derive(Debug, Copy, Clone, PartialEq, Eq, Structural)]
pub enum HeadStatus {
    /// Never called.
    Nil,
    /// The last call succeeded.
    Success,
    /// The last call found the list empty.
    Empty,
}

/// Outcome of the last `tail()` call.
#[derive(Debug, Copy, Clone, PartialEq, Eq, Structural)]
pub enum TailStatus {
    /// Never called.
    Nil,
    /// The last call succeeded.
    Success,
    /// The last call found the list empty.
    Empty,
}

/// Outcome of the last `right()` call.
#[derive(Debug, Copy, Clone, PartialEq, Eq, Structural)]
pub enum RightStatus {
    /// Never called.
    Nil,
    /// The last call succeeded.
    Success,
    /// The last call found the list empty.
    Empty,
    /// The current node had no next node.
    NoNext,
}

/// Outcome of the last `put_left()` call.
#[derive(Debug, Copy, Clone, PartialEq, Eq, Structural)]
pub enum PutLeftStatus {
    /// Never called.
    Nil,
    /// The last call succeeded.
    Success,
    /// The last call found the list empty.
    Empty,
}

/// Outcome of the last `put_right()` call.
#[derive(Debug, Copy, Clone, PartialEq, Eq, Structural)]
pub enum PutRightStatus {
    /// Never called.
    Nil,
    /// The last call succeeded.
    Success,
    /// The last call found the list empty.
    Empty,
}

/// Outcome of the last `remove()` call.
#[derive(Debug, Copy, Clone, PartialEq, Eq, Structural)]
pub enum RemoveStatus {
    /// Never called.
    Nil,
    /// The last call succeeded.
    Success,
    /// The last call found the list empty.
    Empty,
}

/// Outcome of the last `replace()` call.
#[derive(Debug, Copy, Clone, PartialEq, Eq, Structural)]
pub enum ReplaceStatus {
    /// Never called.
    Nil,
    /// The last call succeeded.
    Success,
    /// The last call found the list empty.
    Empty,
}

/// Outcome of the last `get()` call.
#[derive(Debug, Copy, Clone, PartialEq, Eq, Structural)]
pub enum GetStatus {
    /// Never called.
    Nil,
    /// The last call succeeded.
    Success,
    /// The last call found the list empty.
    Empty,
}

/// Outcome of the last `find()` call.
#[derive(Debug, Copy, Clone, PartialEq, Eq, Structural)]
pub enum FindStatus {
    /// Never called.
    Nil,
    /// The last call succeeded.
    Success,
    /// The last call found the list empty.
    Empty,
    /// No node after the cursor held the value.
    NotFound,
}

/// The operations of a one-way cursor list.
pub trait LinkedList<T>: Sized {
    /// An empty list with no cursor.
    fn new() -> Self;

    /// Move the cursor to the first node.
    fn head(&mut self);

    /// Move the cursor to the last node.
    fn tail(&mut self);

    /// Move the cursor to the next node.
    fn right(&mut self);

    /// Insert a node before the current one.
    fn put_left(&mut self, value: T);

    /// Insert a node after the current one.
    fn put_right(&mut self, value: T);

    /// Remove the current node; the cursor goes to the next node, else to the
    /// previous one.
    fn remove(&mut self);

    /// Remove every node; the cursor becomes undefined.
    fn clear(&mut self);

    /// Append a node after the last one.
    fn add_tail(&mut self, value: T);

    /// Overwrite the value of the current node.
    fn replace(&mut self, value: T);

    /// Move the cursor to the first node after it that holds `value`.
    fn find(&mut self, value: T);

    /// Remove the nodes that hold `value`.
    fn remove_all(&mut self, value: T);

    /// The value of the current node.
    fn get(&mut self) -> &T;

    fn size(&self) -> usize;

    fn is_head(&self) -> bool;

    fn is_tail(&self) -> bool;

    fn is_value(&self) -> bool;

    fn get_head_status(&self) -> HeadStatus;

    fn get_tail_status(&self) -> TailStatus;

    fn get_right_status(&self) -> RightStatus;

    fn get_put_left_status(&self) -> PutLeftStatus;

    fn get_put_right_status(&self) -> PutRightStatus;

    fn get_remove_status(&self) -> RemoveStatus;

    fn get_replace_status(&self) -> ReplaceStatus;

    fn get_get_status(&self) -> GetStatus;

    fn get_find_status(&self) -> FindStatus;
}

} // verus!
