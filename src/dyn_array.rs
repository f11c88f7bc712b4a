//! A dynamic array with a cursor. Its capacity doubles when an insertion finds
//! it full, and shrinks by a factor of 1.5 when a removal leaves it less than
//! half full, never below the capacity it was built with.
use vstd::prelude::*;

verus! {

/// Outcome of the last `set_cursor()` call.
#[derive(Debug, Copy, Clone, PartialEq, Eq, Structural)]
pub enum SetCursorStatus {
    /// `set_cursor()` has not been called.
    Nil,
    Success,
    /// The array was empty.
    Empty,
    /// The index was past the last item.
    OutOfBounds,
}

/// Outcome of the last `get()` call.
#[derive(Debug, Copy, Clone, PartialEq, Eq, Structural)]
pub enum GetStatus {
    Nil,
    Success,
    Empty,
    OutOfBounds,
}

/// Outcome of the last `replace()` call.
#[derive(Debug, Copy, Clone, PartialEq, Eq, Structural)]
pub enum ReplaceStatus {
    Nil,
    Success,
    Empty,
    OutOfBounds,
}

/// Outcome of the last `insert()` call.
#[derive(Debug, Copy, Clone, PartialEq, Eq, Structural)]
pub enum InsertStatus {
    Nil,
    Success,
    Empty,
    OutOfBounds,
}

/// Outcome of the last `remove()` call.
#[derive(Debug, Copy, Clone, PartialEq, Eq, Structural)]
pub enum RemoveStatus {
    Nil,
    Success,
    Empty,
    OutOfBounds,
}

/// The capacity of an array built with `new()`.
pub const DEFAULT_CAPACITY: usize = 16;

/// The capacity after an insertion into a full array of capacity `c`.
pub open spec fn grown(c: nat) -> nat {
    if c == 0 {
        1
    } else if c <= usize::MAX / 2 {
        2 * c
    } else {
        usize::MAX as nat
    }
}

/// The capacity after a removal leaves `len` items in an array of capacity
/// `c` built with capacity `minimal`.
pub open spec fn shrunk(c: nat, len: nat, minimal: nat) -> nat {
    if 2 * len < c {
        let smaller = c * 2 / 3;
        if smaller > minimal {
            smaller
        } else {
            minimal
        }
    } else {
        c
    }
}

/// Abstract data type "DynArray".
pub trait DynArray<T>: Sized {
    spec fn well_formed(&self) -> bool;

    /// The items, in order.
    spec fn items(&self) -> Seq<T>;

    /// How many items fit before the array grows.
    spec fn capacity(&self) -> nat;

    /// The capacity the array was built with.
    spec fn minimal_capacity(&self) -> nat;

    /// Index of the current item.
    spec fn cursor(&self) -> nat;

    spec fn set_cursor_state(&self) -> SetCursorStatus;

    spec fn get_state(&self) -> GetStatus;

    spec fn replace_state(&self) -> ReplaceStatus;

    spec fn insert_state(&self) -> InsertStatus;

    spec fn remove_state(&self) -> RemoveStatus;

    /// An empty array of capacity `DEFAULT_CAPACITY`.
    fn new() -> (r: Self)
        ensures
            r.well_formed(),
            r.items() == Seq::<T>::empty(),
            r.capacity() == DEFAULT_CAPACITY,
            r.minimal_capacity() == DEFAULT_CAPACITY,
            r.cursor() == 0,
            r.set_cursor_state() == SetCursorStatus::Nil,
            r.get_state() == GetStatus::Nil,
            r.replace_state() == ReplaceStatus::Nil,
            r.insert_state() == InsertStatus::Nil,
            r.remove_state() == RemoveStatus::Nil,
    ;

    /// An empty array of capacity `capacity`.
    fn new_with_capacity(capacity: usize) -> (r: Self)
        ensures
            r.well_formed(),
            r.items() == Seq::<T>::empty(),
            r.capacity() == capacity,
            r.minimal_capacity() == capacity,
            r.cursor() == 0,
            r.set_cursor_state() == SetCursorStatus::Nil,
            r.get_state() == GetStatus::Nil,
            r.replace_state() == ReplaceStatus::Nil,
            r.insert_state() == InsertStatus::Nil,
            r.remove_state() == RemoveStatus::Nil,
    ;

    fn size(&self) -> (r: usize)
        requires
            self.well_formed(),
        ensures
            r == self.items().len(),
    ;

    /// Add `value` after the last item; the cursor does not move.
    fn append(&mut self, value: T)
        requires
            old(self).well_formed(),
            old(self).items().len() < usize::MAX,
        ensures
            final(self).well_formed(),
            final(self).items() == old(self).items().push(value),
            final(self).capacity() == if old(self).items().len() == old(self).capacity() {
                grown(old(self).capacity())
            } else {
                old(self).capacity()
            },
            final(self).minimal_capacity() == old(self).minimal_capacity(),
            final(self).cursor() == old(self).cursor(),
            final(self).set_cursor_state() == old(self).set_cursor_state(),
            final(self).get_state() == old(self).get_state(),
            final(self).replace_state() == old(self).replace_state(),
            final(self).insert_state() == old(self).insert_state(),
            final(self).remove_state() == old(self).remove_state(),
    ;

    /// Put the cursor on the item at index `i`.
    fn set_cursor(&mut self, i: usize)
        requires
            old(self).well_formed(),
        ensures
            final(self).well_formed(),
            final(self).items() == old(self).items(),
            final(self).capacity() == old(self).capacity(),
            final(self).minimal_capacity() == old(self).minimal_capacity(),
            final(self).get_state() == old(self).get_state(),
            final(self).replace_state() == old(self).replace_state(),
            final(self).insert_state() == old(self).insert_state(),
            final(self).remove_state() == old(self).remove_state(),
            old(self).items().len() == 0 ==> final(self).cursor() == old(self).cursor()
                && final(self).set_cursor_state() == SetCursorStatus::Empty,
            old(self).items().len() > 0 && i >= old(self).items().len() ==> final(self).cursor()
                == old(self).cursor() && final(self).set_cursor_state()
                == SetCursorStatus::OutOfBounds,
            i < old(self).items().len() ==> final(self).cursor() == i
                && final(self).set_cursor_state() == SetCursorStatus::Success,
    ;

    /// The current item, if the array holds any.
    fn get(&mut self) -> (r: Option<&T>)
        requires
            old(self).well_formed(),
        ensures
            final(self).well_formed(),
            final(self).items() == old(self).items(),
            final(self).capacity() == old(self).capacity(),
            final(self).minimal_capacity() == old(self).minimal_capacity(),
            final(self).cursor() == old(self).cursor(),
            final(self).set_cursor_state() == old(self).set_cursor_state(),
            final(self).replace_state() == old(self).replace_state(),
            final(self).insert_state() == old(self).insert_state(),
            final(self).remove_state() == old(self).remove_state(),
            old(self).items().len() == 0 ==> r is None && final(self).get_state()
                == GetStatus::Empty,
            old(self).items().len() > 0 ==> r == Some(&old(self).items()[old(self).cursor() as int])
                && final(self).get_state() == GetStatus::Success,
    ;

    /// Overwrite the current item.
    fn replace(&mut self, value: T)
        requires
            old(self).well_formed(),
        ensures
            final(self).well_formed(),
            final(self).capacity() == old(self).capacity(),
            final(self).minimal_capacity() == old(self).minimal_capacity(),
            final(self).cursor() == old(self).cursor(),
            final(self).set_cursor_state() == old(self).set_cursor_state(),
            final(self).get_state() == old(self).get_state(),
            final(self).insert_state() == old(self).insert_state(),
            final(self).remove_state() == old(self).remove_state(),
            old(self).items().len() == 0 ==> final(self).items() == old(self).items()
                && final(self).replace_state() == ReplaceStatus::Empty,
            old(self).items().len() > 0 ==> final(self).items() == old(self).items().update(
                old(self).cursor() as int,
                value,
            ) && final(self).replace_state() == ReplaceStatus::Success,
    ;

    /// Insert `value` at the cursor's index, before the current item; the
    /// cursor is then on the new item.
    fn insert(&mut self, value: T)
        requires
            old(self).well_formed(),
            old(self).items().len() < usize::MAX,
        ensures
            final(self).well_formed(),
            final(self).minimal_capacity() == old(self).minimal_capacity(),
            final(self).cursor() == old(self).cursor(),
            final(self).set_cursor_state() == old(self).set_cursor_state(),
            final(self).get_state() == old(self).get_state(),
            final(self).replace_state() == old(self).replace_state(),
            final(self).remove_state() == old(self).remove_state(),
            old(self).items().len() == 0 ==> final(self).items() == old(self).items()
                && final(self).capacity() == old(self).capacity() && final(self).insert_state()
                == InsertStatus::Empty,
            old(self).items().len() > 0 ==> final(self).items() == old(self).items().insert(
                old(self).cursor() as int,
                value,
            ) && final(self).insert_state() == InsertStatus::Success && final(self).capacity()
                == if old(self).items().len() == old(self).capacity() {
                grown(old(self).capacity())
            } else {
                old(self).capacity()
            },
    ;

    /// Remove the current item; the cursor keeps its index, or moves back one
    /// when it was on the last item.
    fn remove(&mut self)
        requires
            old(self).well_formed(),
        ensures
            final(self).well_formed(),
            final(self).minimal_capacity() == old(self).minimal_capacity(),
            final(self).set_cursor_state() == old(self).set_cursor_state(),
            final(self).get_state() == old(self).get_state(),
            final(self).replace_state() == old(self).replace_state(),
            final(self).insert_state() == old(self).insert_state(),
            old(self).items().len() == 0 ==> final(self).items() == old(self).items()
                && final(self).capacity() == old(self).capacity() && final(self).cursor()
                == old(self).cursor() && final(self).remove_state() == RemoveStatus::Empty,
            old(self).items().len() > 0 ==> final(self).items() == old(self).items().remove(
                old(self).cursor() as int,
            ) && final(self).remove_state() == RemoveStatus::Success && final(self).capacity()
                == shrunk(
                old(self).capacity(),
                (old(self).items().len() - 1) as nat,
                old(self).minimal_capacity(),
            ) && final(self).cursor() == if old(self).cursor() + 1 < old(self).items().len() {
                old(self).cursor()
            } else if old(self).cursor() > 0 {
                (old(self).cursor() - 1) as nat
            } else {
                0
            },
    ;

    fn get_set_cursor_status(&self) -> (r: SetCursorStatus)
        ensures
            r == self.set_cursor_state(),
    ;

    fn get_get_status(&self) -> (r: GetStatus)
        ensures
            r == self.get_state(),
    ;

    fn get_replace_status(&self) -> (r: ReplaceStatus)
        ensures
            r == self.replace_state(),
    ;

    fn get_insert_status(&self) -> (r: InsertStatus)
        ensures
            r == self.insert_state(),
    ;

    fn get_remove_status(&self) -> (r: RemoveStatus)
        ensures
            r == self.remove_state(),
    ;
}

/// The dynamic array over a vector, with its capacity kept explicitly.
pub struct DynArrayImpl<T> {
    data: Vec<T>,
    capacity: usize,
    minimal_capacity: usize,
    cursor: usize,
    set_cursor_status: SetCursorStatus,
    get_status: GetStatus,
    replace_status: ReplaceStatus,
    insert_status: InsertStatus,
    remove_status: RemoveStatus,
}

impl<T> DynArrayImpl<T> {
    /// Make room for `new_capacity` items.
    fn resize(&mut self, new_capacity: usize)
        requires
            old(self).data@.len() <= new_capacity,
        ensures
            final(self).data@ == old(self).data@,
            final(self).capacity == new_capacity,
            final(self).minimal_capacity == old(self).minimal_capacity,
            final(self).cursor == old(self).cursor,
            final(self).set_cursor_status == old(self).set_cursor_status,
            final(self).get_status == old(self).get_status,
            final(self).replace_status == old(self).replace_status,
            final(self).insert_status == old(self).insert_status,
            final(self).remove_status == old(self).remove_status,
    {
        let len = self.data.len();
        self.data.reserve(new_capacity - len);
        self.capacity = new_capacity;
    }

    /// Grow the capacity if the array is full.
    fn grow_if_full(&mut self)
        requires
            old(self).data@.len() <= old(self).capacity,
            old(self).data@.len() < usize::MAX,
        ensures
            final(self).data@ == old(self).data@,
            final(self).capacity == if old(self).data@.len() == old(self).capacity {
                grown(old(self).capacity as nat)
            } else {
                old(self).capacity as nat
            },
            final(self).data@.len() < final(self).capacity,
            final(self).minimal_capacity == old(self).minimal_capacity,
            final(self).cursor == old(self).cursor,
            final(self).set_cursor_status == old(self).set_cursor_status,
            final(self).get_status == old(self).get_status,
            final(self).replace_status == old(self).replace_status,
            final(self).insert_status == old(self).insert_status,
            final(self).remove_status == old(self).remove_status,
    {
        if self.data.len() == self.capacity {
            let c = self.capacity;
            let new_capacity = if c == 0 {
                1
            } else if c <= usize::MAX / 2 {
                2 * c
            } else {
                usize::MAX
            };
            self.resize(new_capacity);
        }
    }
}

impl<T> DynArray<T> for DynArrayImpl<T> {
    closed spec fn well_formed(&self) -> bool {
        &&& self.data@.len() <= self.capacity
        &&& self.minimal_capacity <= self.capacity
        &&& if self.data@.len() == 0 {
            self.cursor == 0
        } else {
            self.cursor < self.data@.len()
        }
    }

    closed spec fn items(&self) -> Seq<T> {
        self.data@
    }

    closed spec fn capacity(&self) -> nat {
        self.capacity as nat
    }

    closed spec fn minimal_capacity(&self) -> nat {
        self.minimal_capacity as nat
    }

    closed spec fn cursor(&self) -> nat {
        self.cursor as nat
    }

    closed spec fn set_cursor_state(&self) -> SetCursorStatus {
        self.set_cursor_status
    }

    closed spec fn get_state(&self) -> GetStatus {
        self.get_status
    }

    closed spec fn replace_state(&self) -> ReplaceStatus {
        self.replace_status
    }

    closed spec fn insert_state(&self) -> InsertStatus {
        self.insert_status
    }

    closed spec fn remove_state(&self) -> RemoveStatus {
        self.remove_status
    }

    fn new() -> (r: Self) {
        Self::new_with_capacity(DEFAULT_CAPACITY)
    }

    fn new_with_capacity(capacity: usize) -> (r: Self) {
        DynArrayImpl {
            data: Vec::with_capacity(capacity),
            capacity,
            minimal_capacity: capacity,
            cursor: 0,
            set_cursor_status: SetCursorStatus::Nil,
            get_status: GetStatus::Nil,
            replace_status: ReplaceStatus::Nil,
            insert_status: InsertStatus::Nil,
            remove_status: RemoveStatus::Nil,
        }
    }

    fn size(&self) -> (r: usize) {
        self.data.len()
    }

    fn append(&mut self, value: T) {
        self.grow_if_full();
        self.data.push(value);
    }

    fn set_cursor(&mut self, i: usize) {
        let n = self.data.len();
        if n == 0 {
            self.set_cursor_status = SetCursorStatus::Empty;
            return ;
        }
        if i >= n {
            self.set_cursor_status = SetCursorStatus::OutOfBounds;
            return ;
        }
        self.cursor = i;
        self.set_cursor_status = SetCursorStatus::Success;
    }

    fn get(&mut self) -> (r: Option<&T>) {
        if self.data.len() == 0 {
            self.get_status = GetStatus::Empty;
            return None;
        }
        self.get_status = GetStatus::Success;
        Some(&self.data[self.cursor])
    }

    fn replace(&mut self, value: T) {
        if self.data.len() == 0 {
            self.replace_status = ReplaceStatus::Empty;
            return ;
        }
        let i = self.cursor;
        self.data.set(i, value);
        self.replace_status = ReplaceStatus::Success;
    }

    fn insert(&mut self, value: T) {
        if self.data.len() == 0 {
            self.insert_status = InsertStatus::Empty;
            return ;
        }
        self.grow_if_full();
        let i = self.cursor;
        self.data.insert(i, value);
        self.insert_status = InsertStatus::Success;
    }

    fn remove(&mut self) {
        let n = self.data.len();
        if n == 0 {
            self.remove_status = RemoveStatus::Empty;
            return ;
        }
        let i = self.cursor;
        self.data.remove(i);
        if i + 1 >= n && i > 0 {
            self.cursor = i - 1;
        }
        let c = self.capacity;
        let left = n - 1;
        if left < c - left {
            let smaller = c / 3 * 2 + c % 3 * 2 / 3;
            assert(smaller == c * 2 / 3) by (nonlinear_arith)
                requires
                    smaller == c / 3 * 2 + c % 3 * 2 / 3,
            ;
            let new_capacity = if smaller > self.minimal_capacity {
                smaller
            } else {
                self.minimal_capacity
            };
            self.resize(new_capacity);
        }
        self.remove_status = RemoveStatus::Success;
    }

    fn get_set_cursor_status(&self) -> (r: SetCursorStatus) {
        self.set_cursor_status
    }

    fn get_get_status(&self) -> (r: GetStatus) {
        self.get_status
    }

    fn get_replace_status(&self) -> (r: ReplaceStatus) {
        self.replace_status
    }

    fn get_insert_status(&self) -> (r: InsertStatus) {
        self.insert_status
    }

    fn get_remove_status(&self) -> (r: RemoveStatus) {
        self.remove_status
    }
}

} // verus!
