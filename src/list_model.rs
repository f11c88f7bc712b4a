//! The abstract state of a cursor list, and what each operation does to it.
//!
//! A `ListModel` is the sequence of stored values (head first), the position
//! of the cursor (absent before any positioning call, or once the list has been
//! emptied), and the status each operation recorded on its last call.
//! Every list of this crate refines these functions exactly.
use vstd::prelude::*;
use vstd::std_specs::cmp::PartialEqSpec;
use crate::list_hierarchy::{
    initial_statuses,
    FindStatus, GetStatus, HeadStatus, LeftStatus, ListStatuses, PutLeftStatus, PutRightStatus,
    RemoveStatus, ReplaceStatus, RightStatus, TailStatus,
};

verus! {

/// The observable state of a cursor list.
pub struct ListModel<T> {
    /// The stored values, from head to tail.
    pub values: Seq<T>,
    /// Index of the current node, if one is defined.
    pub cursor: Option<int>,
    pub statuses: ListStatuses,
}

/// First index at or after `from` whose value equals `value`.
pub open spec fn first_match<T: PartialEq>(values: Seq<T>, from: int, value: T) -> Option<int>
    decreases values.len() - from,
{
    if from < 0 || from >= values.len() {
        None
    } else if values[from].eq_spec(&value) {
        Some(from)
    } else {
        first_match(values, from + 1, value)
    }
}

/// Where the cursor goes when the node at `at` is taken out and `remaining`
/// nodes are left: to the node that followed it, else to the one before it.
pub open spec fn cursor_after_removal(remaining: int, at: int) -> Option<int> {
    if remaining == 0 {
        None
    } else if at < remaining {
        Some(at)
    } else {
        Some(at - 1)
    }
}

/// The model of a freshly built list.
pub open spec fn empty_model<T>() -> ListModel<T> {
    ListModel { values: Seq::empty(), cursor: None, statuses: initial_statuses() }
}

impl<T> ListModel<T> {
    /// The cursor is absent or on a node of the list.
    pub open spec fn valid(self) -> bool {
        self.cursor matches Some(c) ==> 0 <= c < self.values.len()
    }

    pub open spec fn len(self) -> nat {
        self.values.len()
    }

    /// The value under the cursor.
    pub open spec fn current(self) -> Option<T> {
        match self.cursor {
            Some(c) => Some(self.values[c]),
            None => None,
        }
    }

    pub open spec fn is_head(self) -> bool {
        self.cursor == Some(0int)
    }

    pub open spec fn is_tail(self) -> bool {
        self.values.len() > 0 && self.cursor == Some(self.values.len() - 1)
    }

    pub open spec fn after_head(self) -> Self {
        if self.values.len() == 0 {
            ListModel { statuses: ListStatuses { head: HeadStatus::Empty, ..self.statuses }, ..self }
        } else {
            ListModel {
                cursor: Some(0),
                statuses: ListStatuses { head: HeadStatus::Success, ..self.statuses },
                ..self
            }
        }
    }

    pub open spec fn after_tail(self) -> Self {
        if self.values.len() == 0 {
            ListModel { statuses: ListStatuses { tail: TailStatus::Empty, ..self.statuses }, ..self }
        } else {
            ListModel {
                cursor: Some(self.values.len() - 1),
                statuses: ListStatuses { tail: TailStatus::Success, ..self.statuses },
                ..self
            }
        }
    }

    pub open spec fn after_right(self) -> Self {
        match self.cursor {
            None => ListModel {
                statuses: ListStatuses { right: RightStatus::Empty, ..self.statuses },
                ..self
            },
            Some(c) => if c + 1 < self.values.len() {
                ListModel {
                    cursor: Some(c + 1),
                    statuses: ListStatuses { right: RightStatus::Success, ..self.statuses },
                    ..self
                }
            } else {
                ListModel {
                    statuses: ListStatuses { right: RightStatus::NoRight, ..self.statuses },
                    ..self
                }
            },
        }
    }

    /// The cursor after `left()`; the statuses of `ListStatuses` do not change.
    pub open spec fn after_left(self) -> Self {
        match self.cursor {
            Some(c) => if c > 0 {
                ListModel { cursor: Some(c - 1), ..self }
            } else {
                self
            },
            None => self,
        }
    }

    /// The status that `left()` records.
    pub open spec fn left_outcome(self) -> LeftStatus {
        match self.cursor {
            None => LeftStatus::Empty,
            Some(c) => if c > 0 {
                LeftStatus::Success
            } else {
                LeftStatus::NoLeft
            },
        }
    }

    pub open spec fn after_put_left(self, value: T) -> Self {
        match self.cursor {
            None => ListModel {
                statuses: ListStatuses { put_left: PutLeftStatus::Empty, ..self.statuses },
                ..self
            },
            Some(c) => ListModel {
                values: self.values.insert(c, value),
                cursor: Some(c + 1),
                statuses: ListStatuses { put_left: PutLeftStatus::Success, ..self.statuses },
            },
        }
    }

    pub open spec fn after_put_right(self, value: T) -> Self {
        match self.cursor {
            None => ListModel {
                statuses: ListStatuses { put_right: PutRightStatus::Empty, ..self.statuses },
                ..self
            },
            Some(c) => ListModel {
                values: self.values.insert(c + 1, value),
                cursor: Some(c),
                statuses: ListStatuses { put_right: PutRightStatus::Success, ..self.statuses },
            },
        }
    }

    pub open spec fn after_remove(self) -> Self {
        match self.cursor {
            None => ListModel {
                statuses: ListStatuses { remove: RemoveStatus::Empty, ..self.statuses },
                ..self
            },
            Some(c) => ListModel {
                values: self.values.remove(c),
                cursor: cursor_after_removal(self.values.len() - 1, c),
                statuses: ListStatuses { remove: RemoveStatus::Success, ..self.statuses },
            },
        }
    }

    pub open spec fn after_clear(self) -> Self {
        empty_model()
    }

    /// A new last node; the cursor stays where it was, undefined included.
    pub open spec fn after_add_tail(self, value: T) -> Self {
        ListModel { values: self.values.push(value), ..self }
    }

    pub open spec fn after_replace(self, value: T) -> Self {
        match self.cursor {
            None => ListModel {
                statuses: ListStatuses { replace: ReplaceStatus::Empty, ..self.statuses },
                ..self
            },
            Some(c) => ListModel {
                values: self.values.update(c, value),
                statuses: ListStatuses { replace: ReplaceStatus::Success, ..self.statuses },
                ..self
            },
        }
    }

    pub open spec fn after_get(self) -> Self {
        match self.cursor {
            None => ListModel {
                statuses: ListStatuses { get: GetStatus::Empty, ..self.statuses },
                ..self
            },
            Some(c) => ListModel {
                statuses: ListStatuses { get: GetStatus::Success, ..self.statuses },
                ..self
            },
        }
    }
}

impl<T: PartialEq> ListModel<T> {
    /// Search strictly after the cursor for the first node holding `value`.
    pub open spec fn after_find(self, value: T) -> Self {
        match self.cursor {
            None => ListModel {
                statuses: ListStatuses { find: FindStatus::Empty, ..self.statuses },
                ..self
            },
            Some(c) => match first_match(self.values, c + 1, value) {
                Some(j) => ListModel {
                    cursor: Some(j),
                    statuses: ListStatuses { find: FindStatus::Success, ..self.statuses },
                    ..self
                },
                None => ListModel {
                    statuses: ListStatuses { find: FindStatus::NotFound, ..self.statuses },
                    ..self
                },
            },
        }
    }

    /// `find` then `remove`, repeated while `find` succeeds.
    pub open spec fn purge(self, value: T) -> Self
        decreases self.values.len(),
    {
        let found = self.after_find(value);
        match found.cursor {
            Some(j) => if found.statuses.find == FindStatus::Success && 0 <= j < self.values.len() {
                found.after_remove().purge(value)
            } else {
                found
            },
            None => found,
        }
    }

    /// Nothing happens on an empty list; otherwise `purge`.
    pub open spec fn after_remove_all(self, value: T) -> Self {
        if self.values.len() == 0 {
            self
        } else {
            self.purge(value)
        }
    }
}

/// `right()` applied `k` times.
pub open spec fn right_times<T>(m: ListModel<T>, k: nat) -> ListModel<T>
    decreases k,
{
    if k == 0 {
        m
    } else {
        right_times(m.after_right(), (k - 1) as nat)
    }
}

/// `remove()` applied `k` times.
pub open spec fn remove_times<T>(m: ListModel<T>, k: nat) -> ListModel<T>
    decreases k,
{
    if k == 0 {
        m
    } else {
        remove_times(m.after_remove(), (k - 1) as nat)
    }
}

/// Only `add_tail`, `put_left`, `put_right`, `remove` and `remove_all` change
/// the number of nodes: each insertion adds exactly one node, `remove` takes
/// exactly one when there is a current node, and `remove_all` never adds any.
pub proof fn size_accounting<T: PartialEq>(m: ListModel<T>, v: T)
    requires
        m.valid(),
    ensures
        m.after_add_tail(v).len() == m.len() + 1,
        m.after_put_left(v).len() == m.len() + if m.cursor is Some { 1int } else { 0 },
        m.after_put_right(v).len() == m.len() + if m.cursor is Some { 1int } else { 0 },
        m.after_remove().len() == m.len() - if m.cursor is Some { 1int } else { 0 },
        m.after_remove_all(v).len() <= m.len(),
        m.after_head().len() == m.len(),
        m.after_tail().len() == m.len(),
        m.after_right().len() == m.len(),
        m.after_left().len() == m.len(),
        m.after_replace(v).len() == m.len(),
        m.after_get().len() == m.len(),
        m.after_find(v).len() == m.len(),
{
    if m.len() > 0 {
        lemma_purge_shrinks(m, v);
    }
}

proof fn lemma_first_match_in_range<T: PartialEq>(values: Seq<T>, from: int, v: T)
    ensures
        first_match(values, from, v) matches Some(j) ==> from <= j < values.len() && 0 <= j,
    decreases values.len() - from,
{
    if 0 <= from < values.len() && !values[from].eq_spec(&v) {
        lemma_first_match_in_range(values, from + 1, v);
    }
}

proof fn lemma_purge_shrinks<T: PartialEq>(m: ListModel<T>, v: T)
    requires
        m.valid(),
    ensures
        m.purge(v).len() <= m.len(),
        m.purge(v).valid(),
    decreases m.values.len(),
{
    let found = m.after_find(v);
    if let Some(c) = m.cursor {
        lemma_first_match_in_range(m.values, c + 1, v);
    }
    if let Some(j) = found.cursor {
        if found.statuses.find == FindStatus::Success && 0 <= j < m.values.len() {
            lemma_purge_shrinks(found.after_remove(), v);
        }
    }
}

/// Walking right from the head visits the positions in order and reaches a
/// node that `is_tail` accepts exactly after `len - 1` steps.
pub proof fn walk_from_head_reaches_tail<T>(m: ListModel<T>, k: nat)
    requires
        m.valid(),
        k < m.len(),
    ensures
        right_times(m.after_head(), k).cursor == Some(k as int),
        right_times(m.after_head(), k).values == m.values,
        right_times(m.after_head(), k).is_tail() <==> k == m.len() - 1,
    decreases k,
{
    if k > 0 {
        walk_from_head_reaches_tail(m, (k - 1) as nat);
        lemma_right_times_step(m.after_head(), (k - 1) as nat);
    }
}

proof fn lemma_right_times_step<T>(m: ListModel<T>, k: nat)
    ensures
        right_times(m, k + 1) == right_times(m, k).after_right(),
    decreases k,
{
    if k > 0 {
        lemma_right_times_step(m.after_right(), (k - 1) as nat);
    } else {
        assert(right_times(m.after_right(), 0) == m.after_right());
    }
}

/// `right()` at the tail records `NoRight` and leaves the values and the
/// cursor as they were; doing it again changes nothing more.
pub proof fn right_at_tail_is_stable<T>(m: ListModel<T>)
    requires
        m.valid(),
        m.is_tail(),
    ensures
        m.after_right().statuses.right == RightStatus::NoRight,
        m.after_right().values == m.values,
        m.after_right().cursor == m.cursor,
        m.after_right().after_right() == m.after_right(),
{
}

/// Inserting around the cursor keeps it on the same value.
pub proof fn insertion_keeps_current<T>(m: ListModel<T>, v: T)
    requires
        m.valid(),
    ensures
        m.after_put_left(v).current() == m.current(),
        m.after_put_right(v).current() == m.current(),
{
    if let Some(c) = m.cursor {
        assert(m.values.insert(c, v)[c + 1] == m.values[c]);
        assert(m.values.insert(c + 1, v)[c] == m.values[c]);
    }
}

/// Removing the current node as many times as there are nodes, starting from
/// the head, empties the list, leaves no cursor, and `get` then reports `Empty`.
pub proof fn draining_from_head_empties<T>(m: ListModel<T>)
    requires
        m.valid(),
    ensures
        remove_times(m.after_head(), m.len()).len() == 0,
        remove_times(m.after_head(), m.len()).cursor is None,
        remove_times(m.after_head(), m.len()).after_get().statuses.get == GetStatus::Empty,
{
    lemma_drain_front(m.after_head(), m.len());
}

proof fn lemma_drain_front<T>(m: ListModel<T>, k: nat)
    requires
        m.valid(),
        k == m.len(),
        m.cursor == if m.len() > 0 { Some(0int) } else { None },
    ensures
        remove_times(m, k).len() == 0,
        remove_times(m, k).cursor is None,
    decreases k,
{
    if k > 0 {
        lemma_drain_front(m.after_remove(), (k - 1) as nat);
    }
}

/// `clear` brings back the state of a fresh list, statuses included.
pub proof fn clear_restores_fresh_state<T>(m: ListModel<T>)
    ensures
        m.after_clear() == empty_model::<T>(),
{
}

} // verus!
