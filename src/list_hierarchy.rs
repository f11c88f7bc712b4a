//! Cursor lists: a doubly-linked sequence of nodes with a movable cursor,
//! and a status per operation in place of errors.
//!
//! Nodes live in an arena (a vector of slots); links, the head, the tail and
//! the cursor are slot indices, so they never own a node. A removed node's
//! slot is emptied at once, which releases the node and its value handle, and
//! is recorded for reuse. Values are stored behind `Rc`, so a value handed out
//! by `get` outlives the node it came from.
use std::rc::Rc;
use vstd::prelude::*;
use vstd::std_specs::cmp::PartialEqSpec;
use crate::list_model::{ListModel, empty_model, first_match, cursor_after_removal};

verus! {

/// Outcome of the last `head()` call.
#[derive(Debug, Copy, Clone, PartialEq, Eq, Structural)]
pub enum HeadStatus {
    /// `head()` has not been called.
    Nil,
    /// The cursor was moved to the first node.
    Success,
    /// The list had no node.
    Empty,
}

/// Outcome of the last `tail()` call.
#[derive(Debug, Copy, Clone, PartialEq, Eq, Structural)]
pub enum TailStatus {
    Nil,
    Success,
    Empty,
}

/// Outcome of the last `left()` call.
#[derive(Debug, Copy, Clone, PartialEq, Eq, Structural)]
pub enum LeftStatus {
    Nil,
    Success,
    /// There was no current node.
    Empty,
    /// The current node is the first one.
    NoLeft,
}

/// Outcome of the last `right()` call.
#[derive(Debug, Copy, Clone, PartialEq, Eq, Structural)]
pub enum RightStatus {
    Nil,
    Success,
    /// There was no current node.
    Empty,
    /// The current node is the last one.
    NoRight,
}

/// Outcome of the last `put_left()` call.
#[derive(Debug, Copy, Clone, PartialEq, Eq, Structural)]
pub enum PutLeftStatus {
    Nil,
    Success,
    Empty,
}

/// Outcome of the last `put_right()` call.
#[derive(Debug, Copy, Clone, PartialEq, Eq, Structural)]
pub enum PutRightStatus {
    Nil,
    Success,
    Empty,
}

/// Outcome of the last `remove()` call.
#[derive(Debug, Copy, Clone, PartialEq, Eq, Structural)]
pub enum RemoveStatus {
    Nil,
    Success,
    Empty,
}

/// Outcome of the last `replace()` call.
#[derive(Debug, Copy, Clone, PartialEq, Eq, Structural)]
pub enum ReplaceStatus {
    Nil,
    Success,
    Empty,
}

/// Outcome of the last `get()` call.
#[derive(Debug, Copy, Clone, PartialEq, Eq, Structural)]
pub enum GetStatus {
    Nil,
    Success,
    Empty,
}

/// Outcome of the last `find()` call.
#[derive(Debug, Copy, Clone, PartialEq, Eq, Structural)]
pub enum FindStatus {
    Nil,
    Success,
    /// There was no current node to search from.
    Empty,
    /// No node after the cursor holds the value.
    NotFound,
}

/// One status per fallible operation; each changes only when its own
/// operation runs, or when the list is cleared.
#[derive(Debug, Copy, Clone, PartialEq, Eq, Structural)]
pub struct ListStatuses {
    pub head: HeadStatus,
    pub tail: TailStatus,
    pub right: RightStatus,
    pub put_left: PutLeftStatus,
    pub put_right: PutRightStatus,
    pub remove: RemoveStatus,
    pub replace: ReplaceStatus,
    pub get: GetStatus,
    pub find: FindStatus,
}

impl ListStatuses {
    /// Every status in its "never called" state.
    pub fn initial() -> (r: ListStatuses)
        ensures
            r == initial_statuses(),
    {
        ListStatuses {
            head: HeadStatus::Nil,
            tail: TailStatus::Nil,
            right: RightStatus::Nil,
            put_left: PutLeftStatus::Nil,
            put_right: PutRightStatus::Nil,
            remove: RemoveStatus::Nil,
            replace: ReplaceStatus::Nil,
            get: GetStatus::Nil,
            find: FindStatus::Nil,
        }
    }
}

pub open spec fn initial_statuses() -> ListStatuses {
    ListStatuses {
        head: HeadStatus::Nil,
        tail: TailStatus::Nil,
        right: RightStatus::Nil,
        put_left: PutLeftStatus::Nil,
        put_right: PutRightStatus::Nil,
        remove: RemoveStatus::Nil,
        replace: ReplaceStatus::Nil,
        get: GetStatus::Nil,
        find: FindStatus::Nil,
    }
}

/// Abstract data type "ParentList": the operations shared by every cursor list.
///
/// Each operation is specified by what it does to the list's `model`. An
/// operation that needs a current node records `Empty` when there is none:
/// on an empty list, and on a list filled by `add_tail` before any call that
/// places the cursor.
pub trait ParentList<T>: Sized {
    /// The representation invariant.
    spec fn well_formed(&self) -> bool;

    /// The values, the cursor and the statuses.
    spec fn model(&self) -> ListModel<T>;

    /// The cursor of a well-formed list is on one of its nodes, and the node
    /// count fits in a `usize`.
    proof fn lemma_model_valid(&self)
        requires
            self.well_formed(),
        ensures
            self.model().valid(),
            self.model().len() <= usize::MAX,
    ;

    /// An empty list with no cursor and every status "never called".
    fn new() -> (r: Self)
        ensures
            r.well_formed(),
            r.model() == empty_model::<T>(),
    ;

    /// Move the cursor to the first node.
    fn head(&mut self)
        requires
            old(self).well_formed(),
        ensures
            final(self).well_formed(),
            final(self).model() == old(self).model().after_head(),
    ;

    /// Move the cursor to the last node.
    fn tail(&mut self)
        requires
            old(self).well_formed(),
        ensures
            final(self).well_formed(),
            final(self).model() == old(self).model().after_tail(),
    ;

    /// Move the cursor to the next node.
    fn right(&mut self)
        requires
            old(self).well_formed(),
        ensures
            final(self).well_formed(),
            final(self).model() == old(self).model().after_right(),
    ;

    /// Insert a node before the current one; the cursor stays on its node.
    fn put_left(&mut self, value: T)
        requires
            old(self).well_formed(),
        ensures
            final(self).well_formed(),
            final(self).model() == old(self).model().after_put_left(value),
    ;

    /// Insert a node after the current one; the cursor stays on its node.
    fn put_right(&mut self, value: T)
        requires
            old(self).well_formed(),
        ensures
            final(self).well_formed(),
            final(self).model() == old(self).model().after_put_right(value),
    ;

    /// Remove the current node; the cursor goes to the next node, else to the
    /// previous one.
    fn remove(&mut self)
        requires
            old(self).well_formed(),
        ensures
            final(self).well_formed(),
            final(self).model() == old(self).model().after_remove(),
    ;

    /// Remove every node and reset the cursor and every status.
    fn clear(&mut self)
        requires
            old(self).well_formed(),
        ensures
            final(self).well_formed(),
            final(self).model() == old(self).model().after_clear(),
    ;

    /// Append a node after the last one; the cursor is not moved.
    fn add_tail(&mut self, value: T)
        requires
            old(self).well_formed(),
        ensures
            final(self).well_formed(),
            final(self).model() == old(self).model().after_add_tail(value),
    ;

    /// Overwrite the value of the current node.
    fn replace(&mut self, value: T)
        requires
            old(self).well_formed(),
        ensures
            final(self).well_formed(),
            final(self).model() == old(self).model().after_replace(value),
    ;

    /// Move the cursor to the first node after it that holds `value`.
    fn find(&mut self, value: &T) where T: PartialEq
        requires
            old(self).well_formed(),
        ensures
            final(self).well_formed(),
            final(self).model().values == old(self).model().values,
            final(self).model().statuses.find == FindStatus::Success ==> final(self).model().cursor is Some,
            T::obeys_eq_spec() ==> final(self).model() == old(self).model().after_find(*value),
    ;

    /// From the cursor on, `find` then `remove` while `find` succeeds.
    fn remove_all(&mut self, value: &T) where T: PartialEq
        requires
            old(self).well_formed(),
        ensures
            final(self).well_formed(),
            T::obeys_eq_spec() ==> final(self).model() == old(self).model().after_remove_all(
                *value,
            ),
    ;

    /// A handle to the value of the current node.
    fn get(&mut self) -> (r: Option<Rc<T>>)
        requires
            old(self).well_formed(),
        ensures
            final(self).well_formed(),
            final(self).model() == old(self).model().after_get(),
            r is Some <==> old(self).model().current() is Some,
            r matches Some(h) ==> *h == old(self).model().current()->0,
    ;

    fn size(&self) -> (r: usize)
        requires
            self.well_formed(),
        ensures
            r == self.model().len(),
    ;

    fn is_head(&self) -> (r: bool)
        requires
            self.well_formed(),
        ensures
            r == self.model().is_head(),
    ;

    fn is_tail(&self) -> (r: bool)
        requires
            self.well_formed(),
        ensures
            r == self.model().is_tail(),
    ;

    /// Whether the list holds any node.
    fn is_value(&self) -> (r: bool)
        requires
            self.well_formed(),
        ensures
            r == (self.model().len() > 0),
    ;

    fn get_head_status(&self) -> (r: HeadStatus)
        requires
            self.well_formed(),
        ensures
            r == self.model().statuses.head,
    ;

    fn get_tail_status(&self) -> (r: TailStatus)
        requires
            self.well_formed(),
        ensures
            r == self.model().statuses.tail,
    ;

    fn get_right_status(&self) -> (r: RightStatus)
        requires
            self.well_formed(),
        ensures
            r == self.model().statuses.right,
    ;

    fn get_put_left_status(&self) -> (r: PutLeftStatus)
        requires
            self.well_formed(),
        ensures
            r == self.model().statuses.put_left,
    ;

    fn get_put_right_status(&self) -> (r: PutRightStatus)
        requires
            self.well_formed(),
        ensures
            r == self.model().statuses.put_right,
    ;

    fn get_remove_status(&self) -> (r: RemoveStatus)
        requires
            self.well_formed(),
        ensures
            r == self.model().statuses.remove,
    ;

    fn get_replace_status(&self) -> (r: ReplaceStatus)
        requires
            self.well_formed(),
        ensures
            r == self.model().statuses.replace,
    ;

    fn get_get_status(&self) -> (r: GetStatus)
        requires
            self.well_formed(),
        ensures
            r == self.model().statuses.get,
    ;

    fn get_find_status(&self) -> (r: FindStatus)
        requires
            self.well_formed(),
        ensures
            r == self.model().statuses.find,
    ;
}

/// Abstract data type "LinkedList": a one-way cursor list, with nothing beyond
/// `ParentList`.
pub trait LinkedList<T>: ParentList<T> {

}

/// Abstract data type "TwoWayList": a cursor list that can also move left.
pub trait TwoWayList<T>: ParentList<T> {
    /// What the last `left()` call recorded.
    spec fn left_state(&self) -> LeftStatus;

    /// Move the cursor to the previous node.
    fn left(&mut self)
        requires
            old(self).well_formed(),
        ensures
            final(self).well_formed(),
            final(self).model() == old(self).model().after_left(),
            final(self).left_state() == old(self).model().left_outcome(),
    ;

    fn get_left_status(&self) -> (r: LeftStatus)
        requires
            self.well_formed(),
        ensures
            r == self.left_state(),
    ;
}

/// One node: a shared handle to its value and the slots of its neighbours.
struct ListNode<T> {
    value: Rc<T>,
    next: Option<usize>,
    previous: Option<usize>,
}

/// Slots on the free list are distinct, in range and empty.
spec fn free_slots_ok<T>(nodes: Seq<Option<ListNode<T>>>, free: Seq<usize>) -> bool {
    &&& free.no_duplicates()
    &&& forall|k: int|
        0 <= k < free.len() ==> (#[trigger] free[k] as int) < nodes.len() && nodes[free[k] as int] is None
}

/// The node at position `i` of the chain is live, holds the `i`-th value,
/// and links to the nodes at positions `i + 1` and `i - 1`.
spec fn links_ok<T>(nodes: Seq<Option<ListNode<T>>>, chain: Seq<usize>, vals: Seq<T>, i: int) -> bool {
    let s = chain[i];
    &&& (s as int) < nodes.len()
    &&& nodes[s as int] is Some
    &&& *nodes[s as int]->0.value == vals[i]
    &&& nodes[s as int]->0.next == if i + 1 < chain.len() {
        Some(chain[i + 1])
    } else {
        None
    }
    &&& nodes[s as int]->0.previous == if i > 0 {
        Some(chain[i - 1])
    } else {
        None
    }
}

/// Distinct slot indices below `n` are at most `n` in number.
proof fn lemma_distinct_below(s: Seq<usize>, n: int)
    requires
        0 <= n,
        s.no_duplicates(),
        forall|i: int| 0 <= i < s.len() ==> (#[trigger] s[i] as int) < n,
    ensures
        s.len() <= n,
    decreases s.len(),
{
    if s.len() > 0 {
        let t = s.drop_last();
        let last = s.last();
        assert forall|i: int| 0 <= i < t.len() implies #[trigger] t[i] != last && t[i] == s[i] by {
            assert(s[i] != s[s.len() - 1]);
        }
        if exists|k: int| 0 <= k < t.len() && t[k] as int == n - 1 {
            let k = choose|k: int| 0 <= k < t.len() && t[k] as int == n - 1;
            let u = t.update(k, last);
            assert forall|a: int, b: int|
                0 <= a < u.len() && 0 <= b < u.len() && a != b implies u[a] != u[b] by {
                if a != k && b != k {
                    assert(s[a] != s[b]);
                }
            }
            assert forall|i: int| 0 <= i < u.len() implies (#[trigger] u[i] as int) < n - 1 by {
                if i != k {
                    assert(s[i] != s[k]);
                }
            }
            lemma_distinct_below(u, n - 1);
        } else {
            lemma_distinct_below(t, n - 1);
        }
    }
}

fn next_of<T>(nodes: &Vec<Option<ListNode<T>>>, s: usize) -> (r: Option<usize>)
    requires
        s < nodes.len(),
        nodes[s as int] is Some,
    ensures
        r == nodes[s as int]->0.next,
{
    nodes[s].as_ref().unwrap().next
}

fn previous_of<T>(nodes: &Vec<Option<ListNode<T>>>, s: usize) -> (r: Option<usize>)
    requires
        s < nodes.len(),
        nodes[s as int] is Some,
    ensures
        r == nodes[s as int]->0.previous,
{
    nodes[s].as_ref().unwrap().previous
}

fn set_next<T>(nodes: &mut Vec<Option<ListNode<T>>>, s: usize, next: Option<usize>)
    requires
        s < old(nodes).len(),
        old(nodes)[s as int] is Some,
    ensures
        final(nodes)@ == old(nodes)@.update(
            s as int,
            Some(ListNode { next, ..old(nodes)[s as int]->0 }),
        ),
{
    if let Some(node) = &mut nodes[s] {
        node.next = next;
    }
}

fn set_previous<T>(nodes: &mut Vec<Option<ListNode<T>>>, s: usize, previous: Option<usize>)
    requires
        s < old(nodes).len(),
        old(nodes)[s as int] is Some,
    ensures
        final(nodes)@ == old(nodes)@.update(
            s as int,
            Some(ListNode { previous, ..old(nodes)[s as int]->0 }),
        ),
{
    if let Some(node) = &mut nodes[s] {
        node.previous = previous;
    }
}

/// Store `node` in a free slot, or in a new one, and return the slot.
fn allocate<T>(nodes: &mut Vec<Option<ListNode<T>>>, free: &mut Vec<usize>, node: ListNode<T>) -> (s:
    usize)
    requires
        free_slots_ok(old(nodes)@, old(free)@),
    ensures
        free_slots_ok(final(nodes)@, final(free)@),
        s < final(nodes).len(),
        final(nodes)@[s as int] == Some(node),
        final(nodes)@.len() >= old(nodes)@.len(),
        s >= old(nodes)@.len() || old(nodes)@[s as int] is None,
        forall|t: int|
            0 <= t < old(nodes)@.len() && t != s ==> #[trigger] final(nodes)@[t] == old(nodes)@[t],
{
    match free.pop() {
        Some(s) => {
            assert(old(free)@[old(free)@.len() - 1] == s);
            nodes[s] = Some(node);
            assert forall|k: int| 0 <= k < free@.len() implies (#[trigger] free@[k] as int)
                < nodes@.len() && nodes@[free@[k] as int] is None by {
                assert(old(free)@[k] == free@[k]);
                assert(old(free)@[k] != old(free)@[old(free)@.len() - 1]);
            }
            assert(free@.no_duplicates()) by {
                assert forall|a: int, b: int|
                    0 <= a < free@.len() && 0 <= b < free@.len() && a != b implies free@[a]
                    != free@[b] by {
                    assert(old(free)@[a] != old(free)@[b]);
                }
            }
            s
        },
        None => {
            let s = nodes.len();
            nodes.push(Some(node));
            s
        },
    }
}

/// The list shared by both public variants.
struct ParentListImpl<T> {
    nodes: Vec<Option<ListNode<T>>>,
    free: Vec<usize>,
    head: Option<usize>,
    tail: Option<usize>,
    cursor: Option<usize>,
    size: usize,
    statuses: ListStatuses,
    /// Slot of each node, from head to tail.
    chain: Ghost<Seq<usize>>,
    /// Value of each node, from head to tail.
    vals: Ghost<Seq<T>>,
    /// Position of the cursor in `chain`.
    pos: Ghost<Option<int>>,
}

impl<T> ParentListImpl<T> {
    spec fn node_ok(&self, i: int) -> bool {
        links_ok(self.nodes@, self.chain@, self.vals@, i)
    }

    spec fn inv(&self) -> bool {
        &&& self.chain@.len() == self.size
        &&& self.vals@.len() == self.size
        &&& self.chain@.no_duplicates()
        &&& forall|i: int|
            0 <= i < self.size ==> #[trigger] links_ok(self.nodes@, self.chain@, self.vals@, i)
        &&& self.head == if self.size == 0 {
            None
        } else {
            Some(self.chain@[0])
        }
        &&& self.tail == if self.size == 0 {
            None
        } else {
            Some(self.chain@[self.size - 1])
        }
        &&& match self.pos@ {
            None => self.cursor is None,
            Some(p) => 0 <= p < self.size && self.cursor == Some(self.chain@[p]),
        }
        &&& free_slots_ok(self.nodes@, self.free@)
        &&& self.nodes.len() <= usize::MAX
    }

    /// A slot that is empty or past the end holds no node of the chain.
    proof fn lemma_not_in_chain(&self, s: usize)
        requires
            self.inv(),
            s >= self.nodes@.len() || self.nodes@[s as int] is None,
        ensures
            forall|i: int| 0 <= i < self.size ==> self.chain@[i] != s,
    {
        assert forall|i: int| 0 <= i < self.size implies self.chain@[i] != s by {
            assert(self.node_ok(i));
        }
    }

    /// The chain cannot hold more nodes than there are slots.
    proof fn lemma_chain_fits(chain: Seq<usize>, nodes: Seq<Option<ListNode<T>>>)
        requires
            chain.no_duplicates(),
            forall|i: int| 0 <= i < chain.len() ==> (#[trigger] chain[i] as int) < nodes.len(),
        ensures
            chain.len() <= nodes.len(),
    {
        lemma_distinct_below(chain, nodes.len() as int);
    }
}

impl<T> ParentList<T> for ParentListImpl<T> {
    closed spec fn well_formed(&self) -> bool {
        self.inv()
    }

    closed spec fn model(&self) -> ListModel<T> {
        ListModel { values: self.vals@, cursor: self.pos@, statuses: self.statuses }
    }

    proof fn lemma_model_valid(&self) {
    }

    fn new() -> (r: Self) {
        ParentListImpl {
            nodes: Vec::new(),
            free: Vec::new(),
            head: None,
            tail: None,
            cursor: None,
            size: 0,
            statuses: ListStatuses::initial(),
            chain: Ghost(Seq::empty()),
            vals: Ghost(Seq::empty()),
            pos: Ghost(None),
        }
    }

    fn head(&mut self) {
        match self.head {
            None => {
                self.statuses.head = HeadStatus::Empty;
            },
            Some(h) => {
                self.cursor = Some(h);
                self.pos = Ghost(Some(0));
                self.statuses.head = HeadStatus::Success;
            },
        }
    }

    fn tail(&mut self) {
        match self.tail {
            None => {
                self.statuses.tail = TailStatus::Empty;
            },
            Some(t) => {
                self.cursor = Some(t);
                self.pos = Ghost(Some(self.size - 1));
                self.statuses.tail = TailStatus::Success;
            },
        }
    }

    fn right(&mut self) {
        match self.cursor {
            None => {
                self.statuses.right = RightStatus::Empty;
            },
            Some(c) => {
                let ghost p = self.pos@->0;
                proof {
                    assert(self.node_ok(p));
                }
                match next_of(&self.nodes, c) {
                    Some(n) => {
                        self.cursor = Some(n);
                        self.pos = Ghost(Some(p + 1));
                        self.statuses.right = RightStatus::Success;
                    },
                    None => {
                        self.statuses.right = RightStatus::NoRight;
                    },
                }
            },
        }
    }

    fn put_left(&mut self, value: T) {
        match self.cursor {
            None => {
                self.statuses.put_left = PutLeftStatus::Empty;
            },
            Some(c) => {
                let ghost p = self.pos@->0;
                let ghost v = value;
                let ghost old_nodes = self.nodes@;
                let ghost chain = self.chain@;
                proof {
                    assert(self.node_ok(p));
                    if p > 0 {
                        assert(self.node_ok(p - 1));
                    }
                }
                let prev = previous_of(&self.nodes, c);
                let node = ListNode { value: Rc::new(value), next: Some(c), previous: prev };
                let s = allocate(&mut self.nodes, &mut self.free, node);
                proof {
                    old(self).lemma_not_in_chain(s);
                }
                set_previous(&mut self.nodes, c, Some(s));
                match prev {
                    Some(q) => set_next(&mut self.nodes, q, Some(s)),
                    None => self.head = Some(s),
                }
                let ghost new_chain = chain.insert(p, s);
                proof {
                    assert forall|a: int, b: int|
                        0 <= a < new_chain.len() && 0 <= b < new_chain.len() && a != b implies new_chain[a]
                        != new_chain[b] by {
                        if a != p && b != p {
                            let a0 = if a < p { a } else { a - 1 };
                            let b0 = if b < p { b } else { b - 1 };
                            assert(chain[a0] != chain[b0]);
                        }
                    }
                    assert forall|i: int| 0 <= i < new_chain.len() implies (#[trigger] new_chain[i] as int)
                        < self.nodes@.len() by {
                        if i < p {
                            assert(old(self).node_ok(i));
                        } else if i > p {
                            assert(old(self).node_ok(i - 1));
                        }
                    }
                    Self::lemma_chain_fits(new_chain, self.nodes@);
                }
                self.size = self.size + 1;
                self.chain = Ghost(new_chain);
                self.vals = Ghost(self.vals@.insert(p, v));
                self.pos = Ghost(Some(p + 1));
                self.statuses.put_left = PutLeftStatus::Success;
                proof {
                    assert forall|i: int| 0 <= i < self.size implies #[trigger] links_ok(self.nodes@, self.chain@, self.vals@, i) by {
                        if i < p {
                            assert(old(self).node_ok(i));
                        } else if i > p {
                            assert(old(self).node_ok(i - 1));
                        }
                    }
                }
            },
        }
    }

    fn put_right(&mut self, value: T) {
        match self.cursor {
            None => {
                self.statuses.put_right = PutRightStatus::Empty;
            },
            Some(c) => {
                let ghost p = self.pos@->0;
                let ghost v = value;
                let ghost chain = self.chain@;
                proof {
                    assert(self.node_ok(p));
                    if p + 1 < self.size {
                        assert(self.node_ok(p + 1));
                    }
                }
                let next = next_of(&self.nodes, c);
                let node = ListNode { value: Rc::new(value), next, previous: Some(c) };
                let s = allocate(&mut self.nodes, &mut self.free, node);
                proof {
                    old(self).lemma_not_in_chain(s);
                }
                set_next(&mut self.nodes, c, Some(s));
                match next {
                    Some(n) => set_previous(&mut self.nodes, n, Some(s)),
                    None => self.tail = Some(s),
                }
                let ghost new_chain = chain.insert(p + 1, s);
                proof {
                    assert forall|a: int, b: int|
                        0 <= a < new_chain.len() && 0 <= b < new_chain.len() && a != b implies new_chain[a]
                        != new_chain[b] by {
                        if a != p + 1 && b != p + 1 {
                            let a0 = if a <= p { a } else { a - 1 };
                            let b0 = if b <= p { b } else { b - 1 };
                            assert(chain[a0] != chain[b0]);
                        }
                    }
                    assert forall|i: int| 0 <= i < new_chain.len() implies (#[trigger] new_chain[i] as int)
                        < self.nodes@.len() by {
                        if i <= p {
                            assert(old(self).node_ok(i));
                        } else if i > p + 1 {
                            assert(old(self).node_ok(i - 1));
                        }
                    }
                    Self::lemma_chain_fits(new_chain, self.nodes@);
                }
                self.size = self.size + 1;
                self.chain = Ghost(new_chain);
                self.vals = Ghost(self.vals@.insert(p + 1, v));
                self.statuses.put_right = PutRightStatus::Success;
                proof {
                    assert forall|i: int| 0 <= i < self.size implies #[trigger] links_ok(self.nodes@, self.chain@, self.vals@, i) by {
                        if i <= p {
                            assert(old(self).node_ok(i));
                        } else if i > p + 1 {
                            assert(old(self).node_ok(i - 1));
                        }
                    }
                }
            },
        }
    }

    fn remove(&mut self) {
        match self.cursor {
            None => {
                self.statuses.remove = RemoveStatus::Empty;
            },
            Some(c) => {
                let ghost p = self.pos@->0;
                let ghost chain = self.chain@;
                proof {
                    assert(self.node_ok(p));
                    if p > 0 {
                        assert(self.node_ok(p - 1));
                    }
                    if p + 1 < self.size {
                        assert(self.node_ok(p + 1));
                    }
                }
                let prev = previous_of(&self.nodes, c);
                let next = next_of(&self.nodes, c);
                match prev {
                    Some(q) => set_next(&mut self.nodes, q, next),
                    None => self.head = next,
                }
                match next {
                    Some(n) => set_previous(&mut self.nodes, n, prev),
                    None => self.tail = prev,
                }
                self.nodes[c] = None;
                proof {
                    assert forall|k: int| 0 <= k < self.free@.len() implies self.free@[k] != c by {
                        assert(old(self).nodes@[self.free@[k] as int] is None);
                    }
                    assert forall|a: int, b: int|
                        0 <= a < self.free@.len() + 1 && 0 <= b < self.free@.len() + 1 && a != b
                        implies self.free@.push(c)[a] != self.free@.push(c)[b] by {
                        if a < self.free@.len() && b < self.free@.len() {
                            assert(self.free@[a] != self.free@[b]);
                        }
                    }
                }
                self.free.push(c);
                self.cursor = match next {
                    Some(n) => Some(n),
                    None => prev,
                };
                self.size = self.size - 1;
                self.chain = Ghost(chain.remove(p));
                self.vals = Ghost(self.vals@.remove(p));
                self.pos = Ghost(cursor_after_removal(self.size as int, p));
                self.statuses.remove = RemoveStatus::Success;
                proof {
                    assert forall|a: int, b: int|
                        0 <= a < self.size && 0 <= b < self.size && a != b implies self.chain@[a]
                        != self.chain@[b] by {
                        let a0 = if a < p { a } else { a + 1 };
                        let b0 = if b < p { b } else { b + 1 };
                        assert(chain[a0] != chain[b0]);
                    }
                    assert forall|i: int| 0 <= i < self.size implies #[trigger] links_ok(self.nodes@, self.chain@, self.vals@, i) by {
                        if i < p {
                            assert(old(self).node_ok(i));
                            assert(chain[i] != c);
                        } else {
                            assert(old(self).node_ok(i + 1));
                            assert(chain[i + 1] != c);
                        }
                    }
                    assert forall|k: int| 0 <= k < self.free@.len() implies (#[trigger] self.free@[k] as int)
                        < self.nodes@.len() && self.nodes@[self.free@[k] as int] is None by {
                        if k < self.free@.len() - 1 {
                            assert(old(self).free@[k] == self.free@[k]);
                        }
                    }
                }
            },
        }
    }

    fn clear(&mut self) {
        self.nodes = Vec::new();
        self.free = Vec::new();
        self.head = None;
        self.tail = None;
        self.cursor = None;
        self.size = 0;
        self.statuses = ListStatuses::initial();
        self.chain = Ghost(Seq::empty());
        self.vals = Ghost(Seq::empty());
        self.pos = Ghost(None);
        proof {
            assert(self.model().values =~= Seq::<T>::empty());
        }
    }

    fn add_tail(&mut self, value: T) {
        let ghost v = value;
        let ghost chain = self.chain@;
        let ghost n = self.size as int;
        proof {
            if n > 0 {
                assert(self.node_ok(n - 1));
            }
        }
        let last = self.tail;
        let node = ListNode { value: Rc::new(value), next: None, previous: last };
        let s = allocate(&mut self.nodes, &mut self.free, node);
        proof {
            old(self).lemma_not_in_chain(s);
        }
        match last {
            Some(t) => set_next(&mut self.nodes, t, Some(s)),
            None => self.head = Some(s),
        }
        let ghost new_chain = chain.push(s);
        proof {
            assert forall|i: int| 0 <= i < new_chain.len() implies (#[trigger] new_chain[i] as int)
                < self.nodes@.len() by {
                if i < n {
                    assert(old(self).node_ok(i));
                }
            }
            Self::lemma_chain_fits(new_chain, self.nodes@);
        }
        self.tail = Some(s);
        self.size = self.size + 1;
        self.chain = Ghost(new_chain);
        self.vals = Ghost(self.vals@.push(v));
        proof {
            assert forall|i: int| 0 <= i < self.size implies #[trigger] links_ok(self.nodes@, self.chain@, self.vals@, i) by {
                if i < n {
                    assert(old(self).node_ok(i));
                }
            }
        }
    }

    fn replace(&mut self, value: T) {
        match self.cursor {
            None => {
                self.statuses.replace = ReplaceStatus::Empty;
            },
            Some(c) => {
                let ghost p = self.pos@->0;
                let ghost v = value;
                proof {
                    assert(self.node_ok(p));
                }
                if let Some(node) = &mut self.nodes[c] {
                    node.value = Rc::new(value);
                }
                self.vals = Ghost(self.vals@.update(p, v));
                self.statuses.replace = ReplaceStatus::Success;
                proof {
                    assert forall|i: int| 0 <= i < self.size implies #[trigger] links_ok(self.nodes@, self.chain@, self.vals@, i) by {
                        assert(old(self).node_ok(i));
                    }
                }
            },
        }
    }

    fn find(&mut self, value: &T) where T: PartialEq {
        match self.cursor {
            None => {
                self.statuses.find = FindStatus::Empty;
            },
            Some(c) => {
                let ghost p = self.pos@->0;
                proof {
                    assert(self.node_ok(p));
                }
                let mut cur = next_of(&self.nodes, c);
                let ghost mut j: int = p + 1;
                loop
                    invariant
                        self.inv(),
                        0 <= p < self.size,
                        p + 1 <= j <= self.size,
                        cur == if j < self.size {
                            Some(self.chain@[j])
                        } else {
                            None::<usize>
                        },
                        T::obeys_eq_spec() ==> first_match(self.vals@, p + 1, *value) == first_match(
                            self.vals@,
                            j,
                            *value,
                        ),
                    ensures
                        p + 1 <= j <= self.size,
                        cur matches Some(s) ==> j < self.size && s == self.chain@[j] && (
                        T::obeys_eq_spec() ==> first_match(self.vals@, p + 1, *value) == Some(j)),
                        cur is None ==> (T::obeys_eq_spec() ==> first_match(
                            self.vals@,
                            p + 1,
                            *value,
                        ) is None),
                    decreases self.size - j,
                {
                    match cur {
                        None => {
                            break ;
                        },
                        Some(s) => {
                            proof {
                                assert(self.node_ok(j));
                            }
                            let node = self.nodes[s].as_ref().unwrap();
                            if *node.value == *value {
                                break ;
                            }
                            cur = node.next;
                            proof {
                                j = j + 1;
                            }
                        },
                    }
                }
                match cur {
                    Some(s) => {
                        self.cursor = Some(s);
                        self.pos = Ghost(Some(j));
                        self.statuses.find = FindStatus::Success;
                    },
                    None => {
                        self.statuses.find = FindStatus::NotFound;
                    },
                }
            },
        }
    }

    fn remove_all(&mut self, value: &T) where T: PartialEq {
        if self.size == 0 {
            return ;
        }
        loop
            invariant
                self.inv(),
                T::obeys_eq_spec() ==> self.model().purge(*value) == old(self).model().purge(
                    *value,
                ),
            ensures
                self.inv(),
                T::obeys_eq_spec() ==> self.model() == old(self).model().purge(*value),
            decreases self.size,
        {
            self.find(value);
            if self.statuses.find != FindStatus::Success {
                break ;
            }
            self.remove();
        }
    }

    fn get(&mut self) -> (r: Option<Rc<T>>) {
        match self.cursor {
            None => {
                self.statuses.get = GetStatus::Empty;
                None
            },
            Some(c) => {
                proof {
                    assert(self.node_ok(self.pos@->0));
                }
                self.statuses.get = GetStatus::Success;
                Some(Rc::clone(&self.nodes[c].as_ref().unwrap().value))
            },
        }
    }

    fn size(&self) -> (r: usize) {
        self.size
    }

    fn is_head(&self) -> (r: bool) {
        match (self.cursor, self.head) {
            (Some(c), Some(h)) => {
                proof {
                    assert(self.chain@[0] != self.chain@[self.pos@->0] || self.pos@->0 == 0);
                }
                c == h
            },
            _ => false,
        }
    }

    fn is_tail(&self) -> (r: bool) {
        match (self.cursor, self.tail) {
            (Some(c), Some(t)) => {
                proof {
                    let p = self.pos@->0;
                    assert(self.chain@[self.size - 1] != self.chain@[p] || p == self.size - 1);
                }
                c == t
            },
            _ => false,
        }
    }

    fn is_value(&self) -> (r: bool) {
        self.size > 0
    }

    fn get_head_status(&self) -> (r: HeadStatus) {
        self.statuses.head
    }

    fn get_tail_status(&self) -> (r: TailStatus) {
        self.statuses.tail
    }

    fn get_right_status(&self) -> (r: RightStatus) {
        self.statuses.right
    }

    fn get_put_left_status(&self) -> (r: PutLeftStatus) {
        self.statuses.put_left
    }

    fn get_put_right_status(&self) -> (r: PutRightStatus) {
        self.statuses.put_right
    }

    fn get_remove_status(&self) -> (r: RemoveStatus) {
        self.statuses.remove
    }

    fn get_replace_status(&self) -> (r: ReplaceStatus) {
        self.statuses.replace
    }

    fn get_get_status(&self) -> (r: GetStatus) {
        self.statuses.get
    }

    fn get_find_status(&self) -> (r: FindStatus) {
        self.statuses.find
    }
}


/// The one-way cursor list.
pub struct LinkedListImpl<T> {
    delegate_list: ParentListImpl<T>,
}

impl<T> LinkedList<T> for LinkedListImpl<T> {

}

impl<T> ParentList<T> for LinkedListImpl<T> {
    closed spec fn well_formed(&self) -> bool {
        self.delegate_list.well_formed()
    }

    closed spec fn model(&self) -> ListModel<T> {
        self.delegate_list.model()
    }

    proof fn lemma_model_valid(&self) {
        self.delegate_list.lemma_model_valid();
    }

    fn new() -> (r: Self) {
        LinkedListImpl { delegate_list: ParentListImpl::new() }
    }

    fn head(&mut self) {
        self.delegate_list.head()
    }

    fn tail(&mut self) {
        self.delegate_list.tail()
    }

    fn right(&mut self) {
        self.delegate_list.right()
    }

    fn put_left(&mut self, value: T) {
        self.delegate_list.put_left(value)
    }

    fn put_right(&mut self, value: T) {
        self.delegate_list.put_right(value)
    }

    fn remove(&mut self) {
        self.delegate_list.remove()
    }

    fn clear(&mut self) {
        self.delegate_list.clear()
    }

    fn add_tail(&mut self, value: T) {
        self.delegate_list.add_tail(value)
    }

    fn replace(&mut self, value: T) {
        self.delegate_list.replace(value)
    }

    fn find(&mut self, value: &T) where T: PartialEq {
        self.delegate_list.find(value)
    }

    fn remove_all(&mut self, value: &T) where T: PartialEq {
        self.delegate_list.remove_all(value)
    }

    fn get(&mut self) -> (r: Option<Rc<T>>) {
        self.delegate_list.get()
    }

    fn size(&self) -> (r: usize) {
        self.delegate_list.size()
    }

    fn is_head(&self) -> (r: bool) {
        self.delegate_list.is_head()
    }

    fn is_tail(&self) -> (r: bool) {
        self.delegate_list.is_tail()
    }

    fn is_value(&self) -> (r: bool) {
        self.delegate_list.is_value()
    }

    fn get_head_status(&self) -> (r: HeadStatus) {
        self.delegate_list.get_head_status()
    }

    fn get_tail_status(&self) -> (r: TailStatus) {
        self.delegate_list.get_tail_status()
    }

    fn get_right_status(&self) -> (r: RightStatus) {
        self.delegate_list.get_right_status()
    }

    fn get_put_left_status(&self) -> (r: PutLeftStatus) {
        self.delegate_list.get_put_left_status()
    }

    fn get_put_right_status(&self) -> (r: PutRightStatus) {
        self.delegate_list.get_put_right_status()
    }

    fn get_remove_status(&self) -> (r: RemoveStatus) {
        self.delegate_list.get_remove_status()
    }

    fn get_replace_status(&self) -> (r: ReplaceStatus) {
        self.delegate_list.get_replace_status()
    }

    fn get_get_status(&self) -> (r: GetStatus) {
        self.delegate_list.get_get_status()
    }

    fn get_find_status(&self) -> (r: FindStatus) {
        self.delegate_list.get_find_status()
    }
}

/// The two-way cursor list: a `ParentList` that can also move left.
pub struct DoublyLinkedListImpl<T> {
    delegate_list: ParentListImpl<T>,
    left_status: LeftStatus,
}

impl<T> TwoWayList<T> for DoublyLinkedListImpl<T> {
    closed spec fn left_state(&self) -> LeftStatus {
        self.left_status
    }

    fn left(&mut self) {
        let delegate = &mut self.delegate_list;
        match delegate.cursor {
            None => {
                self.left_status = LeftStatus::Empty;
            },
            Some(c) => {
                let ghost p = delegate.pos@->0;
                proof {
                    assert(delegate.node_ok(p));
                    if p > 0 {
                        assert(delegate.node_ok(p - 1));
                    }
                }
                match previous_of(&delegate.nodes, c) {
                    Some(q) => {
                        delegate.cursor = Some(q);
                        delegate.pos = Ghost(Some(p - 1));
                        self.left_status = LeftStatus::Success;
                    },
                    None => {
                        self.left_status = LeftStatus::NoLeft;
                    },
                }
            },
        }
    }

    fn get_left_status(&self) -> (r: LeftStatus) {
        self.left_status
    }
}

impl<T> ParentList<T> for DoublyLinkedListImpl<T> {
    closed spec fn well_formed(&self) -> bool {
        self.delegate_list.well_formed()
    }

    closed spec fn model(&self) -> ListModel<T> {
        self.delegate_list.model()
    }

    proof fn lemma_model_valid(&self) {
        self.delegate_list.lemma_model_valid();
    }

    fn new() -> (r: Self)
        ensures
            r.left_state() == LeftStatus::Nil,
    {
        DoublyLinkedListImpl { delegate_list: ParentListImpl::new(), left_status: LeftStatus::Nil }
    }

    fn head(&mut self)
        ensures
            final(self).left_state() == old(self).left_state(),
    {
        self.delegate_list.head()
    }

    fn tail(&mut self)
        ensures
            final(self).left_state() == old(self).left_state(),
    {
        self.delegate_list.tail()
    }

    fn right(&mut self)
        ensures
            final(self).left_state() == old(self).left_state(),
    {
        self.delegate_list.right()
    }

    fn put_left(&mut self, value: T)
        ensures
            final(self).left_state() == old(self).left_state(),
    {
        self.delegate_list.put_left(value)
    }

    fn put_right(&mut self, value: T)
        ensures
            final(self).left_state() == old(self).left_state(),
    {
        self.delegate_list.put_right(value)
    }

    fn remove(&mut self)
        ensures
            final(self).left_state() == old(self).left_state(),
    {
        self.delegate_list.remove()
    }

    fn clear(&mut self)
        ensures
            final(self).left_state() == LeftStatus::Nil,
    {
        self.delegate_list.clear();
        self.left_status = LeftStatus::Nil;
    }

    fn add_tail(&mut self, value: T)
        ensures
            final(self).left_state() == old(self).left_state(),
    {
        self.delegate_list.add_tail(value)
    }

    fn replace(&mut self, value: T)
        ensures
            final(self).left_state() == old(self).left_state(),
    {
        self.delegate_list.replace(value)
    }

    fn find(&mut self, value: &T) where T: PartialEq
        ensures
            final(self).left_state() == old(self).left_state(),
    {
        self.delegate_list.find(value)
    }

    fn remove_all(&mut self, value: &T) where T: PartialEq
        ensures
            final(self).left_state() == old(self).left_state(),
    {
        self.delegate_list.remove_all(value)
    }

    fn get(&mut self) -> (r: Option<Rc<T>>)
        ensures
            final(self).left_state() == old(self).left_state(),
    {
        self.delegate_list.get()
    }

    fn size(&self) -> (r: usize) {
        self.delegate_list.size()
    }

    fn is_head(&self) -> (r: bool) {
        self.delegate_list.is_head()
    }

    fn is_tail(&self) -> (r: bool) {
        self.delegate_list.is_tail()
    }

    fn is_value(&self) -> (r: bool) {
        self.delegate_list.is_value()
    }

    fn get_head_status(&self) -> (r: HeadStatus) {
        self.delegate_list.get_head_status()
    }

    fn get_tail_status(&self) -> (r: TailStatus) {
        self.delegate_list.get_tail_status()
    }

    fn get_right_status(&self) -> (r: RightStatus) {
        self.delegate_list.get_right_status()
    }

    fn get_put_left_status(&self) -> (r: PutLeftStatus) {
        self.delegate_list.get_put_left_status()
    }

    fn get_put_right_status(&self) -> (r: PutRightStatus) {
        self.delegate_list.get_put_right_status()
    }

    fn get_remove_status(&self) -> (r: RemoveStatus) {
        self.delegate_list.get_remove_status()
    }

    fn get_replace_status(&self) -> (r: ReplaceStatus) {
        self.delegate_list.get_replace_status()
    }

    fn get_get_status(&self) -> (r: GetStatus) {
        self.delegate_list.get_get_status()
    }

    fn get_find_status(&self) -> (r: FindStatus) {
        self.delegate_list.get_find_status()
    }
}

} // verus!
