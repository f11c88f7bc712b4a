use ooap::list_hierarchy::{
    DoublyLinkedListImpl, FindStatus, GetStatus, HeadStatus, LeftStatus, LinkedListImpl,
    ParentList, PutLeftStatus, PutRightStatus, RemoveStatus, ReplaceStatus, RightStatus,
    TailStatus, TwoWayList,
};

fn values_of(list: &mut DoublyLinkedListImpl<i64>) -> Vec<i64> {
    let mut out = Vec::new();
    if list.size() == 0 {
        return out;
    }
    list.head();
    out.push(*list.get().unwrap());
    while !list.is_tail() {
        list.right();
        out.push(*list.get().unwrap());
    }
    out
}

fn filled(values: &[i64]) -> DoublyLinkedListImpl<i64> {
    let mut list: DoublyLinkedListImpl<i64> = ParentList::new();
    for v in values {
        list.add_tail(*v);
    }
    list
}

fn assert_fresh_statuses(list: &DoublyLinkedListImpl<i64>) {
    assert_eq!(list.get_head_status(), HeadStatus::Nil);
    assert_eq!(list.get_tail_status(), TailStatus::Nil);
    assert_eq!(list.get_right_status(), RightStatus::Nil);
    assert_eq!(list.get_left_status(), LeftStatus::Nil);
    assert_eq!(list.get_put_left_status(), PutLeftStatus::Nil);
    assert_eq!(list.get_put_right_status(), PutRightStatus::Nil);
    assert_eq!(list.get_remove_status(), RemoveStatus::Nil);
    assert_eq!(list.get_replace_status(), ReplaceStatus::Nil);
    assert_eq!(list.get_get_status(), GetStatus::Nil);
    assert_eq!(list.get_find_status(), FindStatus::Nil);
}

#[test]
fn walkthrough_with_put_left_and_remove_at_tail() {
    let mut list: DoublyLinkedListImpl<i64> = ParentList::new();
    list.add_tail(1);
    list.add_tail(2);
    list.add_tail(3);
    assert_eq!(list.size(), 3);
    list.head();
    assert_eq!(*list.get().unwrap(), 1);
    list.right();
    list.right();
    assert_eq!(*list.get().unwrap(), 3);
    assert!(list.is_tail());
    list.put_left(99);
    assert_eq!(list.get_put_left_status(), PutLeftStatus::Success);
    assert_eq!(list.size(), 4);
    assert_eq!(*list.get().unwrap(), 3);
    list.left();
    assert_eq!(list.get_left_status(), LeftStatus::Success);
    assert_eq!(*list.get().unwrap(), 99);
    list.right();
    assert_eq!(*list.get().unwrap(), 3);
    list.remove();
    assert_eq!(list.get_remove_status(), RemoveStatus::Success);
    assert_eq!(list.size(), 3);
    assert!(list.is_tail());
    assert_eq!(*list.get().unwrap(), 99);
    assert_eq!(values_of(&mut list), vec![1, 2, 99]);
}

#[test]
fn remove_all_from_head_removes_both_matches() {
    let mut list = filled(&[1, 2, 3, 2, 4]);
    list.head();
    list.remove_all(&2);
    assert_eq!(list.size(), 3);
    assert_eq!(list.get_find_status(), FindStatus::NotFound);
    assert_eq!(list.get_remove_status(), RemoveStatus::Success);
    assert_eq!(values_of(&mut list), vec![1, 3, 4]);
}

#[test]
fn remove_all_skips_nodes_before_the_cursor() {
    let mut list = filled(&[2, 1, 2, 3]);
    list.head();
    list.right();
    list.remove_all(&2);
    assert_eq!(values_of(&mut list), vec![2, 1, 3]);
}

#[test]
fn remove_all_searches_after_the_node_that_follows_a_removal() {
    let mut list = filled(&[1, 2, 2, 3]);
    list.head();
    list.remove_all(&2);
    assert_eq!(values_of(&mut list), vec![1, 2, 3]);
}

#[test]
fn remove_all_on_empty_list_changes_nothing() {
    let mut list: DoublyLinkedListImpl<i64> = ParentList::new();
    list.remove_all(&1);
    assert_eq!(list.size(), 0);
    assert_eq!(list.get_find_status(), FindStatus::Nil);
    assert_eq!(list.get_remove_status(), RemoveStatus::Nil);
}

#[test]
fn size_counts_additions_minus_removals() {
    let mut list: DoublyLinkedListImpl<i64> = ParentList::new();
    for i in 0..10 {
        list.add_tail(i % 3);
        assert_eq!(list.size(), (i + 1) as usize);
    }
    list.head();
    list.remove();
    assert_eq!(list.size(), 9);
    list.remove_all(&0);
    assert_eq!(list.size(), 6);
    list.put_right(5);
    list.put_left(6);
    assert_eq!(list.size(), 8);
}

#[test]
fn walking_right_from_head_visits_every_node_once() {
    let mut list = filled(&[4, 5, 6, 7, 8]);
    list.head();
    let mut visited = 1;
    while !list.is_tail() {
        list.right();
        visited += 1;
    }
    assert_eq!(visited, list.size());
    assert!(list.is_tail());
    assert_eq!(*list.get().unwrap(), 8);
}

#[test]
fn put_left_and_put_right_keep_the_cursor() {
    let mut list = filled(&[10, 20]);
    list.head();
    list.right();
    list.put_right(30);
    assert_eq!(list.get_put_right_status(), PutRightStatus::Success);
    assert_eq!(*list.get().unwrap(), 20);
    list.put_left(15);
    assert_eq!(*list.get().unwrap(), 20);
    assert_eq!(values_of(&mut list), vec![10, 15, 20, 30]);
}

#[test]
fn put_left_at_head_makes_a_new_head() {
    let mut list = filled(&[1]);
    list.head();
    list.put_left(0);
    assert!(!list.is_head());
    list.head();
    assert_eq!(*list.get().unwrap(), 0);
    assert!(list.is_head());
}

#[test]
fn right_at_tail_is_stable() {
    let mut list = filled(&[1, 2]);
    list.tail();
    assert_eq!(list.get_tail_status(), TailStatus::Success);
    for _ in 0..3 {
        list.right();
        assert_eq!(list.get_right_status(), RightStatus::NoRight);
        assert_eq!(list.size(), 2);
        assert!(list.is_tail());
        assert_eq!(*list.get().unwrap(), 2);
    }
}

#[test]
fn left_at_head_reports_no_left() {
    let mut list = filled(&[1, 2]);
    list.head();
    list.left();
    assert_eq!(list.get_left_status(), LeftStatus::NoLeft);
    assert!(list.is_head());
}

#[test]
fn draining_from_head_empties_the_list() {
    let mut list = filled(&[1, 2, 3, 4]);
    list.head();
    let n = list.size();
    for _ in 0..n {
        list.remove();
        assert_eq!(list.get_remove_status(), RemoveStatus::Success);
    }
    assert_eq!(list.size(), 0);
    assert!(!list.is_head());
    assert!(!list.is_value());
    assert!(list.get().is_none());
    assert_eq!(list.get_get_status(), GetStatus::Empty);
    list.remove();
    assert_eq!(list.get_remove_status(), RemoveStatus::Empty);
}

#[test]
fn clear_restores_fresh_statuses() {
    let fresh: DoublyLinkedListImpl<i64> = ParentList::new();
    assert_fresh_statuses(&fresh);
    let mut list = filled(&[1, 2, 3]);
    list.head();
    list.right();
    list.left();
    list.find(&3);
    list.remove();
    list.replace(7);
    let _ = list.get();
    list.put_left(1);
    list.put_right(2);
    list.tail();
    list.clear();
    assert_fresh_statuses(&list);
    assert_eq!(list.size(), 0);
    assert!(!list.is_value());
    list.head();
    assert_eq!(list.get_head_status(), HeadStatus::Empty);
}

#[test]
fn operations_on_an_empty_list_report_empty() {
    let mut list: DoublyLinkedListImpl<i64> = ParentList::new();
    list.head();
    assert_eq!(list.get_head_status(), HeadStatus::Empty);
    list.tail();
    assert_eq!(list.get_tail_status(), TailStatus::Empty);
    list.right();
    assert_eq!(list.get_right_status(), RightStatus::Empty);
    list.left();
    assert_eq!(list.get_left_status(), LeftStatus::Empty);
    list.put_left(1);
    assert_eq!(list.get_put_left_status(), PutLeftStatus::Empty);
    list.put_right(1);
    assert_eq!(list.get_put_right_status(), PutRightStatus::Empty);
    list.replace(1);
    assert_eq!(list.get_replace_status(), ReplaceStatus::Empty);
    list.find(&1);
    assert_eq!(list.get_find_status(), FindStatus::Empty);
    assert!(list.get().is_none());
    assert_eq!(list.get_get_status(), GetStatus::Empty);
    assert_eq!(list.size(), 0);
    assert!(!list.is_head());
    assert!(!list.is_tail());
}

#[test]
fn add_tail_leaves_the_cursor_undefined() {
    let mut list = filled(&[1, 2]);
    assert!(list.is_value());
    assert!(!list.is_head());
    assert!(!list.is_tail());
    assert!(list.get().is_none());
    assert_eq!(list.get_get_status(), GetStatus::Empty);
    list.right();
    assert_eq!(list.get_right_status(), RightStatus::Empty);
    list.head();
    assert_eq!(*list.get().unwrap(), 1);
}

#[test]
fn find_searches_forward_from_after_the_cursor() {
    let mut list = filled(&[5, 1, 5, 2, 5]);
    list.head();
    list.find(&5);
    assert_eq!(list.get_find_status(), FindStatus::Success);
    list.left();
    list.left();
    assert_eq!(list.get_left_status(), LeftStatus::Success);
    assert!(list.is_head());
    list.right();
    list.right();
    list.find(&5);
    assert_eq!(list.get_find_status(), FindStatus::Success);
    assert!(list.is_tail());
    list.find(&5);
    assert_eq!(list.get_find_status(), FindStatus::NotFound);
    assert!(list.is_tail());
    list.head();
    list.find(&9);
    assert_eq!(list.get_find_status(), FindStatus::NotFound);
    assert!(list.is_head());
}

#[test]
fn retrieved_value_outlives_replace_and_remove() {
    let mut list = filled(&[1, 2]);
    list.head();
    let first = list.get().unwrap();
    let again = list.get().unwrap();
    list.replace(10);
    assert_eq!(list.get_replace_status(), ReplaceStatus::Success);
    assert_eq!(*first, 1);
    assert_eq!(*again, 1);
    assert_eq!(*list.get().unwrap(), 10);
    let replaced = list.get().unwrap();
    list.remove();
    assert_eq!(*replaced, 10);
    assert_eq!(*list.get().unwrap(), 2);
    assert!(list.is_head());
    assert!(list.is_tail());
}

#[test]
fn remove_in_the_middle_moves_to_the_next_node() {
    let mut list = filled(&[1, 2, 3]);
    list.head();
    list.right();
    list.remove();
    assert_eq!(*list.get().unwrap(), 3);
    list.remove();
    assert_eq!(*list.get().unwrap(), 1);
    list.remove();
    assert_eq!(list.size(), 0);
    list.add_tail(4);
    list.tail();
    assert_eq!(*list.get().unwrap(), 4);
}

#[test]
fn freed_slots_are_reused_without_mixing_nodes() {
    let mut list = filled(&[1, 2, 3, 4]);
    list.head();
    list.right();
    list.remove();
    list.remove();
    list.put_right(7);
    list.put_left(8);
    list.add_tail(9);
    assert_eq!(values_of(&mut list), vec![1, 8, 4, 7, 9]);
    list.tail();
    list.left();
    assert_eq!(*list.get().unwrap(), 7);
}

#[test]
fn one_way_list_has_the_same_operations() {
    let mut list: LinkedListImpl<i64> = ParentList::new();
    list.add_tail(3);
    list.add_tail(4);
    list.tail();
    list.put_right(5);
    list.right();
    assert!(list.is_tail());
    assert_eq!(*list.get().unwrap(), 5);
    list.head();
    list.remove_all(&5);
    assert_eq!(list.size(), 2);
    list.clear();
    assert_eq!(list.size(), 0);
    assert_eq!(list.get_head_status(), HeadStatus::Nil);
}

#[test]
fn long_list_is_built_and_dropped() {
    let mut list: DoublyLinkedListImpl<i64> = ParentList::new();
    for i in 0..200_000 {
        list.add_tail(i);
    }
    assert_eq!(list.size(), 200_000);
    list.tail();
    assert_eq!(*list.get().unwrap(), 199_999);
    drop(list);
}
