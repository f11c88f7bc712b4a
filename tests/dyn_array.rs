use ooap::dyn_array::{
    DynArray, DynArrayImpl, GetStatus, InsertStatus, RemoveStatus, ReplaceStatus,
    SetCursorStatus,
};

#[test]
fn dyn_array_starts_empty() {
    let mut array: DynArrayImpl<i64> = DynArray::new();
    assert_eq!(array.size(), 0);
    assert_eq!(array.get(), None);
    assert_eq!(array.get_get_status(), GetStatus::Empty);
    array.set_cursor(0);
    assert_eq!(array.get_set_cursor_status(), SetCursorStatus::Empty);
    array.insert(1);
    assert_eq!(array.get_insert_status(), InsertStatus::Empty);
    array.remove();
    assert_eq!(array.get_remove_status(), RemoveStatus::Empty);
    array.replace(1);
    assert_eq!(array.get_replace_status(), ReplaceStatus::Empty);
}

#[test]
fn dyn_array_cursor_operations() {
    let mut array: DynArrayImpl<i64> = DynArray::new_with_capacity(2);
    array.append(1);
    array.append(2);
    array.append(3);
    assert_eq!(array.size(), 3);
    array.set_cursor(5);
    assert_eq!(array.get_set_cursor_status(), SetCursorStatus::OutOfBounds);
    assert_eq!(array.get(), Some(&1));
    array.set_cursor(1);
    assert_eq!(array.get_set_cursor_status(), SetCursorStatus::Success);
    assert_eq!(array.get(), Some(&2));
    array.insert(9);
    assert_eq!(array.get_insert_status(), InsertStatus::Success);
    assert_eq!(array.get(), Some(&9));
    assert_eq!(array.size(), 4);
    array.replace(8);
    assert_eq!(array.get(), Some(&8));
    array.remove();
    assert_eq!(array.get(), Some(&2));
    array.set_cursor(2);
    array.remove();
    assert_eq!(array.get_remove_status(), RemoveStatus::Success);
    assert_eq!(array.get(), Some(&2));
    assert_eq!(array.size(), 2);
}
