use ooap::bounded_stack::{
    BoundedStack, BoundedStackImpl, PeekStatus, PopStatus, PushStatus, DEFAULT_UPPER_BOUND,
};

fn assert_clear<T: Copy>(stack: &BoundedStackImpl<T>) {
    assert_eq!(stack.size(), 0);
    assert_eq!(stack.get_push_status(), PushStatus::Nil);
    assert_eq!(stack.get_pop_status(), PopStatus::Nil);
    assert_eq!(stack.get_peek_status(), PeekStatus::Nil);
}

#[test]
fn test_new() {
    let stack: BoundedStackImpl<i64> = BoundedStack::<i64>::new();
    assert_eq!(stack.upper_bound(), DEFAULT_UPPER_BOUND);
    assert_clear(&stack);
}

#[test]
fn test_new_with_upper_bound() {
    let upper_bound = 42;
    let stack: BoundedStackImpl<i64> = BoundedStack::<i64>::new_with_upper_bound(upper_bound);
    assert_eq!(stack.upper_bound(), upper_bound);
    assert_clear(&stack);
}

#[test]
fn test_commands_and_queries() {
    let mut stack: BoundedStackImpl<i64> = BoundedStack::<i64>::new();
    for i in 1..=DEFAULT_UPPER_BOUND {
        let value = i as i64;
        stack.push(value);
        assert_eq!(stack.get_push_status(), PushStatus::Success);
        assert_eq!(stack.size(), i);
        assert_eq!(stack.peek().unwrap(), value);
        assert_eq!(stack.get_peek_status(), PeekStatus::Success);
    }
    stack.push(1);
    assert_eq!(stack.get_push_status(), PushStatus::Error);
    assert_eq!(stack.size(), DEFAULT_UPPER_BOUND);
    assert_eq!(stack.peek().unwrap(), DEFAULT_UPPER_BOUND as i64);
    assert_eq!(stack.get_peek_status(), PeekStatus::Success);
    for i in (0..=DEFAULT_UPPER_BOUND - 1).rev() {
        let value = i as i64;
        stack.pop();
        assert_eq!(stack.get_pop_status(), PopStatus::Success);
        assert_eq!(stack.size(), i);
        if i == 0 {
            break;
        }
        assert_eq!(stack.peek().unwrap(), value);
        assert_eq!(stack.get_peek_status(), PeekStatus::Success);
    }
    stack.pop();
    assert_eq!(stack.get_pop_status(), PopStatus::Error);
    assert_eq!(stack.size(), 0);
    assert_eq!(stack.peek(), None);
    assert_eq!(stack.get_peek_status(), PeekStatus::Error);
}

#[test]
fn clear_keeps_bound_and_resets_statuses() {
    let mut stack: BoundedStackImpl<i64> = BoundedStack::<i64>::new_with_upper_bound(2);
    stack.push(5);
    stack.push(6);
    stack.push(7);
    assert_eq!(stack.get_push_status(), PushStatus::Error);
    stack.pop();
    assert_eq!(stack.peek(), Some(5));
    stack.clear();
    assert_clear(&stack);
    assert_eq!(stack.upper_bound(), 2);
}

#[test]
fn zero_bound_refuses_every_push() {
    let mut stack: BoundedStackImpl<i64> = BoundedStack::<i64>::new_with_upper_bound(0);
    stack.push(1);
    assert_eq!(stack.get_push_status(), PushStatus::Error);
    assert_eq!(stack.size(), 0);
}
