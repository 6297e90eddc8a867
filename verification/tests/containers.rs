use anystore::sequences::List;
use anystore::sequences::Range;
use anystore::sequences::Stack;

fn forward(range: Range) -> impl Iterator<Item = i32> {
    let mut inner = range;
    std::iter::from_fn(move || inner.next())
}

fn backward(range: Range) -> impl Iterator<Item = i32> {
    let mut inner = range;
    std::iter::from_fn(move || inner.next_back())
}


#[test]
fn test_into_iter_consuming() {
    let mut stack = Stack::new();
    stack.push(1);
    stack.push(2);
    stack.push(3);

    let mut sum = 0;
    for n in stack {
        sum += n;
    }
    assert_eq!(sum, 6);

}

#[test]
fn test_into_iter_collect() {
    let mut stack = Stack::new();
    stack.push("a");
    stack.push("b");
    stack.push("c");

    let v: Vec<&str> = stack.into_iter().collect();
    assert_eq!(v, vec!["a", "b", "c"]);

}

#[test]
fn test_iter_borrowing() {
    let mut stack = Stack::new();
    stack.push(10);
    stack.push(20);
    stack.push(30);

    let mut sum = 0;
    for n in &stack {
        sum += n;
    }
    assert_eq!(sum, 60);

    stack.push(40);
    assert_eq!(stack.len(), 4)
}

#[test]
fn test_iter_method() {
    let mut stack = Stack::new();
    stack.push(1);
    stack.push(2);
    stack.push(3);

    let v: Vec<i32> = stack.iter().map(|n| n * 2).collect();
    assert_eq!(v, vec![2, 4, 6]);

    assert_eq!(stack.len(), 3);
}

#[test]
fn test_iter_mut_borrowing() {
    let mut stack = Stack::new();
    stack.push(1);
    stack.push(2);
    stack.push(3);

    for n in stack.iter_mut() {
        (*n) *= 10;
    }

    let v: Vec<i32> = stack.into_iter().collect();
    assert_eq!(v, vec![10, 20, 30]);
}

#[test]
fn test_iter_mut_method() {
    let mut stack = Stack::new();
    stack.push(String::from("hello"));
    stack.push(String::from("world"));

    for s in stack.iter_mut() {
        s.push('!');
    }

    let v: Vec<&String> = stack.iter().collect();
    assert_eq!(v, vec!["hello!", "world!"]);
}

#[test]
fn test_from_iterator_collect() {
    let stack: Stack<i32> = Stack::from_vec((1..=5).collect());
    let v: Vec<i32> = stack.into_iter().collect();
    assert_eq!(v, vec![1, 2, 3, 4, 5]);
}

#[test]
fn test_from_iterator_from_vec() {
    let v = vec!["a", "b", "c"];
    let stack: Stack<&str> = Stack::from_vec(v.into_iter().collect());
    assert_eq!(stack.len(), 3);
}

#[test]
fn test_from_iterator_with_map() {
    let stack: Stack<String> = Stack::from_vec((1..=3).map(|n| format!("item-{}", n)).collect());
    let v: Vec<&String> = stack.iter().collect();
    assert_eq!(v, vec!["item-1", "item-2", "item-3"]);
}

#[test]
fn test_collect_into_result() {

    let strings = ["1", "2", "3"];

    let v: Result<Vec<i32>, _> = strings.iter().map(|s| s.parse()).collect();
    assert!(v.is_ok());
    assert_eq!(v.unwrap(), vec![1, 2, 3]);
}

#[test]
fn test_collect_into_result_fails() {
    let strings = ["1", "oops", "3"];

    let v: Result<Vec<i32>, _> = strings.iter().map(|s| s.parse()).collect();
    assert!(v.is_err());
}

#[test]
fn test_collect_into_option() {
    let numbers = [Some(1), Some(2), Some(3)];
    let v: Option<Vec<i32>> = numbers.into_iter().collect();
    assert!(v.is_some());
    assert_eq!(v.unwrap(), vec![1, 2, 3]);
}

#[test]
fn test_collect_into_option_fails() {
    let numbers = [Some(1), None, Some(3)];
    let v: Option<Vec<i32>> = numbers.into_iter().collect();
    assert!(v.is_none());
}

#[test]
fn test_range_basic() {
    let rng = Range::new(1, 5);
    let v: Vec<i32> = forward(rng).collect();
    assert_eq!(v, vec![1, 2, 3, 4]);
}

#[test]
fn test_exact_size_len() {
    let rng = Range::new(0, 10);
    assert_eq!(rng.len(), 10);

    let rng = Range::new(5, 5);
    assert_eq!(rng.len(), 0);

    let rng = Range::new(10, 5);
    assert_eq!(rng.len(), 0);
}

#[test]
fn test_exact_size_updates() {
    let mut range = Range::new(0, 5);
    assert_eq!(range.len(), 5);

    range.next();
    assert_eq!(range.len(), 4);

    range.next();
    range.next();
    assert_eq!(range.len(), 2);
}

#[test]
fn test_double_ended_next_back() {
    let mut range = Range::new(1, 5);

    assert_eq!(range.next_back(), Some(4));
    assert_eq!(range.next_back(), Some(3));
    assert_eq!(range.next_back(), Some(2));
    assert_eq!(range.next_back(), Some(1));
    assert_eq!(range.next_back(), None);
}

#[test]
fn test_double_ended_rev() {

    let range = Range::new(1, 5);
    let reversed: Vec<i32> = backward(range).collect();

    assert_eq!(reversed, vec![4, 3, 2, 1]);
}

#[test]
fn test_double_ended_mixed() {
    let mut range = Range::new(1, 6);

    assert_eq!(range.next(), Some(1));
    assert_eq!(range.next_back(), Some(5));
    assert_eq!(range.next(), Some(2));
    assert_eq!(range.next_back(), Some(4));
    assert_eq!(range.next(), Some(3));
    assert_eq!(range.next(), None);
    assert_eq!(range.next_back(), None);
}

#[test]
fn test_extend_basic() {
    let mut list = List::new();
    list.push(1);
    list.push(2);

    list.extend(vec![3, 4, 5]);

    let values: Vec<&i32> = list.iter().collect();
    assert_eq!(values, vec![&1, &2, &3, &4, &5]);
}

#[test]
fn test_extend_from_range() {
    let mut list: List<i32> = List::new();

    list.extend(forward(Range::new(1, 4)).collect());

    let values: Vec<&i32> = list.iter().collect();
    assert_eq!(values, vec![&1, &2, &3]);
}

#[test]
fn test_extend_multiple_times() {
    let mut list = List::new();

    list.extend(vec![1, 2]);
    list.extend(vec![3, 4]);
    list.extend(std::iter::once(5).collect());

    assert_eq!(list.len(), 5);
}

#[test]
fn test_from_iterator_uses_extend() {

    let list: List<i32> = List::from_vec(forward(Range::new(0, 5)).collect());

    let values: Vec<&i32> = list.iter().collect();
    assert_eq!(values, vec![&0, &1, &2, &3, &4]);
}

#[test]
fn stack_pops_in_reverse_order() {
    let mut stack = Stack::new();
    assert!(stack.is_empty());
    assert_eq!(stack.pop(), None::<u8>);
    stack.push(1u8);
    stack.push(2u8);
    assert_eq!(stack.pop(), Some(2));
    assert_eq!(stack.pop(), Some(1));
    assert_eq!(stack.pop(), None);
    assert!(Stack::<u8>::default().is_empty());
}

#[test]
fn range_size_hint_counts_what_is_left() {
    let mut range = Range::new(-2, 3);
    assert_eq!(range.size_hint(), (5, Some(5)));
    range.next_back();
    assert_eq!(range.size_hint(), (4, Some(4)));
    assert_eq!(Range::new(3, -2).size_hint(), (0, Some(0)));
    assert_eq!(Range::new(i32::MIN, i32::MAX).len(), 4294967295);
}

#[test]
fn list_starts_empty() {
    let list: List<u8> = List::default();
    assert!(list.is_empty());
    assert_eq!(list.len(), 0);
}

#[test]
fn stack_walks_bottom_first_owned_and_borrowed() {
    let stack = Stack::from_vec(vec![1u8, 2, 3]);
    let seen: Vec<&u8> = (&stack).into_iter().collect();
    assert_eq!(seen, vec![&1, &2, &3]);
    let owned: Vec<u8> = stack.into_iter().collect();
    assert_eq!(owned, vec![1, 2, 3]);
}
