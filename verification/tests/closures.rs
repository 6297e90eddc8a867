use anystore::closures::apply_fn;
use anystore::closures::call_fn;
use anystore::closures::call_fn_mut;
use anystore::closures::call_fn_once;
use anystore::closures::call_n_times;
use anystore::closures::into_getter;
use anystore::closures::is_positive;
use anystore::closures::make_accumulator;
use anystore::closures::make_counter;
use anystore::closures::run_once;
use anystore::closures::spawn_task;
use anystore::closures::Filter;
use anystore::closures::Lazy;
use std::cell::Cell;


#[test]
fn test_fn_closure() {
    let x = 10;

    let read_only = || x * 2;

    assert_eq!(call_fn(read_only), 40);

    let read_only = || x * 2;
    assert_eq!(call_fn_mut(read_only), 40);

    let read_only = || x * 2;
    assert_eq!(call_fn_once(read_only), 20);
}

#[test]
fn test_fn_mut_closure() {
    let mut counter = 0;

    let mut increment = || {
        counter += 1;
        counter
    };

    assert_eq!(call_fn_mut(&mut increment), 3);

}

#[test]
fn test_fn_once_closure() {
    let s = String::from("hello");

    let consume = || {
        let owned = s;
        owned.len() as i32
    };

    assert_eq!(call_fn_once(consume), 5);

}

#[test]
fn test_move_keyword() {
    let x = 10;

    let moved = move || x * 2;

    assert_eq!(call_fn(moved), 40);

    assert_eq!(x, 10);
}

#[test]
fn test_move_with_non_copy() {
    let s = String::from("world");

    let moved = move || s.len() as i32;

    assert_eq!(call_fn(moved), 10);

}

#[test]
fn test_filter_struct() {
    let is_even = Filter::new(|x| x % 2 == 0);

    assert!(is_even.test(4));
    assert!(!is_even.test(5));

    let evens = is_even.filter_vec(vec![1, 2, 3, 4, 5, 6]);
    assert_eq!(evens, vec![2, 4, 6]);
}

#[test]
fn test_filter_with_captured_value() {
    let threshold = 5;
    let above_threshold = Filter::new(move |x| x > threshold);

    assert!(!above_threshold.test(3));
    assert!(above_threshold.test(7));
}


#[test]
fn test_function_pointer() {

    let f: fn(i32) -> bool = is_positive;

    assert!(f(5));
    assert!(!f(-3));

    assert!(apply_fn(is_positive, 10));
}

#[test]
fn test_function_as_fn_trait() {

    assert!(apply_fn(is_positive, 5));

    assert!(apply_fn(|x| x < 0, -5));
}

#[test]
fn test_fn_ptr_vs_closure() {

    let fn_ptr: fn(i32) -> bool = is_positive;

    let closure_no_capture: fn(i32) -> bool = |x| x > 0;

    assert!(fn_ptr(1));
    assert!(closure_no_capture(1));

    let threshold = 5;
    let closure_captures = |x| x > threshold;

    assert!(apply_fn(closure_captures, 10));

}


#[test]
fn test_call_n_times() {
    let mut counter = 0;
    let increment = || {
        counter += 1;
        counter
    };

    let result = call_n_times(increment, 5);
    assert_eq!(result, 5);
}

#[test]
fn test_make_counter() {
    let mut counter = make_counter(0);

    assert_eq!(counter.call(), 1);
    assert_eq!(counter.call(), 2);
    assert_eq!(counter.call(), 3);
}

#[test]
fn test_multiple_counters() {

    let mut counter_a = make_counter(0);
    let mut counter_b = make_counter(100);

    assert_eq!(counter_a.call(), 1);
    assert_eq!(counter_b.call(), 101);
    assert_eq!(counter_a.call(), 2);
    assert_eq!(counter_b.call(), 102);
}

#[test]
fn test_accumulator() {
    let mut acc = make_accumulator();

    assert_eq!(acc.call(10), 10);
    assert_eq!(acc.call(5), 15);
    assert_eq!(acc.call(25), 40);
}

#[test]
fn test_run_once() {
    let s = String::from("hello");

    let consume = || {
        let owned = s;
        owned.to_uppercase()
    };

    let result = run_once(consume);
    assert_eq!(result, "HELLO");
}

#[test]
fn test_into_getter() {
    let data = vec![1, 2, 3];
    let getter = into_getter(data);

    let retrieved = getter.call();
    assert_eq!(retrieved, vec![1, 2, 3]);

}

#[test]
fn test_lazy_initialization() {
    
    let call_count = Cell::new(0);

    let mut lazy = Lazy::new(|| {
        call_count.set(call_count.get() + 1);
        "expensive computation".to_string()
    });

    assert_eq!(call_count.get(), 0);

    assert_eq!(lazy.get(), "expensive computation");
    assert_eq!(call_count.get(), 1);

    assert_eq!(lazy.get(), "expensive computation");
    assert_eq!(call_count.get(), 1);
}

#[test]
fn test_spawn_task_with_owned_data() {
    let name = String::from("Alice");

    let task = move || format!("Hello, {}!", name);

    let result = spawn_task(task);
    assert_eq!(result, "Hello, Alice!");

}

#[test]
fn call_n_times_with_no_calls_gives_zero() {
    assert_eq!(call_n_times(|| 9, 0), 0);
    assert_eq!(call_n_times(|| 9, 1), 9);
}

#[test]
fn filter_vec_keeps_order_and_duplicates() {
    let small = Filter::new(|x| x < 3);
    assert_eq!(small.filter_vec(vec![5, 2, 2, 9, -1]), vec![2, 2, -1]);
    assert_eq!(small.filter_vec(vec![]), Vec::<i32>::new());
}
