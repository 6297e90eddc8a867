use anystore::collection::classify;
use anystore::collection::extract_i32;
use anystore::collection::extract_string;
use anystore::collection::AnyVec;
use anystore::collection::Kind;
use anystore::erased::ErasedCell;
use anystore::erased::TypeToken;
use anystore::registry::TypeMap;
use anystore::sized::Wrapper;
use std::fmt::Debug;
use std::mem;

#[test]
fn test_print_size_of_sized_types() {
    assert_eq!(mem::size_of::<i32>(), 4);
    assert_eq!(mem::size_of::<i64>(), 8);
    assert_eq!(mem::size_of::<[i32; 5]>(), 20);
}

#[test]
fn test_wrapper_with_string() {
    let w = Wrapper::new("greeting", String::from("hello"));
    assert_eq!(w.prefix(), "greeting");
    assert_eq!(w.as_str(), "hello");
}

#[test]
fn test_wrapper_with_str() {
    let boxed = Box::new(Wrapper::new("tag", String::from("world")));
    let w = &*boxed;
    assert_eq!(w.prefix(), "tag");
    assert_eq!(w.as_str(), "world");
}

#[test]
fn test_sized_vs_unsized_comparison() {
    let fixed: [i32; 3] = [1, 2, 3];
    let slice: &[i32] = &fixed;
    assert_eq!(mem::size_of_val(&fixed), 12);
    assert_eq!(mem::size_of_val(slice), 12);
    assert_eq!(mem::size_of::<&[i32]>(), 16);
}

#[test]
fn test_box_with_unsized() {
    let boxed_str: Box<str> = "hello".into();
    assert_eq!(&*boxed_str, "hello");
    assert_eq!(mem::size_of_val(&*boxed_str), 5);
    let boxed_slice: Box<[i32]> = vec![1, 2, 3].into_boxed_slice();
    assert_eq!(&*boxed_slice, &[1, 2, 3]);
    assert_eq!(mem::size_of_val(&*boxed_slice), 12);
}

fn describe<T: ?Sized + Debug>(val: &T) -> String {
    format!("{:?}", val)
}

#[test]
fn test_generic_function_flexibility() {
    let num = 42;
    assert_eq!(describe(&num), "42");
    let string = String::from("hello");
    assert_eq!(describe(&string), "\"hello\"");
    let str_slice: &str = "world";
    assert_eq!(describe(str_slice), "\"world\"");
    let int_slice: &[i32] = &[1, 2, 3];
    assert_eq!(describe(int_slice), "[1, 2, 3]");
}

#[test]
fn test_type_ids() {
    assert!(TypeToken::of::<i32>().same(&TypeToken::of::<i32>()));
    assert!(TypeToken::of::<String>().same(&TypeToken::of::<String>()));
    assert!(!TypeToken::of::<i32>().same(&TypeToken::of::<i64>()));
    assert!(!TypeToken::of::<String>().same(&TypeToken::of::<&str>()));
}

#[test]
fn test_is_type_check() {
    let int_val = ErasedCell::wrap(42i32);
    let str_val = ErasedCell::wrap(String::from("hello"));
    let float_val = ErasedCell::wrap(3.1f64);
    assert!(int_val.read_as::<i32>().is_some());
    assert!(int_val.read_as::<i64>().is_none());
    assert!(int_val.read_as::<String>().is_none());
    assert!(str_val.read_as::<String>().is_some());
    assert!(str_val.read_as::<&str>().is_none());
    assert!(float_val.read_as::<f64>().is_some());
    assert!(float_val.read_as::<f32>().is_none());
}

#[test]
fn test_downcast_ref() {
    let val = ErasedCell::wrap(42i32);
    let result = val.read_as::<i32>();
    assert!(result.is_some());
    assert_eq!(*result.unwrap(), 42);
    let result = val.read_as::<String>();
    assert!(result.is_none());
}

#[test]
fn test_extract_functions() {
    let int_any = ErasedCell::wrap(100i32);
    let str_any = ErasedCell::wrap(String::from("hello"));
    assert_eq!(extract_i32(&int_any), Some(100));
    assert_eq!(extract_i32(&str_any), None);
    assert_eq!(extract_string(&str_any), Some(String::from("hello")));
    assert_eq!(extract_string(&int_any), None);
}

#[test]
fn test_any_vec_basic() {
    let mut vec = AnyVec::new();
    vec.push(42i32);
    vec.push(String::from("hello"));
    vec.push(3.1f64);
    vec.push(true);
    assert_eq!(vec.len(), 4);
    assert_eq!(vec.get::<i32>(0), Some(&42));
    assert_eq!(vec.get::<String>(1), Some(&String::from("hello")));
    assert_eq!(vec.get::<f64>(2), Some(&3.1));
    assert_eq!(vec.get::<bool>(3), Some(&true));
    assert_eq!(vec.get::<String>(0), None);
    assert_eq!(vec.get::<i32>(1), None);
}

#[test]
fn test_any_vec_mutation() {
    let mut vec = AnyVec::new();
    vec.push(10i32);
    vec.push(String::from("original"));
    if let Some(val) = vec.get_mut::<i32>(0) {
        *val = 99;
    }
    assert_eq!(vec.get::<i32>(0), Some(&99));
    if let Some(s) = vec.get_mut::<String>(1) {
        s.push_str(" modified");
    }
    assert_eq!(vec.get::<String>(1), Some(&String::from("original modified")));
}

#[test]
fn test_any_vec_iter_as() {
    let mut vec = AnyVec::new();
    vec.push(1i32);
    vec.push(String::from("a"));
    vec.push(2i32);
    vec.push(String::from("b"));
    vec.push(3i32);
    let ints: Vec<&i32> = vec.iter_as::<i32>().into_iter().collect();
    assert_eq!(ints, vec![&1, &2, &3]);
    let strings: Vec<&String> = vec.iter_as::<String>().into_iter().collect();
    assert_eq!(strings.len(), 2);
    assert_eq!(strings[0], "a");
    assert_eq!(strings[1], "b");
}

#[test]
fn test_type_map_basic() {
    let mut map = TypeMap::new();
    map.insert(42i32);
    map.insert(String::from("hello"));
    map.insert(3.1f64);
    assert_eq!(map.len(), 3);
    assert_eq!(map.get::<i32>(), Some(&42));
    assert_eq!(map.get::<String>(), Some(&String::from("hello")));
    assert_eq!(map.get::<f64>(), Some(&3.1));
    assert_eq!(map.get::<bool>(), None);
}

#[test]
fn test_type_map_replace() {
    let mut map = TypeMap::new();
    let old = map.insert(10i32);
    assert_eq!(old, None);
    let old = map.insert(20i32);
    assert_eq!(old, Some(10));
    assert_eq!(map.get::<i32>(), Some(&20));
    assert_eq!(map.len(), 1);
}

#[test]
fn test_type_map_remove() {
    let mut map = TypeMap::new();
    map.insert(42i32);
    map.insert(String::from("test"));
    assert_eq!(map.len(), 2);
    let removed = map.remove::<i32>();
    assert_eq!(removed, Some(42));
    assert_eq!(map.len(), 1);
    assert_eq!(map.get::<i32>(), None);
    assert_eq!(map.get::<String>(), Some(&String::from("test")));
}

#[test]
fn test_type_map_mutation() {
    let mut map = TypeMap::new();
    map.insert(vec![1, 2, 3]);
    if let Some(v) = map.get_mut::<Vec<i32>>() {
        v.push(4);
        v.push(5);
    }
    assert_eq!(map.get::<Vec<i32>>(), Some(&vec![1, 2, 3, 4, 5]));
}

#[test]
fn test_box_downcast() {
    let boxed = ErasedCell::wrap(String::from("owned"));
    let result = boxed.take_as::<String>();
    assert!(result.is_ok());
    let unboxed: String = result.ok().unwrap();
    assert_eq!(unboxed, "owned");
    let boxed = ErasedCell::wrap(42i32);
    let result = boxed.take_as::<String>();
    assert!(result.is_err());
    let recovered: ErasedCell = result.err().unwrap();
    assert!(recovered.read_as::<i32>().is_some());
    assert_eq!(recovered.take_as::<i32>().ok(), Some(42));
}

#[test]
fn test_any_static_requirement() {
    let owned = String::from("hello");
    let cell = ErasedCell::wrap(owned);
    assert!(cell.read_as::<String>().is_some());
    let static_str: &'static str = "world";
    let cell = ErasedCell::wrap(static_str);
    assert!(cell.read_as::<&str>().is_some());
}

#[test]
fn token_is_stable_and_tells_types_apart() {
    let a = TypeToken::of::<Vec<i32>>();
    let b = TypeToken::of::<Vec<i32>>();
    let c = TypeToken::of::<Vec<u8>>();
    assert!(a.same(&b));
    assert!(!a.same(&c));
    assert!(ErasedCell::wrap(vec![1u8]).type_token().same(&c));
    assert_eq!(TypeToken::of::<Option<i32>>(), TypeToken::of::<Option<i32>>());
    assert_ne!(TypeToken::of::<Option<i32>>(), TypeToken::of::<Option<u32>>());
    assert_ne!(TypeToken::of::<i32>(), TypeToken::of::<&i32>());
}

#[test]
fn wrap_then_take_gives_the_value_back() {
    assert_eq!(ErasedCell::wrap(7u64).take_as::<u64>().ok(), Some(7));
    let text = String::from("round trip");
    assert_eq!(ErasedCell::wrap(text.clone()).take_as::<String>().ok(), Some(text));
    assert_eq!(ErasedCell::wrap((1u8, 'x')).take_as::<(u8, char)>().ok(), Some((1u8, 'x')));
}

#[test]
fn mismatched_read_and_take_report_absence() {
    let mut cell = ErasedCell::wrap(5i32);
    assert!(cell.read_as::<u32>().is_none());
    assert!(cell.read_mut_as::<i64>().is_none());
    let back = cell.take_as::<u32>().err().unwrap();
    assert_eq!(back.read_as::<i32>(), Some(&5));
}

#[test]
fn read_mut_writes_through() {
    let mut cell = ErasedCell::wrap(String::from("a"));
    cell.read_mut_as::<String>().unwrap().push('b');
    assert_eq!(cell.read_as::<String>().map(|s| s.as_str()), Some("ab"));
    assert!(cell.type_token().same(&TypeToken::of::<String>()));
}

#[test]
fn collection_filters_by_type_in_order() {
    let mut items = AnyVec::new();
    items.push(1i32);
    items.push(String::from("x"));
    items.push(2i32);
    assert_eq!(items.iter_as::<i32>(), vec![&1, &2]);
    assert_eq!(items.iter_as::<String>(), vec![&String::from("x")]);
    assert!(items.iter_as::<u8>().is_empty());
    assert_eq!(items.iter_as::<i32>(), vec![&1, &2]);
}

#[test]
fn collection_get_out_of_range_is_absent() {
    let mut items = AnyVec::new();
    items.push(1i32);
    assert_eq!(items.get::<i32>(1), None);
    assert!(items.get_mut::<i32>(7).is_none());
    assert_eq!(items.get::<i32>(0), Some(&1));
}

#[test]
fn registry_remove_then_insert_again() {
    let mut registry = TypeMap::new();
    registry.insert(5i32);
    assert_eq!(registry.remove::<i32>(), Some(5));
    assert_eq!(registry.get::<i32>(), None);
    assert_eq!(registry.insert(6i32), None);
    assert_eq!(registry.get::<i32>(), Some(&6));
    assert!(registry.contains::<i32>());
    assert!(!registry.contains::<i64>());
}

#[test]
fn empty_collection_and_registry() {
    let items = AnyVec::new();
    assert_eq!(items.len(), 0);
    assert!(items.is_empty());
    assert_eq!(items.get::<i32>(0), None);
    assert!(AnyVec::default().is_empty());
    let mut registry = TypeMap::new();
    assert_eq!(registry.len(), 0);
    assert!(registry.is_empty());
    assert_eq!(registry.get::<String>(), None);
    assert_eq!(registry.remove::<String>(), None);
    assert!(registry.get_mut::<u8>().is_none());
    assert!(TypeMap::default().is_empty());
}

#[test]
fn registry_keeps_other_types_on_replace_and_remove() {
    let mut registry = TypeMap::new();
    registry.insert(1u8);
    registry.insert(String::from("s"));
    registry.insert(2u16);
    assert_eq!(registry.insert(9u8), Some(1));
    assert_eq!(registry.len(), 3);
    assert_eq!(registry.remove::<String>(), Some(String::from("s")));
    assert_eq!(registry.get::<u8>(), Some(&9));
    assert_eq!(registry.get::<u16>(), Some(&2));
    assert_eq!(registry.len(), 2);
}

#[test]
fn test_check_type_function() {
    assert_eq!(classify(&ErasedCell::wrap(42i32)), Kind::Integer);
    assert_eq!(classify(&ErasedCell::wrap(String::from("test"))), Kind::Text);
    assert_eq!(classify(&ErasedCell::wrap(3.1f64)), Kind::Other);
    assert_eq!(classify(&ErasedCell::wrap(vec![1, 2, 3])), Kind::Other);
}
