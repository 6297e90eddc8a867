//! A labelled wrapper whose payload may be unsized.

use vstd::prelude::*;

verus! {

/// Some data under a fixed label.
pub struct Wrapper<T: ?Sized> {
    pub prefix: &'static str,
    pub data: T,
}

impl<T> Wrapper<T> {
    pub fn new(prefix: &'static str, data: T) -> (r: Wrapper<T>)
        ensures
            r.prefix@ == prefix@,
            r.data == data,
    {
        Wrapper { prefix, data }
    }
}

impl<T: ?Sized> Wrapper<T> {
    pub fn prefix(&self) -> (r: &str)
        ensures
            r@ == self.prefix@,
    {
        self.prefix
    }
}

impl Wrapper<String> {
    pub fn as_str(&self) -> (r: &str)
        ensures
            r@ == self.data@,
    {
        self.data.as_str()
    }
}

impl Wrapper<str> {
    pub fn as_str(&self) -> (r: &str)
        ensures
            r@ == self.data@,
    {
        &self.data
    }
}

/// Compiles only for a type whose size is known at compile time.
fn _assert_sized<T: Sized>() {
}

/// What the compiler is held to about sizes: owned values, fixed arrays,
/// references and boxes all have a known size.
#[allow(dead_code)]
fn _static_checks() {
    _assert_sized::<i32>();
    _assert_sized::<String>();
    _assert_sized::<Vec<u8>>();
    _assert_sized::<[i32; 5]>();
    _assert_sized::<&str>();
    _assert_sized::<Box<str>>();
}

} // verus!
