//! Data that may cross threads, and data shared within one.

use std::rc::Rc;
use vstd::prelude::*;

verus! {

/// Plain owned data: safe to send and to share.
#[derive(Debug, Clone)]
pub struct ThreadSafeData {
    pub id: i32,
    pub name: String,
    pub payload: Vec<u8>,
}

impl ThreadSafeData {
    pub fn new<N: Into<String>>(id: i32, name: N) -> (r: ThreadSafeData)
        ensures
            r.id == id,
            call_ensures(N::into, (name,), r.name),
            r.payload@ == Seq::<u8>::empty(),
    {
        let name = name.into();
        let payload = Vec::new();
        ThreadSafeData { id, name, payload }
    }
}

/// A counter for one thread.
#[derive(Debug)]
pub struct UnsyncCounter {
    value: i32,
}

impl UnsyncCounter {
    pub closed spec fn view(&self) -> int {
        self.value as int
    }

    pub fn new(initial: i32) -> (r: UnsyncCounter)
        ensures
            r@ == initial,
    {
        UnsyncCounter { value: initial }
    }

    /// Counts one up; the count must not be at its maximum.
    pub fn inc(&mut self)
        requires
            old(self)@ < i32::MAX,
        ensures
            final(self)@ == old(self)@ + 1,
    {
        self.value = self.value + 1;
    }

    pub fn get(&self) -> (r: i32)
        ensures
            r == self@,
    {
        self.value
    }
}

/// Calls `Rc::strong_count`. The count depends on how many handles
/// exist at the moment; there is always the one that was asked.
#[verifier::external_body]
fn strong_count<T>(data: &Rc<T>) -> (r: usize)
    ensures
        r >= 1,
{
    Rc::strong_count(data)
}

/// A value shared by handles within one thread.
#[derive(Debug, Clone)]
pub struct SharedLocal<T> {
    data: Rc<T>,
}

impl<T> SharedLocal<T> {
    pub closed spec fn view(&self) -> T {
        *self.data
    }

    pub fn new(value: T) -> (r: SharedLocal<T>)
        ensures
            r@ == value,
    {
        SharedLocal { data: Rc::new(value) }
    }

    pub fn get(&self) -> (r: &T)
        ensures
            *r == self@,
    {
        &self.data
    }

    /// How many handles share the value right now.
    pub fn ref_count(&self) -> (r: usize)
        ensures
            r >= 1,
    {
        strong_count(&self.data)
    }
}

/// A number that must stay on the thread that made it: the marker it
/// carries is neither `Send` nor `Sync`.
pub struct NotThreadSafe {
    pub data: i32,
    _marker: std::marker::PhantomData<Rc<()>>,
}

impl NotThreadSafe {
    pub closed spec fn view(&self) -> i32 {
        self.data
    }

    /// A number from anything that converts into one.
    pub fn new<N: Into<i32>>(data: N) -> (r: NotThreadSafe)
        ensures
            call_ensures(N::into, (data,), r@),
    {
        NotThreadSafe { data: data.into(), _marker: std::marker::PhantomData }
    }
}

/// Compiles only for a type that can be sent to another thread.
fn _assert_send<T: Send>() {
}

/// Compiles only for a type that can be shared between threads.
fn _assert_sync<T: Sync>() {
}

/// Compiles only for a type that can be sent and shared.
fn _assert_send_sync<T: Send + Sync>() {
}

/// What the compiler is held to about the types of this module.
#[allow(dead_code)]
fn _static_assertions() {
    _assert_send::<ThreadSafeData>();
    _assert_sync::<ThreadSafeData>();
    _assert_send_sync::<ThreadSafeData>();
    _assert_send::<UnsyncCounter>();
}

} // verus!
