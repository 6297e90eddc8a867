//! A box of one's own and a string that counts its changes.

use vstd::prelude::*;
use vstd::string::StringExecFns;

verus! {

/// A value on the heap.
pub struct MyBox<T> {
    value: Box<T>,
}

impl<T> MyBox<T> {
    pub closed spec fn view(&self) -> T {
        *self.value
    }

    pub fn new(value: T) -> (r: MyBox<T>)
        ensures
            r@ == value,
    {
        let value = Box::new(value);
        MyBox { value }
    }

    /// Exclusive access to the value.
    pub fn get_mut(&mut self) -> (r: &mut T)
        ensures
            *r == old(self)@,
            final(self)@ == *final(r),
    {
        &mut *self.value
    }
}

impl<T> std::ops::Deref for MyBox<T> {
    type Target = T;

    fn deref(&self) -> (r: &T)
        ensures
            *r == self@,
    {
        &self.value
    }
}

/// A string that counts how often it was changed.
pub struct MyString {
    inner: String,
    modification_count: usize,
}

impl MyString {
    pub open spec fn view(&self) -> Seq<char> {
        self.text()@
    }

    /// The string itself.
    pub closed spec fn text(&self) -> String {
        self.inner
    }

    pub closed spec fn spec_modifications(&self) -> int {
        self.modification_count as int
    }

    /// A string from anything that converts into one, not yet changed.
    pub fn new<S: Into<String>>(s: S) -> (r: MyString)
        ensures
            call_ensures(S::into, (s,), r.text()),
            r.spec_modifications() == 0,
    {
        let inner: String = s.into();
        let modification_count: usize = 0;
        MyString { inner, modification_count }
    }

    pub fn modifications(&self) -> (r: usize)
        ensures
            r == self.spec_modifications(),
    {
        self.modification_count
    }

    /// Appends `s` and counts one change. The count must not be at its
    /// maximum.
    pub fn push_str(&mut self, s: &str)
        requires
            old(self).spec_modifications() < usize::MAX,
        ensures
            final(self)@ == old(self)@ + s@,
            final(self).spec_modifications() == old(self).spec_modifications() + 1,
    {
        self.inner.append(s);
        self.modification_count += 1;
    }

    /// The text, borrowed.
    pub fn as_str(&self) -> (r: &str)
        ensures
            r@ == self@,
    {
        self.inner.as_str()
    }

    /// The text, borrowed for writing; handing it out counts as one
    /// change. The count must not be at its maximum.
    pub fn as_mut_string(&mut self) -> (r: &mut String)
        requires
            old(self).spec_modifications() < usize::MAX,
        ensures
            r@ == old(self)@,
            final(self)@ == final(r)@,
            final(self).spec_modifications() == old(self).spec_modifications() + 1,
    {
        self.modification_count += 1;
        &mut self.inner
    }
}

impl std::ops::Deref for MyString {
    type Target = str;

    fn deref(&self) -> (r: &str)
        ensures
            r@ == self@,
    {
        self.inner.as_str()
    }
}

} // verus!
