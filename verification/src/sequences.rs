//! Small sequence producers and containers: a bounded counter, the
//! Fibonacci numbers, an endless cycle over a list, a half-open integer
//! range that can be consumed from both ends, a stack and a list.

use vstd::prelude::*;

verus! {

/// Counts 1, 2, ..., `maximum`, then stops.
pub struct Counter {
    current: u32,
    maximum: u32,
}

impl Counter {
    /// How many numbers were handed out.
    pub closed spec fn current(&self) -> int {
        self.current as int
    }

    pub closed spec fn maximum(&self) -> int {
        self.maximum as int
    }

    /// The count never passes the maximum.
    #[verifier::type_invariant]
    pub closed spec fn wf(&self) -> bool {
        self.current <= self.maximum
    }

    pub fn new(maximum: u32) -> (r: Counter)
        ensures
            r.current() == 0,
            r.maximum() == maximum,
    {
        Counter { current: 0, maximum }
    }

    /// The next number, or nothing once `maximum` was reached.
    pub fn next(&mut self) -> (r: Option<u32>)
        ensures
            final(self).maximum() == old(self).maximum(),
            old(self).current() < old(self).maximum() ==> r == Some((old(self).current() + 1) as u32)
                && final(self).current() == old(self).current() + 1,
            old(self).current() >= old(self).maximum() ==> r is None && final(self).current()
                == old(self).current(),
    {
        if self.current < self.maximum {
            self.current += 1;
            Some(self.current)
        } else {
            None
        }
    }
}

/// The Fibonacci numbers: 0, 1, 1, 2, 3, 5, ...
pub open spec fn fib(n: nat) -> nat
    decreases n,
{
    if n == 0 {
        0
    } else if n == 1 {
        1
    } else {
        fib((n - 1) as nat) + fib((n - 2) as nat)
    }
}

/// Hands out the Fibonacci numbers one after another.
pub struct Fibonacci {
    current: u64,
    next: u64,
    position: Ghost<nat>,
}

impl Fibonacci {
    /// How many numbers were handed out.
    pub closed spec fn position(&self) -> nat {
        self.position@
    }

    /// The two numbers held are the next two Fibonacci numbers.
    #[verifier::type_invariant]
    pub closed spec fn wf(&self) -> bool {
        &&& self.current == fib(self.position@)
        &&& self.next == fib(self.position@ + 1)
    }

    pub fn new() -> (r: Fibonacci)
        ensures
            r.position() == 0,
    {
        Fibonacci { current: 0, next: 1, position: Ghost(0) }
    }

    /// The next Fibonacci number. The one after it must still fit in 64
    /// bits.
    pub fn next(&mut self) -> (r: Option<u64>)
        requires
            fib(old(self).position() + 2) <= u64::MAX,
        ensures
            final(self).position() == old(self).position() + 1,
            r == Some(fib(old(self).position()) as u64),
    {
        proof {
            use_type_invariant(&*self);
        }
        let item = self.current;
        let following = self.next + item;
        *self = Fibonacci {
            current: self.next,
            next: following,
            position: Ghost((self.position@ + 1) as nat),
        };
        Some(item)
    }
}

impl Default for Fibonacci {
    fn default() -> (r: Fibonacci)
        ensures
            r.position() == 0,
    {
        Fibonacci::new()
    }
}

/// A list that can be walked round and round.
pub struct Cycle<T> {
    items: Vec<T>,
}

impl<T> Cycle<T> {
    pub closed spec fn view(&self) -> Seq<T> {
        self.items@
    }

    pub fn new(items: Vec<T>) -> (r: Cycle<T>)
        ensures
            r@ == items@,
    {
        Cycle { items }
    }

    /// A walk that starts at the first item.
    pub fn iter(&self) -> (r: CycleIter<'_, T>)
        ensures
            r.items() == self@,
            r.index() == 0,
    {
        CycleIter { cycle: self, index: 0 }
    }
}

/// A walk round a [`Cycle`].
pub struct CycleIter<'a, T> {
    cycle: &'a Cycle<T>,
    index: usize,
}

impl<'a, T> CycleIter<'a, T> {
    pub closed spec fn items(&self) -> Seq<T> {
        self.cycle.items@
    }

    /// The position of the item that comes next.
    pub closed spec fn index(&self) -> int {
        self.index as int
    }

    /// The position lies inside the list, if the list has items.
    #[verifier::type_invariant]
    pub closed spec fn wf(&self) -> bool {
        self.cycle.items@.len() == 0 || 0 <= self.index < self.cycle.items@.len()
    }

    /// The item at the current position, then one step on, back to the
    /// start after the last item. Nothing if the list is empty.
    pub fn next(&mut self) -> (r: Option<&'a T>)
        ensures
            final(self).items() == old(self).items(),
            old(self).items().len() == 0 ==> r is None && final(self).index() == old(self).index(),
            old(self).items().len() > 0 ==> r is Some && *r.unwrap() == old(self).items()[old(self).index()] && final(self).index() == (if old(self).index() + 1 == old(self).items().len() {
                0
            } else {
                old(self).index() + 1
            }),
    {
        proof {
            use_type_invariant(&*self);
        }
        let n = self.cycle.items.len();
        if n == 0 {
            return None;
        }
        let item = &self.cycle.items[self.index];
        if self.index + 1 == n {
            self.index = 0;
        } else {
            self.index = self.index + 1;
        }
        Some(item)
    }
}

/// A last-in first-out stack.
#[derive(Debug, Clone)]
pub struct Stack<T> {
    items: Vec<T>,
}

impl<T> Stack<T> {
    /// The items, bottom first.
    pub closed spec fn view(&self) -> Seq<T> {
        self.items@
    }

    pub fn new() -> (r: Stack<T>)
        ensures
            r@ == Seq::<T>::empty(),
    {
        Stack { items: Vec::new() }
    }

    pub fn push(&mut self, item: T)
        ensures
            final(self)@ == old(self)@.push(item),
    {
        self.items.push(item);
    }

    pub fn pop(&mut self) -> (r: Option<T>)
        ensures
            old(self)@.len() == 0 ==> r is None && final(self)@ == old(self)@,
            old(self)@.len() > 0 ==> r == Some(old(self)@.last()) && final(self)@ == old(self)@.drop_last(),
    {
        self.items.pop()
    }

    pub fn is_empty(&self) -> (r: bool)
        ensures
            r == (self@.len() == 0),
    {
        self.items.len() == 0
    }

    pub fn len(&self) -> (r: usize)
        ensures
            r == self@.len(),
    {
        self.items.len()
    }

    /// A walk over the items, bottom first.
    pub fn iter(&self) -> (r: std::slice::Iter<'_, T>)
        ensures
            vstd::std_specs::slice::into_iter_elts(r) == self@,
    {
        broadcast use vstd::std_specs::slice::group_slice_axioms;

        self.items.as_slice().iter()
    }

    /// The items as a slice that can be written through; the number of
    /// items stays.
    pub fn iter_mut(&mut self) -> (r: &mut [T])
        ensures
            r@ == old(self)@,
            final(self)@ == final(r)@,
    {
        self.items.as_mut_slice()
    }

    /// A stack of the given items, the last on top.
    pub fn from_vec(items: Vec<T>) -> (r: Stack<T>)
        ensures
            r@ == items@,
    {
        Stack { items }
    }

    /// The items, bottom first.
    pub fn into_vec(self) -> (r: Vec<T>)
        ensures
            r@ == self@,
    {
        self.items
    }
}

impl<T> Default for Stack<T> {
    fn default() -> (r: Stack<T>)
        ensures
            r@ == Seq::<T>::empty(),
    {
        Stack::new()
    }
}

/// The integers from `start` up to, not including, `end`.
pub struct Range {
    start: i32,
    end: i32,
}

impl Range {
    pub closed spec fn start(&self) -> int {
        self.start as int
    }

    pub closed spec fn end(&self) -> int {
        self.end as int
    }

    /// How many integers are left.
    pub open spec fn remaining(&self) -> int {
        if self.start() < self.end() {
            self.end() - self.start()
        } else {
            0
        }
    }

    pub fn new(start: i32, end: i32) -> (r: Range)
        ensures
            r.start() == start,
            r.end() == end,
    {
        Range { start, end }
    }

    /// Takes the smallest integer left.
    pub fn next(&mut self) -> (r: Option<i32>)
        ensures
            old(self).remaining() > 0 ==> r == Some(old(self).start() as i32) && final(self).start()
                == old(self).start() + 1,
            old(self).remaining() == 0 ==> r is None && final(self).start() == old(self).start(),
            final(self).end() == old(self).end(),
    {
        if self.start < self.end {
            let value = self.start;
            self.start += 1;
            Some(value)
        } else {
            None
        }
    }

    /// Takes the largest integer left.
    pub fn next_back(&mut self) -> (r: Option<i32>)
        ensures
            old(self).remaining() > 0 ==> r == Some((old(self).end() - 1) as i32) && final(self).end() == old(self).end() - 1,
            old(self).remaining() == 0 ==> r is None && final(self).end() == old(self).end(),
            final(self).start() == old(self).start(),
    {
        if self.start < self.end {
            self.end -= 1;
            Some(self.end)
        } else {
            None
        }
    }

    /// How many integers are left. The count must fit in a `usize`.
    pub fn len(&self) -> (r: usize)
        requires
            self.remaining() <= usize::MAX,
        ensures
            r == self.remaining(),
    {
        if self.start < self.end {
            let wide: i64 = self.end as i64 - self.start as i64;
            wide as usize
        } else {
            0
        }
    }

    /// The count of integers left, as a lower and an upper bound.
    pub fn size_hint(&self) -> (r: (usize, Option<usize>))
        requires
            self.remaining() <= usize::MAX,
        ensures
            r.0 == self.remaining(),
            r.1 == Some(r.0),
    {
        let len = self.len();
        (len, Some(len))
    }
}

/// A growable list.
#[derive(Debug, Clone)]
pub struct List<T> {
    items: Vec<T>,
}

impl<T> List<T> {
    pub closed spec fn view(&self) -> Seq<T> {
        self.items@
    }

    pub fn new() -> (r: List<T>)
        ensures
            r@ == Seq::<T>::empty(),
    {
        List { items: Vec::new() }
    }

    pub fn push(&mut self, item: T)
        ensures
            final(self)@ == old(self)@.push(item),
    {
        self.items.push(item);
    }

    pub fn len(&self) -> (r: usize)
        ensures
            r == self@.len(),
    {
        self.items.len()
    }

    pub fn is_empty(&self) -> (r: bool)
        ensures
            r == (self@.len() == 0),
    {
        self.items.len() == 0
    }

    /// A walk over the items, oldest first.
    pub fn iter(&self) -> (r: std::slice::Iter<'_, T>)
        ensures
            vstd::std_specs::slice::into_iter_elts(r) == self@,
    {
        broadcast use vstd::std_specs::slice::group_slice_axioms;

        self.items.as_slice().iter()
    }

    /// Appends the given items in their order.
    pub fn extend(&mut self, more: Vec<T>)
        ensures
            final(self)@ == old(self)@ + more@,
    {
        let mut more = more;
        self.items.append(&mut more);
    }

    /// A list of the given items.
    pub fn from_vec(items: Vec<T>) -> (r: List<T>)
        ensures
            r@ == items@,
    {
        let mut list = List::new();
        list.extend(items);
        assert(Seq::<T>::empty() + items@ =~= items@);
        list
    }
}

impl<T> Default for List<T> {
    fn default() -> (r: List<T>)
        ensures
            r@ == Seq::<T>::empty(),
    {
        List::new()
    }
}

impl<T> IntoIterator for Stack<T> {
    type Item = T;

    type IntoIter = std::vec::IntoIter<T>;

    /// A walk that hands the items out, bottom first.
    fn into_iter(self) -> (r: std::vec::IntoIter<T>)
        ensures
            vstd::std_specs::vec::into_iter_elts(r) == self@,
    {
        self.items.into_iter()
    }
}

impl<'a, T> IntoIterator for &'a Stack<T> {
    type Item = &'a T;

    type IntoIter = std::slice::Iter<'a, T>;

    /// A walk over the items, bottom first.
    fn into_iter(self) -> (r: std::slice::Iter<'a, T>)
        ensures
            vstd::std_specs::slice::into_iter_elts(r) == self@,
    {
        broadcast use vstd::std_specs::slice::group_slice_axioms;

        self.items.as_slice().iter()
    }
}

} // verus!
