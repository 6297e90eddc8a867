//! A bag of items and exact amounts of money.

use vstd::prelude::*;
use vstd::std_specs::ops::AddSpecImpl;
use vstd::std_specs::ops::MulSpecImpl;

verus! {

/// An unordered-by-intent collection that keeps its items in the order in
/// which they came.
#[derive(Debug, Clone)]
pub struct Bag<T> {
    items: Vec<T>,
}

impl<T> Bag<T> {
    pub closed spec fn view(&self) -> Seq<T> {
        self.items@
    }

    pub fn new() -> (r: Bag<T>)
        ensures
            r@ == Seq::<T>::empty(),
    {
        Bag { items: Vec::new() }
    }

    pub fn push(&mut self, item: T)
        ensures
            final(self)@ == old(self)@.push(item),
    {
        self.items.push(item);
    }

    pub fn len(&self) -> (r: usize)
        ensures
            r == self@.len(),
    {
        self.items.len()
    }

    pub fn is_empty(&self) -> (r: bool)
        ensures
            r == (self@.len() == 0),
    {
        self.items.len() == 0
    }

    /// A walk over the items, oldest first.
    pub fn iter(&self) -> (r: std::slice::Iter<'_, T>)
        ensures
            vstd::std_specs::slice::into_iter_elts(r) == self@,
    {
        broadcast use vstd::std_specs::slice::group_slice_axioms;

        self.items.as_slice().iter()
    }

    /// Adds the given items in their order.
    pub fn extend(&mut self, more: Vec<T>)
        ensures
            final(self)@ == old(self)@ + more@,
    {
        let mut more = more;
        self.items.append(&mut more);
    }

    /// A bag of the given items.
    pub fn from_vec(items: Vec<T>) -> (r: Bag<T>)
        ensures
            r@ == items@,
    {
        let mut bag = Bag::new();
        bag.extend(items);
        assert(Seq::<T>::empty() + items@ =~= items@);
        bag
    }
}

impl<T> Default for Bag<T> {
    fn default() -> (r: Bag<T>)
        ensures
            r@ == Seq::<T>::empty(),
    {
        Bag::new()
    }
}

/// An amount of money in whole cents.
#[derive(Debug, Clone, Copy, PartialEq, Eq, Structural)]
pub struct Money {
    pub cents: i64,
}

/// The cents of the first `n` amounts of `s`, added up.
pub open spec fn total(s: Seq<Money>, n: nat) -> int
    decreases n,
{
    if n == 0 || n > s.len() {
        0
    } else {
        total(s, (n - 1) as nat) + s[n - 1].cents
    }
}

/// Every running total of `s` fits in 64 bits.
pub open spec fn totals_fit(s: Seq<Money>) -> bool {
    forall|n: nat| n <= s.len() ==> i64::MIN <= #[trigger] total(s, n) <= i64::MAX
}

impl Money {
    pub fn new(cents: i64) -> (r: Money)
        ensures
            r.cents == cents,
    {
        Money { cents }
    }

    /// An amount of whole dollars; its cents must fit in 64 bits.
    pub fn from_dollars(dollars: i64) -> (r: Money)
        requires
            i64::MIN <= dollars * 100 <= i64::MAX,
        ensures
            r.cents == dollars * 100,
    {
        Money { cents: dollars * 100 }
    }

    pub fn cents(&self) -> (r: i64)
        ensures
            r == self.cents,
    {
        self.cents
    }

    /// No money: the neutral amount of addition.
    pub fn zero() -> (r: Money)
        ensures
            r.cents == 0,
    {
        Money { cents: 0 }
    }

    /// One dollar.
    pub fn one() -> (r: Money)
        ensures
            r.cents == 100,
    {
        Money { cents: 100 }
    }

    /// The sum of the given amounts, added from the left starting at
    /// zero.
    pub fn sum(items: &[Money]) -> (r: Money)
        requires
            totals_fit(items@),
        ensures
            r.cents == total(items@, items@.len()),
    {
        let mut acc = Money::zero();
        let mut i: usize = 0;
        while i < items.len()
            invariant
                i <= items@.len(),
                totals_fit(items@),
                acc.cents == total(items@, i as nat),
            decreases items@.len() - i,
        {
            assert(i64::MIN <= total(items@, (i + 1) as nat) <= i64::MAX);
            acc = Money { cents: acc.cents + items[i].cents };
            i += 1;
        }
        acc
    }
}

impl Default for Money {
    fn default() -> (r: Money)
        ensures
            r.cents == 0,
    {
        Money { cents: 0 }
    }
}

impl AddSpecImpl for Money {
    open spec fn obeys_add_spec() -> bool {
        true
    }

    open spec fn add_req(self, rhs: Money) -> bool {
        i64::MIN <= self.cents + rhs.cents <= i64::MAX
    }

    open spec fn add_spec(self, rhs: Money) -> Money {
        Money { cents: (self.cents + rhs.cents) as i64 }
    }
}

impl std::ops::Add for Money {
    type Output = Money;

    fn add(self, rhs: Money) -> (r: Money) {
        Money { cents: self.cents + rhs.cents }
    }
}

impl MulSpecImpl<i64> for Money {
    open spec fn obeys_mul_spec() -> bool {
        true
    }

    open spec fn mul_req(self, rhs: i64) -> bool {
        i64::MIN <= self.cents * rhs <= i64::MAX
    }

    open spec fn mul_spec(self, rhs: i64) -> Money {
        Money { cents: (self.cents * rhs) as i64 }
    }
}

impl std::ops::Mul<i64> for Money {
    type Output = Money;

    fn mul(self, rhs: i64) -> (r: Money) {
        Money { cents: self.cents * rhs }
    }
}

} // verus!
