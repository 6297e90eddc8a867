//! An ordered collection of type-erased cells.

use crate::erased::ErasedCell;
use vstd::prelude::*;

verus! {

/// The payloads of the first `n` cells of `s` that were made for `T`, in
/// order.
pub open spec fn typed_prefix<T: 'static>(s: Seq<ErasedCell>, n: nat) -> Seq<T>
    decreases n,
{
    if n == 0 || n > s.len() {
        Seq::empty()
    } else {
        let rest = typed_prefix::<T>(s, (n - 1) as nat);
        match s[n - 1].content::<T>() {
            Some(v) => rest.push(v),
            None => rest,
        }
    }
}

/// Appending a cell made for `T` appends its payload to the payloads of
/// type `T`; appending any other cell leaves them as they were.
pub proof fn typed_after_push<T: 'static>(s: Seq<ErasedCell>, cell: ErasedCell)
    ensures
        typed_prefix::<T>(s.push(cell), s.len() + 1) == match cell.content::<T>() {
            Some(v) => typed_prefix::<T>(s, s.len()).push(v),
            None => typed_prefix::<T>(s, s.len()),
        },
{
    typed_prefix_is_local::<T>(s, s.push(cell), s.len());
    assert(s.push(cell)[s.len() as int] == cell);
}

/// The payloads among the first `n` cells depend on those cells only.
pub proof fn typed_prefix_is_local<T: 'static>(a: Seq<ErasedCell>, b: Seq<ErasedCell>, n: nat)
    requires
        n <= a.len(),
        n <= b.len(),
        forall|i: int| 0 <= i < n ==> a[i] == b[i],
    ensures
        typed_prefix::<T>(a, n) == typed_prefix::<T>(b, n),
    decreases n,
{
    if n > 0 {
        typed_prefix_is_local::<T>(a, b, (n - 1) as nat);
    }
}

/// What kind of value a cell holds, as far as this module tells kinds
/// apart.
#[derive(Debug, Clone, Copy, PartialEq, Eq, Structural)]
pub enum Kind {
    /// An `i32`.
    Integer,
    /// A `String`.
    Text,
    /// Anything else.
    Other,
}

/// The kind of the value in `value`: asked for `i32` first, then for
/// `String`.
pub fn classify(value: &ErasedCell) -> (r: Kind)
    ensures
        r == (if value.is_a::<i32>() {
            Kind::Integer
        } else if value.is_a::<String>() {
            Kind::Text
        } else {
            Kind::Other
        }),
{
    if value.read_as::<i32>().is_some() {
        Kind::Integer
    } else if value.read_as::<String>().is_some() {
        Kind::Text
    } else {
        Kind::Other
    }
}

/// The `i32` inside `value`, if that is what it holds.
pub fn extract_i32(value: &ErasedCell) -> (r: Option<i32>)
    ensures
        r == value.content::<i32>(),
{
    match value.read_as::<i32>() {
        Some(v) => Some(*v),
        None => None,
    }
}

/// A copy of the `String` inside `value`, if that is what it holds.
pub fn extract_string(value: &ErasedCell) -> (r: Option<String>)
    ensures
        r is Some <==> value.is_a::<String>(),
        r is Some ==> value.content::<String>() is Some && r.unwrap()@
            == value.content::<String>().unwrap()@,
{
    match value.read_as::<String>() {
        Some(v) => Some(v.clone()),
        None => None,
    }
}

/// Values of unrelated types in one sequence, in insertion order.
pub struct AnyVec {
    items: Vec<ErasedCell>,
}

impl AnyVec {
    /// The cells, oldest first.
    pub closed spec fn view(&self) -> Seq<ErasedCell> {
        self.items@
    }

    /// What a typed read for `T` at `index` finds.
    pub open spec fn spec_get<T: 'static>(&self, index: int) -> Option<T> {
        if 0 <= index < self@.len() {
            self@[index].content::<T>()
        } else {
            None
        }
    }

    /// The payloads of all cells made for `T`, in insertion order.
    pub open spec fn typed<T: 'static>(&self) -> Seq<T> {
        typed_prefix::<T>(self@, self@.len())
    }

    /// A collection without cells gives nothing to a typed read, at any
    /// index and for any type.
    pub proof fn empty_reads_nothing<T: 'static>(&self, index: int)
        requires
            self@.len() == 0,
        ensures
            self.spec_get::<T>(index) == None::<T>,
            self.typed::<T>() == Seq::<T>::empty(),
    {
    }

    pub fn new() -> (r: AnyVec)
        ensures
            r@ == Seq::<ErasedCell>::empty(),
    {
        AnyVec { items: Vec::new() }
    }

    /// Appends `value` in a new cell.
    pub fn push<T: 'static>(&mut self, value: T)
        ensures
            final(self)@.len() == old(self)@.len() + 1,
            final(self)@.drop_last() == old(self)@,
            final(self)@.last().is_a::<T>(),
            final(self)@.last().content::<T>() == Some(value),
            final(self).typed::<T>() == old(self).typed::<T>().push(value),
    {
        let cell = ErasedCell::wrap(value);
        proof {
            typed_after_push::<T>(self.items@, cell);
        }
        self.items.push(cell);
        assert(self.items@.drop_last() =~= old(self).items@);
    }

    /// The `T` at `index`; nothing if the index is out of range or the
    /// cell there was made for another type.
    pub fn get<T: 'static>(&self, index: usize) -> (r: Option<&T>)
        ensures
            r is Some <==> self.spec_get::<T>(index as int) is Some,
            r is Some ==> self.spec_get::<T>(index as int) == Some(*r.unwrap()),
    {
        if index < self.items.len() {
            self.items[index].read_as::<T>()
        } else {
            None
        }
    }

    /// Exclusive access to the `T` at `index`, with the absences of `get`.
    /// Only the cell at `index` can change, and only in its payload.
    pub fn get_mut<T: 'static>(&mut self, index: usize) -> (r: Option<&mut T>)
        ensures
            r is Some <==> old(self).spec_get::<T>(index as int) is Some,
            r is None ==> final(self)@ =~= old(self)@,
            r is Some ==> old(self).spec_get::<T>(index as int) == Some(*r.unwrap()),
            r is Some ==> final(self).spec_get::<T>(index as int) == Some(*final(r.unwrap())),
            final(self)@.len() == old(self)@.len(),
            forall|j: int|
                0 <= j < old(self)@.len() && j != index ==> final(self)@[j] == old(self)@[j],
            forall|j: int|
                0 <= j < old(self)@.len() ==> (#[trigger] final(self)@[j]).token() == old(
                    self,
                )@[j].token(),
    {
        if index < self.items.len() {
            let cell = &mut self.items[index];
            cell.read_mut_as::<T>()
        } else {
            None
        }
    }

    pub fn len(&self) -> (r: usize)
        ensures
            r == self@.len(),
    {
        self.items.len()
    }

    pub fn is_empty(&self) -> (r: bool)
        ensures
            r == (self@.len() == 0),
    {
        self.items.len() == 0
    }

    /// Borrows of all payloads of type `T`, in insertion order; cells made
    /// for other types are skipped.
    pub fn iter_as<T: 'static>(&self) -> (r: Vec<&T>)
        ensures
            r@.len() == self.typed::<T>().len(),
            forall|k: int| 0 <= k < r@.len() ==> *(#[trigger] r@[k]) == self.typed::<T>()[k],
    {
        let mut out: Vec<&T> = Vec::new();
        let mut i: usize = 0;
        while i < self.items.len()
            invariant
                i <= self.items@.len(),
                out@.len() == typed_prefix::<T>(self@, i as nat).len(),
                forall|k: int|
                    0 <= k < out@.len() ==> *(#[trigger] out@[k]) == typed_prefix::<T>(
                        self@,
                        i as nat,
                    )[k],
            decreases self.items@.len() - i,
        {
            if let Some(v) = self.items[i].read_as::<T>() {
                out.push(v);
            }
            i += 1;
        }
        out
    }
}

impl Default for AnyVec {
    fn default() -> (r: AnyVec)
        ensures
            r@ == Seq::<ErasedCell>::empty(),
    {
        AnyVec::new()
    }
}

} // verus!
