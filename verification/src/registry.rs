//! A registry with one slot per concrete type.

use crate::erased::ErasedCell;
use crate::erased::TypeToken;
use vstd::prelude::*;

verus! {

/// Some cell of `s` was made for the type that `t` denotes.
pub open spec fn present(s: Seq<ErasedCell>, t: TypeToken) -> bool {
    exists|i: int| 0 <= i < s.len() && (#[trigger] s[i]).token() == t
}

/// A position in `s` of a cell made for the type that `t` denotes.
pub open spec fn position(s: Seq<ErasedCell>, t: TypeToken) -> int {
    choose|i: int| 0 <= i < s.len() && (#[trigger] s[i]).token() == t
}

/// No two cells of `s` were made for the same type.
pub open spec fn distinct(s: Seq<ErasedCell>) -> bool {
    forall|i: int, j: int|
        0 <= i < j < s.len() ==> (#[trigger] s[i]).token() != (#[trigger] s[j]).token()
}

/// What a typed lookup for `T` finds among the cells of `s`.
pub open spec fn value_in<T: 'static>(s: Seq<ErasedCell>) -> Option<T> {
    if present(s, TypeToken::spec_of::<T>()) {
        s[position(s, TypeToken::spec_of::<T>())].content::<T>()
    } else {
        None
    }
}

/// `post` is `pre` after a value `v` of type `T` was stored: in the slot of
/// `T` where there was one, in a new last slot otherwise.
pub open spec fn stored<T: 'static>(pre: Seq<ErasedCell>, post: Seq<ErasedCell>, v: T) -> bool {
    let t = TypeToken::spec_of::<T>();
    &&& if present(pre, t) {
        &&& post.len() == pre.len()
        &&& forall|j: int| 0 <= j < pre.len() && j != position(pre, t) ==> post[j] == pre[j]
        &&& post[position(pre, t)].token() == t
        &&& post[position(pre, t)].content::<T>() == Some(v)
    } else {
        &&& post.len() == pre.len() + 1
        &&& post.drop_last() == pre
        &&& post.last().token() == t
        &&& post.last().content::<T>() == Some(v)
    }
}

/// `post` is `pre` without the slot of `T`, the other cells in their order.
pub open spec fn dropped<T: 'static>(pre: Seq<ErasedCell>, post: Seq<ErasedCell>) -> bool {
    let t = TypeToken::spec_of::<T>();
    if present(pre, t) {
        post == pre.remove(position(pre, t))
    } else {
        post == pre
    }
}

/// In a sequence without repeated types, the cell at `i` is the one found
/// under its own token.
pub proof fn position_is_unique(s: Seq<ErasedCell>, i: int)
    requires
        distinct(s),
        0 <= i < s.len(),
    ensures
        present(s, s[i].token()),
        position(s, s[i].token()) == i,
{
    let t = s[i].token();
    let p = position(s, t);
    assert(0 <= p < s.len() && s[p].token() == t);
    if p < i {
        assert(s[p].token() != s[i].token());
    } else if i < p {
        assert(s[i].token() != s[p].token());
    }
}

/// Storing `a` and then `b` of the same type in an empty registry: the
/// second store finds `a` in place, leaves `b` there, and the registry
/// holds one value before and after it.
pub proof fn store_twice_replaces<T: 'static>(
    s0: Seq<ErasedCell>,
    s1: Seq<ErasedCell>,
    s2: Seq<ErasedCell>,
    a: T,
    b: T,
)
    requires
        s0.len() == 0,
        stored(s0, s1, a),
        stored(s1, s2, b),
    ensures
        value_in::<T>(s1) == Some(a),
        value_in::<T>(s2) == Some(b),
        s1.len() == 1,
        s2.len() == 1,
{
    let t = TypeToken::spec_of::<T>();
    assert(!present(s0, t));
    assert(s1[0].token() == t);
    assert(present(s1, t));
    assert(position(s1, t) == 0);
    assert(s2[0].token() == t);
    assert(present(s2, t));
    assert(position(s2, t) == 0);
}

/// Storing `x`, removing it, and storing `y` of the same type, from an
/// empty registry: the removal finds `x`, leaves nothing of that type
/// behind, and `y` then goes into a fresh slot.
pub proof fn remove_then_store<T: 'static>(
    s0: Seq<ErasedCell>,
    s1: Seq<ErasedCell>,
    s2: Seq<ErasedCell>,
    s3: Seq<ErasedCell>,
    x: T,
    y: T,
)
    requires
        s0.len() == 0,
        stored(s0, s1, x),
        dropped::<T>(s1, s2),
        stored(s2, s3, y),
    ensures
        value_in::<T>(s1) == Some(x),
        value_in::<T>(s2) == None::<T>,
        value_in::<T>(s3) == Some(y),
        s2.len() == 0,
        s3.len() == 1,
{
    let t = TypeToken::spec_of::<T>();
    assert(!present(s0, t));
    assert(s1[0].token() == t);
    assert(present(s1, t));
    assert(position(s1, t) == 0);
    assert(s2.len() == 0);
    assert(!present(s2, t));
    assert(s3[0].token() == t);
    assert(present(s3, t));
    assert(position(s3, t) == 0);
}

/// A registry without cells has no value of any type.
pub proof fn empty_has_nothing<T: 'static>(s: Seq<ErasedCell>)
    requires
        s.len() == 0,
    ensures
        value_in::<T>(s) == None::<T>,
        !present(s, TypeToken::spec_of::<T>()),
        dropped::<T>(s, s),
{
}

/// At most one value per concrete type, found by the type alone.
pub struct TypeMap {
    cells: Vec<ErasedCell>,
}

impl TypeMap {
    /// The stored cells, in the order in which their types first came.
    pub closed spec fn view(&self) -> Seq<ErasedCell> {
        self.cells@
    }

    /// No type occurs twice.
    pub open spec fn wf(&self) -> bool {
        distinct(self@)
    }

    /// The stored value of type `T`, if there is one.
    pub open spec fn value<T: 'static>(&self) -> Option<T> {
        value_in::<T>(self@)
    }

    pub fn new() -> (r: TypeMap)
        ensures
            r@.len() == 0,
            r.wf(),
    {
        TypeMap { cells: Vec::new() }
    }

    /// Where the cell made for `t` stands.
    fn find(&self, t: &TypeToken) -> (r: Option<usize>)
        requires
            self.wf(),
        ensures
            r is Some <==> present(self@, *t),
            r is Some ==> r.unwrap() == position(self@, *t) && r.unwrap() < self@.len()
                && self@[r.unwrap() as int].token() == *t,
    {
        let mut i: usize = 0;
        while i < self.cells.len()
            invariant
                self.wf(),
                i <= self.cells@.len(),
                forall|j: int| 0 <= j < i ==> (#[trigger] self@[j]).token() != *t,
            decreases self.cells@.len() - i,
        {
            let found = self.cells[i].type_token();
            if found.same(t) {
                proof {
                    position_is_unique(self@, i as int);
                }
                return Some(i);
            }
            i += 1;
        }
        None
    }

    /// Stores `value` in the slot of `T` and hands out what was there.
    pub fn insert<T: 'static>(&mut self, value: T) -> (r: Option<T>)
        requires
            old(self).wf(),
        ensures
            final(self).wf(),
            r == old(self).value::<T>(),
            r is Some <==> present(old(self)@, TypeToken::spec_of::<T>()),
            stored(old(self)@, final(self)@, value),
            final(self).value::<T>() == Some(value),
    {
        let key = TypeToken::of::<T>();
        let cell = ErasedCell::wrap(value);
        match self.find(&key) {
            Some(i) => {
                self.cells.push(cell);
                let previous = self.cells.swap_remove(i);
                assert(self@ =~= old(self)@.update(i as int, cell));
                proof {
                    assert forall|a: int, b: int| 0 <= a < b < self@.len() implies (
                    #[trigger] self@[a]).token() != (#[trigger] self@[b]).token() by {
                        assert(old(self)@[a].token() != old(self)@[b].token());
                    }
                    position_is_unique(self@, i as int);
                }
                match previous.take_as::<T>() {
                    Ok(v) => Some(v),
                    Err(_) => None,
                }
            },
            None => {
                self.cells.push(cell);
                proof {
                    assert(self@.drop_last() =~= old(self)@);
                    assert forall|a: int, b: int| 0 <= a < b < self@.len() implies (
                    #[trigger] self@[a]).token() != (#[trigger] self@[b]).token() by {
                        if b < old(self)@.len() {
                            assert(old(self)@[a].token() != old(self)@[b].token());
                        } else {
                            assert(old(self)@[a].token() != key);
                        }
                    }
                    position_is_unique(self@, self@.len() - 1);
                }
                None
            },
        }
    }

    /// A shared borrow of the stored `T`.
    pub fn get<T: 'static>(&self) -> (r: Option<&T>)
        requires
            self.wf(),
        ensures
            r is Some <==> present(self@, TypeToken::spec_of::<T>()),
            r is Some <==> self.value::<T>() is Some,
            r is Some ==> self.value::<T>() == Some(*r.unwrap()),
    {
        let key = TypeToken::of::<T>();
        match self.find(&key) {
            Some(i) => self.cells[i].read_as::<T>(),
            None => None,
        }
    }

    /// Exclusive access to the stored `T`. Only that value can change.
    pub fn get_mut<T: 'static>(&mut self) -> (r: Option<&mut T>)
        requires
            old(self).wf(),
        ensures
            r is Some <==> present(old(self)@, TypeToken::spec_of::<T>()),
            r is None ==> final(self)@ =~= old(self)@,
            r is Some ==> old(self).value::<T>() == Some(*r.unwrap()),
            r is Some ==> final(self)@[position(
                old(self)@,
                TypeToken::spec_of::<T>(),
            )].content::<T>() == Some(*final(r.unwrap())),
            final(self)@.len() == old(self)@.len(),
            forall|j: int|
                0 <= j < old(self)@.len() && j != position(old(self)@, TypeToken::spec_of::<T>())
                    ==> final(self)@[j] == old(self)@[j],
            forall|j: int|
                0 <= j < old(self)@.len() ==> (#[trigger] final(self)@[j]).token() == old(
                    self,
                )@[j].token(),
            final(self).wf(),
            r is Some ==> final(self).value::<T>() == Some(*final(r.unwrap())),
    {
        let key = TypeToken::of::<T>();
        match self.find(&key) {
            Some(i) => {
                let cell = &mut self.cells[i];
                cell.read_mut_as::<T>()
            },
            None => None,
        }
    }

    /// Takes the stored `T` out of the registry.
    pub fn remove<T: 'static>(&mut self) -> (r: Option<T>)
        requires
            old(self).wf(),
        ensures
            final(self).wf(),
            r == old(self).value::<T>(),
            r is Some <==> present(old(self)@, TypeToken::spec_of::<T>()),
            dropped::<T>(old(self)@, final(self)@),
            !present(final(self)@, TypeToken::spec_of::<T>()),
            final(self).value::<T>() == None::<T>,
    {
        let key = TypeToken::of::<T>();
        match self.find(&key) {
            Some(i) => {
                let cell = self.cells.remove(i);
                proof {
                    assert forall|a: int, b: int| 0 <= a < b < self@.len() implies (
                    #[trigger] self@[a]).token() != (#[trigger] self@[b]).token() by {
                        let a0 = if a < i { a } else { a + 1 };
                        let b0 = if b < i { b } else { b + 1 };
                        assert(old(self)@[a0].token() != old(self)@[b0].token());
                    }
                    assert forall|a: int| 0 <= a < self@.len() implies (#[trigger] self@[a]).token()
                        != key by {
                        let a0 = if a < i { a } else { a + 1 };
                        if a0 < i {
                            assert(old(self)@[a0].token() != old(self)@[i as int].token());
                        } else {
                            assert(old(self)@[i as int].token() != old(self)@[a0].token());
                        }
                    }
                }
                match cell.take_as::<T>() {
                    Ok(v) => Some(v),
                    Err(_) => None,
                }
            },
            None => None,
        }
    }

    /// Whether a value of type `T` is stored.
    pub fn contains<T: 'static>(&self) -> (r: bool)
        requires
            self.wf(),
        ensures
            r == present(self@, TypeToken::spec_of::<T>()),
            r == (self.value::<T>() is Some),
    {
        let key = TypeToken::of::<T>();
        self.find(&key).is_some()
    }

    /// The number of stored values, one per type.
    pub fn len(&self) -> (r: usize)
        ensures
            r == self@.len(),
    {
        self.cells.len()
    }

    pub fn is_empty(&self) -> (r: bool)
        ensures
            r == (self@.len() == 0),
    {
        self.cells.len() == 0
    }
}

impl Default for TypeMap {
    fn default() -> (r: TypeMap)
        ensures
            r@.len() == 0,
            r.wf(),
    {
        TypeMap::new()
    }
}

} // verus!
