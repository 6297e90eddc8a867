//! Functions that take or build other functions.

use vstd::prelude::*;

verus! {

/// Calls `f` twice and adds the results; the sum must fit in 32 bits
/// whatever `f` returns.
pub fn call_fn<F: Fn() -> i32>(f: F) -> (r: i32)
    requires
        f.requires(()),
        forall|a: i32, b: i32|
            f.ensures((), a) && f.ensures((), b) ==> i32::MIN <= a + b <= i32::MAX,
    ensures
        exists|a: i32, b: i32| f.ensures((), a) && f.ensures((), b) && r == a + b,
{
    let a = f();
    let b = f();
    a + b
}

/// Calls `f` once.
pub fn call_fn_once<F: FnOnce() -> i32>(f: F) -> (r: i32)
    requires
        f.requires(()),
    ensures
        f.ensures((), r),
{
    f()
}

/// Calls `f` once and hands its result on.
pub fn run_once<F: FnOnce() -> T, T>(f: F) -> (r: T)
    requires
        f.requires(()),
    ensures
        f.ensures((), r),
{
    f()
}

/// Runs a task that produces a text.
pub fn spawn_task<F: FnOnce() -> String>(task: F) -> (r: String)
    requires
        task.requires(()),
    ensures
        task.ensures((), r),
{
    task()
}

/// Whether `x` is greater than zero.
pub fn is_positive(x: i32) -> (r: bool)
    ensures
        r == (x > 0),
{
    x > 0
}

/// Applies `f` to `value`.
pub fn apply_fn<F: Fn(i32) -> bool>(f: F, value: i32) -> (r: bool)
    requires
        f.requires((value,)),
    ensures
        f.ensures((value,), r),
{
    f(value)
}

/// A predicate on integers, kept for repeated use.
pub struct Filter<F: Fn(i32) -> bool> {
    predicate: F,
}

impl<F: Fn(i32) -> bool> Filter<F> {
    pub closed spec fn predicate(&self) -> F {
        self.predicate
    }

    pub fn new(predicate: F) -> (r: Filter<F>)
        ensures
            r.predicate() == predicate,
    {
        Filter { predicate }
    }

    /// Whether `value` passes.
    pub fn test(&self, value: i32) -> (r: bool)
        requires
            self.predicate().requires((value,)),
        ensures
            self.predicate().ensures((value,), r),
    {
        (self.predicate)(value)
    }

    /// The items that pass, in their order. Every item must be one the
    /// predicate can be asked about.
    pub fn filter_vec(&self, items: Vec<i32>) -> (r: Vec<i32>)
        requires
            forall|i: int| 0 <= i < items@.len() ==> self.predicate().requires((items@[i],)),
        ensures
            exists|keep: Seq<bool>|
                {
                    &&& keep.len() == items@.len()
                    &&& forall|i: int|
                        0 <= i < items@.len() ==> self.predicate().ensures(
                            (items@[i],),
                            #[trigger] keep[i],
                        )
                    &&& r@ == kept(items@, keep, items@.len())
                },
    {
        let mut out: Vec<i32> = Vec::new();
        let ghost mut keep: Seq<bool> = Seq::empty();
        let mut i: usize = 0;
        while i < items.len()
            invariant
                i <= items@.len(),
                keep.len() == i,
                forall|j: int| 0 <= j < items@.len() ==> self.predicate().requires((items@[j],)),
                forall|j: int|
                    0 <= j < i ==> self.predicate().ensures((items@[j],), #[trigger] keep[j]),
                out@ == kept(items@, keep, i as nat),
            decreases items@.len() - i,
        {
            let x = items[i];
            let pass = (self.predicate)(x);
            proof {
                kept_ignores_the_rest(items@, keep, keep.push(pass), i as nat);
                keep = keep.push(pass);
            }
            if pass {
                out.push(x);
            }
            i += 1;
        }
        proof {
            assert(keep.len() == items@.len());
        }
        out
    }
}

/// The first `n` of `items` whose mark in `keep` is set, in their order.
pub open spec fn kept(items: Seq<i32>, keep: Seq<bool>, n: nat) -> Seq<i32>
    decreases n,
{
    if n == 0 || n > items.len() || n > keep.len() {
        Seq::empty()
    } else if keep[n - 1] {
        kept(items, keep, (n - 1) as nat).push(items[n - 1])
    } else {
        kept(items, keep, (n - 1) as nat)
    }
}

/// What is kept of the first `n` items depends on the first `n` marks
/// only.
pub proof fn kept_ignores_the_rest(items: Seq<i32>, a: Seq<bool>, b: Seq<bool>, n: nat)
    requires
        n <= a.len(),
        n <= b.len(),
        n <= items.len(),
        forall|i: int| 0 <= i < n ==> a[i] == b[i],
    ensures
        kept(items, a, n) == kept(items, b, n),
    decreases n,
{
    if n > 0 {
        kept_ignores_the_rest(items, a, b, (n - 1) as nat);
    }
}

/// A counter that steps up by one at each call.
pub struct StepCounter {
    count: i32,
}

impl StepCounter {
    pub closed spec fn count(&self) -> int {
        self.count as int
    }

    /// Steps up and returns the new count, which must fit in 32 bits.
    pub fn call(&mut self) -> (r: i32)
        requires
            old(self).count() < i32::MAX,
        ensures
            r == old(self).count() + 1,
            final(self).count() == r,
    {
        self.count += 1;
        self.count
    }
}

/// A counter that starts after `start`.
pub fn make_counter(start: i32) -> (r: StepCounter)
    ensures
        r.count() == start,
{
    StepCounter { count: start }
}

/// A running sum.
pub struct Accumulator {
    sum: i32,
}

impl Accumulator {
    pub closed spec fn sum(&self) -> int {
        self.sum as int
    }

    /// Adds `x` and returns the new sum, which must fit in 32 bits.
    pub fn call(&mut self, x: i32) -> (r: i32)
        requires
            i32::MIN <= old(self).sum() + x <= i32::MAX,
        ensures
            r == old(self).sum() + x,
            final(self).sum() == r,
    {
        self.sum += x;
        self.sum
    }
}

/// A running sum that starts at zero.
pub fn make_accumulator() -> (r: Accumulator)
    ensures
        r.sum() == 0,
{
    Accumulator { sum: 0 }
}

/// A value waiting to be fetched once.
pub struct Getter<T> {
    value: T,
}

impl<T> Getter<T> {
    pub closed spec fn view(&self) -> T {
        self.value
    }

    /// Hands the value out.
    pub fn call(self) -> (r: T)
        ensures
            r == self@,
    {
        self.value
    }
}

/// Wraps `value` for a later fetch.
pub fn into_getter<T>(value: T) -> (r: Getter<T>)
    ensures
        r@ == value,
{
    Getter { value }
}

/// Calls `f` twice and adds the results; the sum must fit in 32 bits
/// whatever `f` returns.
pub fn call_fn_mut<F: FnMut() -> i32>(f: F) -> (r: i32)
    requires
        f.requires(()),
        forall|a: i32, b: i32|
            f.ensures((), a) && f.ensures((), b) ==> i32::MIN <= a + b <= i32::MAX,
    ensures
        exists|a: i32, b: i32| f.ensures((), a) && f.ensures((), b) && r == a + b,
{
    let mut f = f;
    let a = f();
    let b = f();
    a + b
}

/// Calls `f` `n` times and returns what the last call gave, or zero if
/// there was none.
pub fn call_n_times<F: FnMut() -> i32>(f: F, n: usize) -> (r: i32)
    requires
        f.requires(()),
    ensures
        n == 0 ==> r == 0,
        n > 0 ==> f.ensures((), r),
{
    let mut g = f;
    let mut result: i32 = 0;
    let mut i: usize = 0;
    while i < n
        invariant
            i <= n,
            g == f,
            f.requires(()),
            i == 0 ==> result == 0,
            i > 0 ==> f.ensures((), result),
        decreases n - i,
    {
        result = g();
        i += 1;
    }
    result
}

/// A value that is computed when it is first asked for.
#[verifier::reject_recursive_types(T)]
pub struct Lazy<T, F: FnOnce() -> T> {
    init: Option<F>,
    value: Option<T>,
}

impl<T, F: FnOnce() -> T> Lazy<T, F> {
    /// The computation, while it is still to be run.
    pub closed spec fn init(&self) -> Option<F> {
        self.init
    }

    /// The value, once it was computed.
    pub closed spec fn value(&self) -> Option<T> {
        self.value
    }

    /// Either the value is there or the computation still is.
    pub open spec fn wf(&self) -> bool {
        self.value() is Some || self.init() is Some
    }

    pub fn new(init: F) -> (r: Lazy<T, F>)
        ensures
            r.wf(),
            r.init() == Some(init),
            r.value() is None,
    {
        let init = Some(init);
        let value = None;
        Lazy { init, value }
    }

    /// The value; the first call computes it, later calls find it.
    pub fn get(&mut self) -> (r: &T)
        requires
            old(self).wf(),
            old(self).value() is None ==> old(self).init().unwrap().requires(()),
        ensures
            final(self).wf(),
            final(self).value() == Some(*r),
            old(self).value() is Some ==> old(self).value() == Some(*r),
            old(self).value() is None ==> old(self).init().unwrap().ensures((), *r),
    {
        if self.value.is_none() {
            let init = self.init.take().unwrap();
            self.value = Some(init());
        }
        self.value.as_ref().unwrap()
    }
}

} // verus!
