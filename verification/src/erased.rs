//! Type tokens and type-erased cells.
//!
//! A cell owns one value of any `'static` type and remembers the token of
//! that type. Typed access compares tokens first and touches the payload
//! only when they agree.

use std::any::Any;
use std::any::TypeId;
use vstd::prelude::*;
use vstd::std_specs::cmp::PartialEqSpecImpl;

verus! {

/// `std::any::TypeId`, carried through verified code as an opaque value.
#[verifier::external_type_specification]
#[verifier::external_body]
pub struct ExTypeId(TypeId);

/// The mathematical universe of erased values: a value of any type `T`
/// enters it through [`erase`].
pub trait Erased {
}

/// A value of type `T` as a member of the universe of erased values.
pub struct Held<T> {
    pub value: T,
}

impl<T> Erased for Held<T> {
}

/// The erased form of `v`.
pub open spec fn erase<T: 'static>(v: T) -> Box<dyn Erased> {
    Box::new(Held { value: v })
}


/// The identifier that the runtime gives to the concrete type behind an
/// erased value.
pub uninterp spec fn model_type(m: Box<dyn Erased>) -> TypeId;

/// The identifier that the runtime gives to the type `T`.
pub open spec fn type_of<T: 'static>() -> TypeId {
    model_type(erase(arbitrary::<T>()))
}

/// Opaque storage for one value of some `'static` type.
#[verifier::external_body]
pub struct Payload {
    inner: Box<dyn Any>,
}

/// What a payload holds, as a member of the universe of erased values.
pub uninterp spec fn payload_model(p: Payload) -> Box<dyn Erased>;

/// The payload holds `v`, and no other value of type `T`.
pub open spec fn payload_holds<T: 'static>(p: Payload, v: T) -> bool {
    &&& payload_model(p) == erase(v)
    &&& forall|w: T| payload_model(p) == #[trigger] erase(w) ==> w == v
}

/// The payload's concrete type is `T`.
pub open spec fn payload_is<T: 'static>(p: Payload) -> bool {
    model_type(payload_model(p)) == type_of::<T>()
}

/// Calls `TypeId::of::<T>()`. The result is the identifier of `T`: the same
/// on every call.
#[verifier::external_body]
fn type_id_of<T: 'static>() -> (r: TypeId)
    ensures
        r == type_of::<T>(),
{
    TypeId::of::<T>()
}

/// Calls `==` of `TypeId`. Two identifiers compare equal exactly when they
/// are the same identifier.
#[verifier::external_body]
fn type_id_eq(a: &TypeId, b: &TypeId) -> (r: bool)
    ensures
        r == (*a == *b),
{
    a == b
}

impl Payload {
    /// Calls `Box::new` and unsizes the box to `Box<dyn Any>`. The payload
    /// holds `v` and nothing else, and its concrete type is `T`.
    #[verifier::external_body]
    fn new<T: 'static>(v: T) -> (r: Payload)
        ensures
            payload_model(r) == erase(v),
            forall|w: T| payload_model(r) == #[trigger] erase(w) ==> w == v,
            model_type(payload_model(r)) == type_of::<T>(),
    {
        Payload { inner: Box::new(v) }
    }

    /// Calls `<dyn Any>::downcast_ref::<T>()`. It returns the stored value
    /// exactly when the payload's concrete type is `T`.
    #[verifier::external_body]
    fn downcast_ref<T: 'static>(&self) -> (r: Option<&T>)
        ensures
            r is Some <==> payload_is::<T>(*self),
            r is Some ==> payload_holds(*self, *r.unwrap()),
    {
        self.inner.downcast_ref::<T>()
    }

    /// Calls `<dyn Any>::downcast_mut::<T>()`. It lends the stored value
    /// exactly when the payload's concrete type is `T`; the payload then
    /// holds whatever the borrower leaves there, still of type `T`.
    #[verifier::external_body]
    fn downcast_mut<T: 'static>(&mut self) -> (r: Option<&mut T>)
        ensures
            r is Some <==> payload_is::<T>(*old(self)),
            r is None ==> *final(self) == *old(self),
            r is Some ==> payload_holds(*old(self), *r.unwrap()),
            r is Some ==> payload_holds(*final(self), *final(r.unwrap())),
            r is Some ==> payload_is::<T>(*final(self)),
        no_unwind
    {
        self.inner.downcast_mut::<T>()
    }

    /// Calls `Box::<dyn Any>::downcast::<T>()`. It hands the stored value
    /// out exactly when the payload's concrete type is `T`, and otherwise
    /// gives the payload back as it was.
    #[verifier::external_body]
    fn downcast<T: 'static>(self) -> (r: Result<T, Payload>)
        ensures
            r is Ok <==> payload_is::<T>(self),
            r is Ok ==> payload_holds(self, r->Ok_0),
            r is Err ==> r->Err_0 == self,
    {
        match self.inner.downcast::<T>() {
            Ok(b) => Ok(*b),
            Err(inner) => Err(Payload { inner }),
        }
    }
}

/// An opaque identifier bound to one concrete type. Two tokens are equal
/// exactly when they denote the same type.
#[derive(Debug, Clone, Copy)]
pub struct TypeToken {
    id: TypeId,
}

impl TypeToken {
    /// The token of `T` as a mathematical value.
    pub closed spec fn spec_of<T: 'static>() -> TypeToken {
        TypeToken { id: type_of::<T>() }
    }

    /// The token of `T`.
    pub fn of<T: 'static>() -> (r: TypeToken)
        ensures
            r == Self::spec_of::<T>(),
    {
        TypeToken { id: type_id_of::<T>() }
    }

    /// Whether two tokens denote the same type.
    pub fn same(&self, other: &TypeToken) -> (r: bool)
        ensures
            r == (*self == *other),
    {
        type_id_eq(&self.id, &other.id)
    }
}

impl PartialEqSpecImpl for TypeToken {
    open spec fn obeys_eq_spec() -> bool {
        true
    }

    open spec fn eq_spec(&self, other: &TypeToken) -> bool {
        *self == *other
    }
}

impl PartialEq for TypeToken {
    fn eq(&self, other: &TypeToken) -> (r: bool) {
        type_id_eq(&self.id, &other.id)
    }
}

impl Eq for TypeToken {
}

/// An owning container for one value of any single concrete type.
pub struct ErasedCell {
    token: TypeToken,
    payload: Payload,
}

impl ErasedCell {
    /// The token recorded when the cell was made.
    pub closed spec fn token(&self) -> TypeToken {
        self.token
    }

    /// The recorded token and the payload describe the same concrete type.
    #[verifier::type_invariant]
    pub closed spec fn wf(&self) -> bool {
        self.token.id == model_type(payload_model(self.payload))
    }

    /// The cell was made for the type `T`.
    pub open spec fn is_a<T: 'static>(&self) -> bool {
        self.token() == TypeToken::spec_of::<T>()
    }

    /// The cell's payload is `v`.
    pub closed spec fn holds<T: 'static>(&self, v: T) -> bool {
        payload_holds(self.payload, v)
    }

    /// What a typed read for `T` finds: the payload if the cell was made
    /// for `T`, nothing otherwise.
    pub open spec fn content<T: 'static>(&self) -> Option<T> {
        if self.is_a::<T>() {
            Some(self.held::<T>())
        } else {
            None
        }
    }

    /// The payload read as a `T`; meaningful only for a cell made for `T`.
    pub closed spec fn held<T: 'static>(&self) -> T {
        choose|v: T| payload_model(self.payload) == erase(v)
    }

    /// A cell holds at most one value: if it was made for `T` and holds
    /// `v`, a typed read for `T` finds exactly `v`.
    pub proof fn content_is_held<T: 'static>(&self, v: T)
        requires
            self.is_a::<T>(),
            self.holds(v),
        ensures
            self.content::<T>() == Some(v),
    {
    }

    /// A cell made for `T` has nothing to give to a typed read for a
    /// type with another token.
    pub proof fn mismatch_is_absent<T: 'static, U: 'static>(&self)
        requires
            self.is_a::<T>(),
            TypeToken::spec_of::<U>() != TypeToken::spec_of::<T>(),
        ensures
            self.content::<U>() == None::<U>,
            !self.is_a::<U>(),
    {
    }

    /// Moves `value` into a new cell.
    pub fn wrap<T: 'static>(value: T) -> (c: ErasedCell)
        ensures
            c.is_a::<T>(),
            c.holds(value),
            c.content::<T>() == Some(value),
    {
        let token = TypeToken::of::<T>();
        let payload = Payload::new(value);
        let c = ErasedCell { token, payload };
        proof {
            c.content_is_held(value);
        }
        c
    }

    /// The token of the type the cell was made for.
    pub fn type_token(&self) -> (r: TypeToken)
        ensures
            r == self.token(),
    {
        self.token
    }

    /// A shared borrow of the payload, if the cell was made for `T`.
    pub fn read_as<T: 'static>(&self) -> (r: Option<&T>)
        ensures
            r is Some <==> self.is_a::<T>(),
            r is Some ==> self.holds(*r.unwrap()),
            r is Some ==> self.content::<T>() == Some(*r.unwrap()),
            r is None ==> self.content::<T>() is None,
    {
        proof {
            use_type_invariant(self);
        }
        let wanted = TypeToken::of::<T>();
        if self.token.same(&wanted) {
            let r = self.payload.downcast_ref::<T>();
            proof {
                self.content_is_held(*r.unwrap());
            }
            r
        } else {
            None
        }
    }

    /// An exclusive borrow of the payload, if the cell was made for `T`.
    /// Whatever the borrower writes becomes the payload; the token stays.
    pub fn read_mut_as<T: 'static>(&mut self) -> (r: Option<&mut T>)
        ensures
            r is Some <==> old(self).is_a::<T>(),
            r is None ==> *final(self) == *old(self),
            r is Some ==> old(self).content::<T>() == Some(*r.unwrap()),
            r is Some ==> final(self).content::<T>() == Some(*final(r.unwrap())),
            final(self).token() == old(self).token(),
    {
        proof {
            use_type_invariant(&*self);
        }
        let wanted = TypeToken::of::<T>();
        if self.token.same(&wanted) {
            let r = self.payload.downcast_mut::<T>();
            proof {
                old(self).content_is_held(*r.unwrap());
            }
            r
        } else {
            None
        }
    }

    /// The payload itself, if the cell was made for `T`; otherwise the cell
    /// comes back untouched.
    pub fn take_as<T: 'static>(self) -> (r: Result<T, ErasedCell>)
        ensures
            r is Ok <==> self.is_a::<T>(),
            r is Ok ==> self.holds(r->Ok_0),
            r is Ok ==> self.content::<T>() == Some(r->Ok_0),
            r is Err ==> r->Err_0 == self,
    {
        proof {
            use_type_invariant(&self);
        }
        let wanted = TypeToken::of::<T>();
        if self.token.same(&wanted) {
            let ErasedCell { token, payload } = self;
            match payload.downcast::<T>() {
                Ok(v) => {
                    proof {
                        self.content_is_held(v);
                    }
                    Ok(v)
                },
                Err(payload) => Err(ErasedCell { token, payload }),
            }
        } else {
            Err(self)
        }
    }
}

} // verus!
