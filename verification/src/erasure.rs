//! The boundary to `std::any`: type identities and type-erased values.
//!
//! Verus cannot look inside a `Box<dyn Any + Send + Sync>`, so the items of
//! this module are believed, not proved. Specifications speak of an erased
//! value through its form as a `Box<dyn Stored>`, which Verus can build from a
//! value of any type.
use vstd::prelude::*;
use std::any::Any;
use std::any::TypeId;
use std::marker::PhantomData;

verus! {

/// `std::any::TypeId`, the identity that the compiler gives to a type. Verus
/// learns nothing of its inside: two identities are equal or they are not.
#[verifier::external_type_specification]
#[verifier::external_body]
pub struct ExTypeId(TypeId);

/// A trait that every type has. It exists so that specifications have a
/// single type, `Box<dyn Stored>`, in which a value of any type can stand.
pub trait Stored {
}

impl<T> Stored for T {
}

/// A value with its type forgotten, as specifications see it.
pub struct Payload {
    pub boxed: Box<dyn Stored>,
}

/// The value `value` with its type forgotten.
///
/// Verus treats the step from `Box<D>` to `Box<dyn Stored>` as an unknown
/// function of `D` and of the value: it proves neither that two erased values
/// of different types are equal, nor that they differ.
pub open spec fn erased<D: 'static>(value: D) -> Payload {
    Payload { boxed: Box::new(value) }
}

/// A payload that stands for the type `D` itself where a specification needs
/// the type as an argument.
pub open spec fn tag<D: 'static>() -> Payload {
    erased(PhantomData::<D>)
}

/// The identity of the type whose tag is `tag`: what `TypeId::of` returns for
/// that type.
pub uninterp spec fn type_id_of(tag: Payload) -> TypeId;

/// The identity of the type `D`.
pub open spec fn key_of<D: 'static>() -> TypeId {
    type_id_of(tag::<D>())
}

/// One value of any `Send + Sync` type behind a `Box<dyn Any + Send + Sync>`.
/// Verus does not accept that type in a field, so the box is hidden from it.
#[verifier::external_body]
pub struct Erased {
    inner: Box<dyn Any + Send + Sync>,
}

/// What an `Erased` holds.
pub uninterp spec fn payload(e: Erased) -> Payload;

impl View for Erased {
    type V = Payload;

    open spec fn view(&self) -> Payload {
        payload(*self)
    }
}

/// Calls `TypeId::of::<D>()`. The result depends on `D` alone, so every call
/// for one type returns the same identity, which `key_of` names.
#[verifier::external_body]
pub(crate) fn type_key<D: Any>() -> (key: TypeId)
    ensures
        key == type_id_of(tag::<D>()),
{
    TypeId::of::<D>()
}

/// Compares two identities with `TypeId`'s `==`, which holds exactly when
/// both stand for the same type.
#[verifier::external_body]
pub(crate) fn same_key(a: &TypeId, b: &TypeId) -> (same: bool)
    ensures
        same == (*a == *b),
{
    a == b
}

/// Moves `value` into a new box and forgets its type (`Box::new`, then the
/// coercion to `Box<dyn Any + Send + Sync>`). The box holds `value`.
#[verifier::external_body]
pub(crate) fn seal<D: Any + Send + Sync>(value: D) -> (e: Erased)
    ensures
        payload(e) == erased(value),
{
    Erased { inner: Box::new(value) }
}

/// Calls `downcast_ref::<D>()` on the box. It returns the value inside when
/// that value has the type `D`, and `None` when it has another type: so the
/// result is `Some` of a `D` exactly when the box holds that `D`.
#[verifier::external_body]
pub(crate) fn unseal<D: Any + Send + Sync>(e: &Erased) -> (found: Option<&D>)
    ensures
        forall|value: D| payload(*e) == #[trigger] erased(value) ==> found == Some(&value),
        found matches Some(value) ==> payload(*e) == erased(*value),
{
    e.inner.downcast_ref::<D>()
}

} // verus!
