//! The registry of typed values, and the trait by which a type says how it is
//! built from one.
use vstd::prelude::*;
use std::any::Any;
use std::any::TypeId;
use crate::erasure::{erased, key_of, payload, seal, type_key, unseal, Erased, Payload};
use crate::error::{BuilderError, BuilderErrorView};
use crate::slots::TypeMap;

verus! {

/// What a registry holds: under the identity of a type, the one stored value
/// of that type, with its type forgotten.
pub type Contents = Map<TypeId, Payload>;

/// `contents` holds `value` as its value of type `D`.
pub open spec fn holds<D: 'static>(contents: Contents, value: D) -> bool {
    contents.contains_key(key_of::<D>()) && contents[key_of::<D>()] == erased(value)
}

/// `contents` holds some value of type `D`.
pub open spec fn present<D: 'static>(contents: Contents) -> bool {
    exists|value: D| holds(contents, value)
}

/// `contents` after `value` was stored as its value of type `D`: a value of
/// that type that was there before is replaced, all else stays.
pub open spec fn with<D: 'static>(contents: Contents, value: D) -> Contents {
    contents.insert(key_of::<D>(), erased(value))
}

/// A registry that holds at most one value of each type, and hands a value
/// out to whoever asks for its exact type.
pub struct InstanceBuilder {
    data: TypeMap<Erased>,
}

impl View for InstanceBuilder {
    type V = Contents;

    closed spec fn view(&self) -> Contents {
        self.data@.map_values(|e: Erased| payload(e))
    }
}

/// A type that can be built from the values in a registry.
pub trait FromInstanceBuilder: Sized {
    /// What an implementation promises of `built`, the result of building
    /// from a registry with the given contents. An implementation that does
    /// not define it promises nothing.
    open spec fn builds(contents: Contents, built: Result<Self, BuilderError>) -> bool {
        true
    }

    /// Builds a value from what `builder` holds, or says why it cannot.
    fn try_from_builder(builder: &InstanceBuilder) -> (built: Result<Self, BuilderError>)
        ensures
            Self::builds(builder@, built),
    ;
}

impl InstanceBuilder {
    /// An empty registry.
    pub fn new() -> (builder: Self)
        ensures
            builder@ == Contents::empty(),
    {
        let builder = InstanceBuilder { data: TypeMap::new() };
        assert(builder@ =~= Contents::empty());
        builder
    }

    /// Stores `data` as the registry's value of type `D`, in place of an
    /// earlier value of that type.
    pub fn insert<D: Any + Send + Sync>(&mut self, data: D)
        ensures
            final(self)@ == with(old(self)@, data),
            holds(final(self)@, data),
    {
        let key = type_key::<D>();
        let value = seal(data);
        self.data.insert(key, value);
        assert(self@ =~= with(old(self)@, data));
    }

    /// The stored value of type `D`, failing with `DataDoesNotExist` under
    /// the name `ty` where there is none.
    pub fn data<D: Any + Send + Sync>(&self, ty: &str) -> (found: Result<&D, BuilderError>)
        ensures
            forall|value: D|
                #![trigger erased(value)]
                holds(self@, value) ==> found == Ok::<&D, BuilderError>(&value),
            match found {
                Ok(value) => holds(self@, *value),
                Err(e) => !present::<D>(self@) && e@ == (BuilderErrorView::DataDoesNotExist {
                    ty: ty@,
                }),
            },
    {
        match self.data_opt::<D>() {
            Some(value) => Ok(value),
            None => Err(BuilderError::DataDoesNotExist { ty: ty.to_owned() }),
        }
    }

    /// The stored value of type `D`, or `None` where there is none. Only a
    /// value that was stored as a `D` is found: not one of another type with
    /// the same fields.
    pub fn data_opt<D: Any + Send + Sync>(&self) -> (found: Option<&D>)
        ensures
            forall|value: D|
                #![trigger erased(value)]
                holds(self@, value) ==> found == Some(&value),
            match found {
                Some(value) => holds(self@, *value),
                None => !present::<D>(self@),
            },
    {
        let key = type_key::<D>();
        match self.data.get(&key) {
            Some(e) => unseal::<D>(e),
            None => None,
        }
    }

    /// Builds a `T` by `T`'s own rule, from what the registry holds now. The
    /// result, a value or an error, is the rule's result.
    pub fn build<T: FromInstanceBuilder>(&self) -> (built: Result<T, BuilderError>)
        ensures
            T::builds(self@, built),
    {
        T::try_from_builder(self)
    }
}

impl Default for InstanceBuilder {
    fn default() -> (builder: Self)
        ensures
            builder@ == Contents::empty(),
    {
        InstanceBuilder::new()
    }
}

} // verus!
