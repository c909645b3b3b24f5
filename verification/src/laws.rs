//! What holds of every registry, stated over its contents.
//!
//! `InstanceBuilder::insert` changes the contents by `with`, and
//! `InstanceBuilder::data_opt` and `InstanceBuilder::data` return a value
//! exactly when the contents `holds` it, so each law below is a law of those
//! functions.
use vstd::prelude::*;
use crate::builder::{holds, present, with, Contents};
use crate::erasure::{erased, key_of};

verus! {

/// A value that was stored is held: a lookup of its type that follows finds
/// that value.
pub proof fn law_stored_value_is_held<D: 'static>(contents: Contents, value: D)
    ensures
        holds(with(contents, value), value),
        present::<D>(with(contents, value)),
{
    assert(holds(with(contents, value), value));
}

/// An empty registry holds no value, of whatever type.
pub proof fn law_empty_holds_nothing<D: 'static>()
    ensures
        !present::<D>(Contents::empty()),
{
}

/// A registry with no entry under the identity of `D` holds no value of type
/// `D`.
pub proof fn law_without_entry_nothing_is_held<D: 'static>(contents: Contents)
    requires
        !contents.contains_key(key_of::<D>()),
    ensures
        !present::<D>(contents),
{
}

/// A registry holds at most one value of a type: two values of type `D` that
/// it holds are one and the same stored value.
pub proof fn law_at_most_one_value_of_a_type<D: 'static>(contents: Contents, a: D, b: D)
    requires
        holds(contents, a),
        holds(contents, b),
    ensures
        erased(a) == erased(b),
{
}

/// Of two values of one type stored in turn, only the second is left: the
/// registry is as if the first had never been stored.
pub proof fn law_second_value_replaces_first<D: 'static>(contents: Contents, first: D, second: D)
    ensures
        with(with(contents, first), second) == with(contents, second),
        holds(with(with(contents, first), second), second),
        holds(with(with(contents, first), second), first) ==> erased(first) == erased(second),
{
    assert(with(with(contents, first), second) =~= with(contents, second));
}

/// Storing a value of type `A` leaves the values of every other type as they
/// were. A lookup of type `B` after it finds what it found before where the
/// identities of `A` and `B` differ, and finds a value under the one identity
/// only if it is the value that was stored.
pub proof fn law_store_touches_one_type<A: 'static, B: 'static>(contents: Contents, a: A, b: B)
    ensures
        key_of::<A>() != key_of::<B>() ==> holds(with(contents, a), b) == holds(contents, b),
        key_of::<A>() == key_of::<B>() ==> holds(with(contents, a), b) == (erased(a) == erased(b)),
{
}

/// After a value of type `A` is stored in an empty registry, a lookup of a
/// type `B` with another identity finds nothing, whatever the two types'
/// fields are.
pub proof fn law_lookup_tells_types_apart<A: 'static, B: 'static>(a: A)
    requires
        key_of::<A>() != key_of::<B>(),
    ensures
        !present::<B>(with(Contents::empty(), a)),
{
}

} // verus!
