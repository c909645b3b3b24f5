//! A registry of typed values from which configured instances are built.
//!
//! An `InstanceBuilder` holds at most one value of each type. A type that
//! implements `FromInstanceBuilder` says how it is built from those values,
//! and `InstanceBuilder::build` builds it.
//!
//! - `builder`: the registry, its contents as a map, and the trait.
//! - `laws`: what holds of every registry.
//! - `slots`: the map keyed by type identity that the registry stores into.
//! - `erasure`: type identities and type-erased values, as `std::any` gives
//!   them.
//! - `error`: the error of lookups and construction.
pub mod builder;
pub mod erasure;
pub mod error;
pub mod laws;
pub mod slots;

pub use builder::FromInstanceBuilder;
pub use builder::InstanceBuilder;
pub use error::BuilderError;
