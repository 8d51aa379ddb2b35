//! Build-time synthesis of genesis-configuration glue for pluggable
//! components.
//!
//! A component may declare a *genesis configuration*: a type describing the
//! initial state to seed into its persistent storage, together with a
//! user-authored build routine that populates that state. This crate resolves
//! the generic signatures implied by the declaration's feature flags, emits a
//! structured code fragment (one capability implementation plus two
//! convenience entry points), marks the user's build block as
//! environment-conditional, and propagates the block's source span onto every
//! synthesized item. It also models the runtime behaviour of the emitted
//! entry points: building or assimilating genesis state into a key-value
//! storage container.

pub mod definition;
pub mod expand;
pub mod generics;
pub mod storage;
