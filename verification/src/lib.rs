//! Deterministic assignment of GPU-bindable members of an annotated aggregate
//! to bind-group slots.
//!
//! Given the structured output of an attribute scanner (an optional
//! aggregate-level converted-uniform declaration, an optional extra-data type,
//! and an ordered list of member-level binding declarations), the resolver
//! builds a slot-occupancy table, rejects conflicting declarations, merges
//! uniform members that share a binding index, and emits aligned lists of
//! resource constructions and bind-group-layout entries.  A separate runtime
//! model materializes those constructions into concrete resources, with a
//! retryable failure when a referenced image is not loaded yet.

pub mod attrs;
pub mod error;
pub mod laws;
pub mod prepare;
pub mod resolve;
