//! Build-time resolution errors.
//!
//! Every fault that can abort a resolution pass is represented here as
//! structured data: the offending member, the binding index, and (for slot
//! conflicts) the existing occupant, so a caller can render any diagnostic it
//! likes.  `ErrModel` is the mathematical image of `ResolveError` used by the
//! specification-level resolver model.

use vstd::prelude::*;

use crate::attrs::BindingType;

verus! {

/// A fatal fault found while resolving the declaration set of an aggregate.
#[derive(Debug, Clone, PartialEq, Eq)]
pub enum ResolveError {
    /// A member was declared at a binding index already held by exactly one
    /// non-uniform member; names both members and the occupant's kind.
    SlotOccupied { member: String, binding: u32, occupant: String, occupant_kind: BindingType },
    /// A member was declared at a binding index already held by the
    /// aggregate-level converted-uniform declaration.
    SlotOccupiedByStructUniform { member: String, binding: u32 },
    /// A non-uniform member was declared at a binding index already holding
    /// one or more merged uniform members.
    SlotOccupiedByMergedUniform { member: String, binding: u32 },
    /// A texture declaration used a key outside its documented vocabulary.
    UnknownTextureKey { key: String },
    /// A sampler declaration used a key outside its documented vocabulary.
    UnknownSamplerKey { key: String },
    /// A kind-specific option was not a name/value pair.
    NotNameValue,
    /// The named key takes a string value but was given something else.
    ExpectedStringValue { key: String },
    /// The named key takes a boolean value but was given something else.
    ExpectedBoolValue { key: String },
    /// A `dimension` value outside the documented vocabulary.
    InvalidDimension { value: String },
    /// A `sample_type` value outside the documented vocabulary.
    InvalidSampleType { value: String },
    /// A `sampler_type` value outside the documented vocabulary.
    InvalidSamplerType { value: String },
    /// `filterable` was given while the resolved sample type is not `float`.
    FilterableRequiresFloat,
}

/// Specification-level image of `ResolveError`: strings become `Seq<char>`.
pub enum ErrModel {
    SlotOccupied { member: Seq<char>, binding: u32, occupant: Seq<char>, occupant_kind: BindingType },
    SlotOccupiedByStructUniform { member: Seq<char>, binding: u32 },
    SlotOccupiedByMergedUniform { member: Seq<char>, binding: u32 },
    UnknownTextureKey { key: Seq<char> },
    UnknownSamplerKey { key: Seq<char> },
    NotNameValue,
    ExpectedStringValue { key: Seq<char> },
    ExpectedBoolValue { key: Seq<char> },
    InvalidDimension { value: Seq<char> },
    InvalidSampleType { value: Seq<char> },
    InvalidSamplerType { value: Seq<char> },
    FilterableRequiresFloat,
}

impl View for ResolveError {
    type V = ErrModel;

    open spec fn view(&self) -> ErrModel {
        match self {
            ResolveError::SlotOccupied { member, binding, occupant, occupant_kind } => (
                ErrModel::SlotOccupied {
                    member: member@,
                    binding: *binding,
                    occupant: occupant@,
                    occupant_kind: *occupant_kind,
                }
            ),
            ResolveError::SlotOccupiedByStructUniform { member, binding } => (
                ErrModel::SlotOccupiedByStructUniform { member: member@, binding: *binding }
            ),
            ResolveError::SlotOccupiedByMergedUniform { member, binding } => (
                ErrModel::SlotOccupiedByMergedUniform { member: member@, binding: *binding }
            ),
            ResolveError::UnknownTextureKey { key } => (
                ErrModel::UnknownTextureKey { key: key@ }
            ),
            ResolveError::UnknownSamplerKey { key } => (
                ErrModel::UnknownSamplerKey { key: key@ }
            ),
            ResolveError::NotNameValue => ErrModel::NotNameValue,
            ResolveError::ExpectedStringValue { key } => (
                ErrModel::ExpectedStringValue { key: key@ }
            ),
            ResolveError::ExpectedBoolValue { key } => (
                ErrModel::ExpectedBoolValue { key: key@ }
            ),
            ResolveError::InvalidDimension { value } => (
                ErrModel::InvalidDimension { value: value@ }
            ),
            ResolveError::InvalidSampleType { value } => (
                ErrModel::InvalidSampleType { value: value@ }
            ),
            ResolveError::InvalidSamplerType { value } => (
                ErrModel::InvalidSamplerType { value: value@ }
            ),
            ResolveError::FilterableRequiresFloat => ErrModel::FilterableRequiresFloat,
        }
    }
}

/// An executable result agrees with a specification-level result when the
/// payloads are equal and errors agree up to the view of their strings.
pub open spec fn res_matches<T>(r: Result<T, ResolveError>, m: Result<T, ErrModel>) -> bool {
    match (r, m) {
        (Ok(a), Ok(b)) => a == b,
        (Err(e), Err(f)) => e@ == f,
        _ => false,
    }
}

} // verus!
