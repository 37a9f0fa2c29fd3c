//! The ways in which generation rejects a description.

use vstd::prelude::*;

verus! {

/// Why a description could not be turned into generated behavior. Variants
/// are identified by their 0-based position in the declaration.
#[derive(Debug, PartialEq, Eq, Structural)]
pub enum GenerateError {
    /// A key was given twice in one scope: the type's (`None`) or a variant's.
    DuplicateMetadataKey { variant: Option<usize> },
    /// The type has no `prefix` annotation.
    MissingPrefix,
    /// A variant has no `description` annotation.
    MissingDescription { variant: usize },
    /// A leaf variant with fields does not have exactly one.
    UnsupportedFieldArity { variant: usize },
    /// A container variant does not have exactly one field.
    RequiresSingleField { variant: usize },
}

} // verus!
