//! The abstract description of an enum declaration that the generators consume.

use vstd::prelude::*;

verus! {

/// One `namespace(key = "value")` annotation attached to a type or a variant.
#[derive(Debug)]
pub struct MetaEntry {
    pub namespace: String,
    pub key: String,
    pub value: String,
}

/// One segment of a type path: `Vec<u8>` is the segment `Vec` with arguments.
#[derive(Debug)]
pub struct PathSegment {
    pub ident: String,
    pub has_arguments: bool,
}

/// The declared type of a field.
#[derive(Debug)]
pub enum FieldType {
    /// A path such as `Foo`, `io::Error` or `Vec<u8>`.
    Path(Vec<PathSegment>),
    /// Any other type (a reference, a tuple, a qualified path ...).
    Other,
}

/// A field of a struct-like variant.
#[derive(Debug)]
pub struct NamedField {
    pub name: String,
    pub ty: FieldType,
}

/// The fields of a variant as declared.
#[derive(Debug)]
pub enum Fields {
    /// `Variant`
    Unit,
    /// `Variant(A, B, ...)`
    Unnamed(Vec<FieldType>),
    /// `Variant { a: A, b: B, ... }`
    Named(Vec<NamedField>),
}

/// One variant of an enum, in declaration order within its type.
#[derive(Debug)]
pub struct VariantDescription {
    pub name: String,
    pub fields: Fields,
    pub meta: Vec<MetaEntry>,
}

/// An enum declaration: its name, its type-level annotations and its variants.
#[derive(Debug)]
pub struct TypeDescription {
    pub name: String,
    pub meta: Vec<MetaEntry>,
    pub variants: Vec<VariantDescription>,
}

} // verus!
