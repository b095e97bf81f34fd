//! The structured declaration read by the generator.
//!
//! A [`TypeDecl`] spells out one native type: its name, the directive
//! options attached to it, and its shape — struct fields in declaration
//! order, or enum variants in declaration order. Nested composite types
//! carry their own full declaration inline, so a declaration is a finite
//! tree and generation is one pass over it.

use vstd::prelude::*;

verus! {

/// One directive option: a name together with the form of its value.
#[derive(Debug, PartialEq, Eq)]
pub struct RawOption {
    pub name: String,
    pub value: OptionValue,
}

/// The value of a directive option: a bare flag, a text value, or a
/// parenthesized list of nested options.
#[derive(Debug, PartialEq, Eq)]
pub enum OptionValue {
    Flag,
    Text(String),
    List(Vec<RawOption>),
}

/// A type expression: what a field's or a payload's declared type can be.
#[derive(Debug, PartialEq, Eq)]
pub enum TypeExpr {
    /// The `u32` scalar type.
    U32,
    /// The text scalar type.
    Text,
    /// A named composite type, declared inline.
    Message(Box<TypeDecl>),
    /// A tuple type; never convertible, rejected at generation time.
    Tuple(Vec<TypeExpr>),
}

/// One declared struct field.
#[derive(Debug, PartialEq, Eq)]
pub struct FieldDecl {
    pub name: String,
    pub options: Vec<RawOption>,
    pub ty: TypeExpr,
}

/// The associated values of one declared enum variant.
#[derive(Debug, PartialEq, Eq)]
pub enum VariantFields {
    /// Parenthesized values, as in `Name(Payload)`.
    Unnamed(Vec<TypeExpr>),
    /// Braced named fields; not a supported variant shape.
    Named(Vec<FieldDecl>),
    /// No associated value; not a supported variant shape.
    Unit,
}

/// One declared enum variant.
#[derive(Debug, PartialEq, Eq)]
pub struct VariantDecl {
    pub name: String,
    pub fields: VariantFields,
}

/// The declared shape of a native type.
#[derive(Debug, PartialEq, Eq)]
pub enum TypeShape {
    Struct(Vec<FieldDecl>),
    Enum(Vec<VariantDecl>),
    /// A union; not supported by the generator.
    Union,
}

/// The declaration of one native type.
#[derive(Debug, PartialEq, Eq)]
pub struct TypeDecl {
    pub name: String,
    pub options: Vec<RawOption>,
    pub shape: TypeShape,
}

} // verus!
