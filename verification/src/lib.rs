//! A declarative struct/enum to external-schema mapping generator, with a
//! verified generic converter.
//!
//! One pass over a structured [`decl::TypeDecl`] validates its directives
//! and shape and produces a [`descriptor::ProtobufConvert`] descriptor:
//! the conversion plan for that type. The generic converter then gives
//! the plan its runtime meaning — `to_external` and `from_external`
//! between native values and external schema values — together with the
//! optional variant conversions and the serialization shim. The laws of
//! these conversions (round trips, skip semantics, error propagation) are
//! stated and proved in [`laws`] and [`conversions`].

pub mod convert;
pub mod conversions;
pub mod decl;
pub mod descriptor;
pub mod error;
pub mod laws;
pub mod names;
pub mod options;
pub mod shim;
pub mod value;

use vstd::prelude::*;
use crate::decl::TypeDecl;
use crate::descriptor::{s_build_type, DescView, ProtobufConvert};
use crate::error::{GenError, GenErrorView};

verus! {

/// Builds the conversion plan of one declared type: validates the
/// directives, checks the shape, and produces the descriptor the generic
/// converter consumes. Any failure aborts the whole type's generation;
/// nothing partial is produced.
pub fn implement_protobuf_convert(input: &TypeDecl) -> (r: Result<ProtobufConvert, GenError>)
    ensures
        match r {
            Ok(d) => s_build_type(*input) == Ok::<DescView, GenErrorView>(d@),
            Err(e) => s_build_type(*input) == Err::<DescView, GenErrorView>(e@),
        },
{
    ProtobufConvert::from_derive_input(input)
}

/// The generator's entry point: what deriving the conversion for one
/// declared type produces.
pub fn generate_protobuf_convert(input: &TypeDecl) -> (r: Result<ProtobufConvert, GenError>)
    ensures
        match r {
            Ok(d) => s_build_type(*input) == Ok::<DescView, GenErrorView>(d@),
            Err(e) => s_build_type(*input) == Err::<DescView, GenErrorView>(e@),
        },
{
    implement_protobuf_convert(input)
}

} // verus!
