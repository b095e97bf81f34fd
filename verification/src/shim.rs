//! The serialization shim.
//!
//! When a type requests it (`serde_pb_convert`), its human-facing
//! serialization goes through the external representation rather than its
//! own fields: serializing delegates to `to_external` followed by the
//! external schema type's own serializer, and deserializing delegates to
//! the external schema type's own deserializer followed by
//! `from_external`, surfacing any conversion failure as a
//! deserialization error carrying the original error text. The external
//! type's own byte serializer is the collaborator's; the shim's part is
//! the two conversions around it, which stand here.

use vstd::prelude::*;
use crate::convert::{
    reg_views, res_view, s_from_ext, s_skips_ok, s_to_ext, s_type_of, s_wf_ext, s_wf_native,
    NamedConverter,
};
use crate::descriptor::ProtobufConvert;
use crate::error::ConversionError;
use crate::value::{ExternalValue, NativeValue};

verus! {

impl ProtobufConvert {
    /// The conversion half of serializing through the shim: the external
    /// value whose serialization is the native value's serialization.
    pub fn serde_encode(&self, v: &NativeValue, reg: &Vec<NamedConverter>) -> (r: ExternalValue)
        requires
            self@ is Struct ==> self@->Struct_0.serde_pb_convert,
            self@ is Enum ==> self@->Enum_0.serde_pb_convert,
            s_wf_native(s_type_of(self@), v@, reg_views(reg@)),
        ensures
            r@ == s_to_ext(s_type_of(self@), v@, reg_views(reg@)),
    {
        self.to_external(v, reg)
    }

    /// The conversion half of deserializing through the shim: what the
    /// external type's deserializer produced is converted back, and a
    /// conversion failure surfaces with its original error text.
    pub fn serde_decode(&self, x: &ExternalValue, reg: &Vec<NamedConverter>) -> (r: Result<
        NativeValue,
        ConversionError,
    >)
        requires
            self@ is Struct ==> self@->Struct_0.serde_pb_convert,
            self@ is Enum ==> self@->Enum_0.serde_pb_convert,
            s_wf_ext(s_type_of(self@), x@),
            s_skips_ok(s_type_of(self@)),
        ensures
            res_view(r) == s_from_ext(s_type_of(self@), x@, reg_views(reg@)),
    {
        self.from_external(x, reg)
    }
}

} // verus!
