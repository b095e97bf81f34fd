//! The generic converter: the runtime meaning of a descriptor.
//!
//! Consuming a descriptor, `to_external` turns a native value into a fresh
//! external value — field by field for structs, by populating exactly one
//! oneof case for enums — and `from_external` turns an external value back,
//! reporting a missing oneof discriminant, an unknown wire value at a
//! custom converter, or any nested failure.
//!
//! A `with` directive delegates one field to a custom converter, looked up
//! at runtime in a registry under the path the directive names. A
//! registered converter is a finite table pairing native values with their
//! wire values, together with the text its failure report starts with.

use vstd::prelude::*;
use crate::descriptor::{
    s_slot_name_of, DescView, EnumDescView, FieldDescView, ProtobufConvert, ValueType,
    ValueTypeView, VariantDescView,
};
use crate::error::{missing_variant_msg, unknown_converter_msg, unknown_wire_msg, ConversionError};
use crate::value::{
    external_view_of, lemma_native_views_of, native_view_of, native_views_of, slot_views_of,
    ExternalValue, ExternalView, NativeValue, NativeView, OneofCase, OneofCaseView, Slot, SlotView,
};
use crate::descriptor::{
    field_desc_view_of, variant_desc_view_of, ProtobufConvertEnum, ProtobufConvertStruct,
};

verus! {

/// One row of a converter table: a native value and its wire value.
#[derive(Debug, PartialEq, Eq)]
pub struct ConvEntry {
    pub native: NativeValue,
    pub wire: u32,
}

/// A custom converter, registered under the path a `with` directive names:
/// a finite table of native/wire pairs, and the text its failure report
/// starts with when a wire value is not in the table.
#[derive(Debug, PartialEq, Eq)]
pub struct NamedConverter {
    pub path: String,
    pub entries: Vec<ConvEntry>,
    pub error_prefix: String,
}

/// Mathematical model of a [`ConvEntry`].
#[verifier::ext_equal]
pub struct ConvEntryView {
    pub native: NativeView,
    pub wire: u32,
}

/// Mathematical model of a [`NamedConverter`].
#[verifier::ext_equal]
pub struct ConverterView {
    pub path: Seq<char>,
    pub entries: Seq<ConvEntryView>,
    pub error_prefix: Seq<char>,
}

impl View for ConvEntry {
    type V = ConvEntryView;

    open spec fn view(&self) -> ConvEntryView {
        ConvEntryView { native: native_view_of(self.native), wire: self.wire }
    }
}

impl View for NamedConverter {
    type V = ConverterView;

    open spec fn view(&self) -> ConverterView {
        ConverterView {
            path: self.path@,
            entries: Seq::new(self.entries@.len(), |i: int| self.entries@[i]@),
            error_prefix: self.error_prefix@,
        }
    }
}

/// Model of a converter registry.
pub open spec fn reg_views(reg: Seq<NamedConverter>) -> Seq<ConverterView> {
    Seq::new(reg.len(), |i: int| reg[i]@)
}

/// The first registered converter under `path`, if any.
pub open spec fn s_find_converter(reg: Seq<ConverterView>, path: Seq<char>) -> Option<
    ConverterView,
>
    decreases reg.len(),
{
    if reg.len() == 0 {
        None
    } else if reg[0].path == path {
        Some(reg[0])
    } else {
        s_find_converter(reg.drop_first(), path)
    }
}

/// The wire value of the first table row holding `v`, if any.
pub open spec fn s_wire_of(entries: Seq<ConvEntryView>, v: NativeView) -> Option<u32>
    decreases entries.len(),
{
    if entries.len() == 0 {
        None
    } else if entries[0].native == v {
        Some(entries[0].wire)
    } else {
        s_wire_of(entries.drop_first(), v)
    }
}

/// The native value of the first table row holding wire value `w`, if any.
pub open spec fn s_native_of_wire(entries: Seq<ConvEntryView>, w: u32) -> Option<NativeView>
    decreases entries.len(),
{
    if entries.len() == 0 {
        None
    } else if entries[0].wire == w {
        Some(entries[0].native)
    } else {
        s_native_of_wire(entries.drop_first(), w)
    }
}

/// A table is coherent when no wire value appears in two rows: converting
/// a native value out and back then recovers that value.
pub open spec fn s_table_ok(entries: Seq<ConvEntryView>) -> bool {
    forall|i: int, j: int|
        0 <= i < j < entries.len() ==> entries[i].wire != entries[j].wire
}

/// A registry is coherent when each of its tables is.
pub open spec fn s_reg_ok(reg: Seq<ConverterView>) -> bool {
    forall|k: int| 0 <= k < reg.len() ==> s_table_ok((#[trigger] reg[k]).entries)
}

/// Whether values of this type have a default: scalars do, a struct does
/// when all its fields do, an enum does not.
pub open spec fn s_defaultable(ty: ValueTypeView) -> bool
    decreases ty,
{
    match ty {
        ValueTypeView::U32 => true,
        ValueTypeView::Text => true,
        ValueTypeView::Message(d) => match *d {
            DescView::Struct(s) => s_defaultable_fields(s.fields),
            DescView::Enum(_) => false,
        },
    }
}

/// Whether every field of a struct has a defaultable type.
pub open spec fn s_defaultable_fields(fds: Seq<FieldDescView>) -> bool
    decreases fds,
{
    fds.len() == 0 || (s_defaultable(fds[0].ty) && s_defaultable_fields(fds.drop_first()))
}

/// The default native value of a defaultable type: zero, the empty text,
/// or the struct of its fields' defaults.
pub open spec fn s_native_default(ty: ValueTypeView) -> NativeView
    recommends
        s_defaultable(ty),
    decreases ty,
{
    match ty {
        ValueTypeView::U32 => NativeView::U32(0),
        ValueTypeView::Text => NativeView::Text(Seq::empty()),
        ValueTypeView::Message(d) => match *d {
            DescView::Struct(s) => NativeView::Record(s_native_defaults(s.fields)),
            DescView::Enum(_) => NativeView::U32(0),
        },
    }
}

/// The default native values of a struct's fields, in order.
pub open spec fn s_native_defaults(fds: Seq<FieldDescView>) -> Seq<NativeView>
    decreases fds,
{
    if fds.len() == 0 {
        Seq::empty()
    } else {
        seq![s_native_default(fds[0].ty)] + s_native_defaults(fds.drop_first())
    }
}

/// The default external value of a slot of this native type: what reading
/// a slot that was never set yields.
pub open spec fn s_default_ext(ty: ValueTypeView) -> ExternalView {
    match ty {
        ValueTypeView::U32 => ExternalView::U32(0),
        ValueTypeView::Text => ExternalView::Text(Seq::empty()),
        ValueTypeView::Message(d) => match *d {
            DescView::Struct(_) => ExternalView::Message(Seq::empty()),
            DescView::Enum(_) => ExternalView::Oneof(None),
        },
    }
}

/// The value of the first slot bound to `name`, if any.
pub open spec fn s_slot_get(slots: Seq<SlotView>, name: Seq<char>) -> Option<ExternalView>
    decreases slots.len(),
{
    if slots.len() == 0 {
        None
    } else if slots[0].name == name {
        Some(slots[0].value)
    } else {
        s_slot_get(slots.drop_first(), name)
    }
}

/// The wire value a registered custom converter gives a native value.
pub open spec fn s_custom_wire(reg: Seq<ConverterView>, path: Seq<char>, v: NativeView) -> u32 {
    match s_find_converter(reg, path) {
        Some(c) => match s_wire_of(c.entries, v) {
            Some(w) => w,
            None => 0,
        },
        None => 0,
    }
}

/// A native value conforms to a type when its shape is the type's shape:
/// scalars are of the scalar kind, a struct value has one well-formed
/// value per field, an enum value holds a variant index in range with a
/// conforming payload. A skipped field's type must be defaultable, and a
/// custom-converted field's value must lie in the domain of a registered
/// converter table.
pub open spec fn s_wf_native(ty: ValueTypeView, v: NativeView, reg: Seq<ConverterView>) -> bool
    decreases ty,
{
    match ty {
        ValueTypeView::U32 => v is U32,
        ValueTypeView::Text => v is Text,
        ValueTypeView::Message(d) => match *d {
            DescView::Struct(s) => match v {
                NativeView::Record(fs) => s_wf_fields(s.fields, fs, reg),
                _ => false,
            },
            DescView::Enum(e) => match v {
                NativeView::Variant(t, p) => 0 <= t < e.variants.len() && s_wf_native(
                    e.variants[t].payload,
                    *p,
                    reg,
                ),
                _ => false,
            },
        },
    }
}

/// The field values of a struct conform to its fields, in order.
pub open spec fn s_wf_fields(
    fds: Seq<FieldDescView>,
    vs: Seq<NativeView>,
    reg: Seq<ConverterView>,
) -> bool
    decreases fds,
{
    &&& vs.len() == fds.len()
    &&& (fds.len() == 0 || (s_wf_field(fds[0], vs[0], reg) && s_wf_fields(
        fds.drop_first(),
        vs.drop_first(),
        reg,
    )))
}

/// One field value conforms to its field descriptor. A skipped field's
/// value is ignored and unconstrained.
pub open spec fn s_wf_field(f: FieldDescView, v: NativeView, reg: Seq<ConverterView>) -> bool
    decreases f,
{
    if f.skip {
        true
    } else {
        match f.with {
            Some(p) => match s_find_converter(reg, p) {
                Some(c) => s_wire_of(c.entries, v) is Some,
                None => false,
            },
            None => s_wf_native(f.ty, v, reg),
        }
    }
}

/// An external value conforms to a type when its shape is the external
/// shape of the type: a struct's message holds, for each field whose slot
/// is present, a conforming slot value (a wire value for custom-converted
/// fields); an enum's oneof carrier is empty or holds a case naming one of
/// the variants with a conforming payload.
pub open spec fn s_wf_ext(ty: ValueTypeView, x: ExternalView) -> bool
    decreases ty,
{
    match ty {
        ValueTypeView::U32 => x is U32,
        ValueTypeView::Text => x is Text,
        ValueTypeView::Message(d) => match *d {
            DescView::Struct(s) => match x {
                ExternalView::Message(slots) => s_wf_slots(s.fields, slots),
                _ => false,
            },
            DescView::Enum(e) => match x {
                ExternalView::Oneof(c) => match c {
                    None => true,
                    Some(cc) => {
                        let i = s_variant_index(e, cc.slot);
                        0 <= i < e.variants.len() && s_wf_ext(e.variants[i].payload, *cc.value)
                    },
                },
                _ => false,
            },
        },
    }
}

/// Each present slot of a struct's message conforms to its field.
pub open spec fn s_wf_slots(fds: Seq<FieldDescView>, slots: Seq<SlotView>) -> bool
    decreases fds,
{
    fds.len() == 0 || (s_wf_slot(fds[0], slots) && s_wf_slots(fds.drop_first(), slots))
}

/// The slot of one field, if present, conforms to the field.
pub open spec fn s_wf_slot(f: FieldDescView, slots: Seq<SlotView>) -> bool
    decreases f,
{
    if f.skip {
        true
    } else {
        match f.with {
            Some(_) => match s_slot_get(slots, f.name) {
                None => true,
                Some(x) => x is U32,
            },
            None => match s_slot_get(slots, f.name) {
                None => true,
                Some(x) => s_wf_ext(f.ty, x),
            },
        }
    }
}

/// The index of the first variant whose slot name is `slot`, searching
/// from position `k`; the number of variants when none matches.
pub open spec fn s_variant_index_from(e: EnumDescView, slot: Seq<char>, k: int) -> int
    decreases e.variants.len() - k,
{
    if k >= e.variants.len() {
        e.variants.len() as int
    } else if s_slot_name_of(e.rename, e.variants[k].name) == slot {
        k
    } else {
        s_variant_index_from(e, slot, k + 1)
    }
}

/// The index of the first variant whose slot name is `slot`; the number of
/// variants when none matches.
pub open spec fn s_variant_index(e: EnumDescView, slot: Seq<char>) -> int {
    s_variant_index_from(e, slot, 0)
}

/// What converting a conforming native value of type `ty` to the external
/// representation yields.
pub open spec fn s_to_ext(ty: ValueTypeView, v: NativeView, reg: Seq<ConverterView>) -> ExternalView
    recommends
        s_wf_native(ty, v, reg),
    decreases ty,
{
    match ty {
        ValueTypeView::U32 => match v {
            NativeView::U32(n) => ExternalView::U32(n),
            _ => ExternalView::U32(0),
        },
        ValueTypeView::Text => match v {
            NativeView::Text(s) => ExternalView::Text(s),
            _ => ExternalView::Text(Seq::empty()),
        },
        ValueTypeView::Message(d) => match *d {
            DescView::Struct(s) => ExternalView::Message(
                s_to_slots(
                    s.fields,
                    match v {
                        NativeView::Record(fs) => fs,
                        _ => Seq::empty(),
                    },
                    reg,
                ),
            ),
            DescView::Enum(e) => match v {
                NativeView::Variant(t, p) => if 0 <= t < e.variants.len() {
                    ExternalView::Oneof(
                        Some(
                            OneofCaseView {
                                slot: s_slot_name_of(e.rename, e.variants[t].name),
                                value: Box::new(s_to_ext(e.variants[t].payload, *p, reg)),
                            },
                        ),
                    )
                } else {
                    ExternalView::Oneof(None)
                },
                _ => ExternalView::Oneof(None),
            },
        },
    }
}

/// The slots that converting a struct's field values sets, in field
/// order: skipped fields set no slot, custom-converted fields set their
/// wire value, the rest set the structural conversion of their value.
pub open spec fn s_to_slots(
    fds: Seq<FieldDescView>,
    vs: Seq<NativeView>,
    reg: Seq<ConverterView>,
) -> Seq<SlotView>
    decreases fds,
{
    if fds.len() == 0 {
        Seq::empty()
    } else {
        let f = fds[0];
        let rest = s_to_slots(fds.drop_first(), vs.drop_first(), reg);
        if f.skip {
            rest
        } else {
            match f.with {
                Some(p) => seq![
                    SlotView { name: f.name, value: ExternalView::U32(s_custom_wire(reg, p, vs[0])) },
                ] + rest,
                None => seq![SlotView { name: f.name, value: s_to_ext(f.ty, vs[0], reg) }] + rest,
            }
        }
    }
}

/// What converting a conforming external value of type `ty` back to the
/// native representation yields: the native value, or the message of the
/// first conversion failure.
pub open spec fn s_from_ext(ty: ValueTypeView, x: ExternalView, reg: Seq<ConverterView>) -> Result<
    NativeView,
    Seq<char>,
>
    recommends
        s_wf_ext(ty, x),
    decreases ty,
{
    match ty {
        ValueTypeView::U32 => Ok(
            NativeView::U32(
                match x {
                    ExternalView::U32(n) => n,
                    _ => 0,
                },
            ),
        ),
        ValueTypeView::Text => Ok(
            NativeView::Text(
                match x {
                    ExternalView::Text(s) => s,
                    _ => Seq::empty(),
                },
            ),
        ),
        ValueTypeView::Message(d) => match *d {
            DescView::Struct(s) => match s_from_fields(
                s.fields,
                match x {
                    ExternalView::Message(slots) => slots,
                    _ => Seq::empty(),
                },
                reg,
            ) {
                Ok(vs) => Ok(NativeView::Record(vs)),
                Err(m) => Err(m),
            },
            DescView::Enum(e) => match x {
                ExternalView::Oneof(c) => match c {
                    None => Err(missing_variant_msg(e.name)),
                    Some(cc) => {
                        let i = s_variant_index(e, cc.slot);
                        if 0 <= i < e.variants.len() {
                            match s_from_ext(e.variants[i].payload, *cc.value, reg) {
                                Ok(p) => Ok(NativeView::Variant(i, Box::new(p))),
                                Err(m) => Err(m),
                            }
                        } else {
                            Err(missing_variant_msg(e.name))
                        }
                    },
                },
                _ => Err(missing_variant_msg(e.name)),
            },
        },
    }
}

/// What converting a struct's remaining fields back yields, reading the
/// full slot list; the first failure aborts.
pub open spec fn s_from_fields(
    fds: Seq<FieldDescView>,
    slots: Seq<SlotView>,
    reg: Seq<ConverterView>,
) -> Result<Seq<NativeView>, Seq<char>>
    decreases fds,
{
    if fds.len() == 0 {
        Ok(Seq::empty())
    } else {
        match s_from_field(fds[0], slots, reg) {
            Err(m) => Err(m),
            Ok(v) => match s_from_fields(fds.drop_first(), slots, reg) {
                Err(m) => Err(m),
                Ok(rest) => Ok(seq![v] + rest),
            },
        }
    }
}

/// What converting one field back yields: a skipped field is its type's
/// default and reads no slot; a custom-converted field reads its wire
/// value and looks it up in the registered table, failing with the table's
/// report on an unknown wire value and failing when no converter is
/// registered under the path; any other field structurally converts its
/// slot value, the slot type's default standing in for an absent slot.
pub open spec fn s_from_field(
    f: FieldDescView,
    slots: Seq<SlotView>,
    reg: Seq<ConverterView>,
) -> Result<NativeView, Seq<char>>
    decreases f,
{
    if f.skip {
        Ok(s_native_default(f.ty))
    } else {
        match f.with {
            Some(p) => match s_find_converter(reg, p) {
                None => Err(unknown_converter_msg(p)),
                Some(c) => {
                    let w = match s_slot_get(slots, f.name) {
                        Some(x) => match x {
                            ExternalView::U32(n) => n,
                            _ => 0,
                        },
                        None => 0,
                    };
                    match s_native_of_wire(c.entries, w) {
                        Some(n) => Ok(n),
                        None => Err(unknown_wire_msg(c.error_prefix, w as int)),
                    }
                },
            },
            None => s_from_ext(
                f.ty,
                match s_slot_get(slots, f.name) {
                    Some(x) => x,
                    None => s_default_ext(f.ty),
                },
                reg,
            ),
        }
    }
}

/// The native value that a round trip reproduces: the value itself, with
/// every skipped field — at any depth — reset to its type's default.
pub open spec fn s_scrub(ty: ValueTypeView, v: NativeView) -> NativeView
    decreases ty,
{
    match ty {
        ValueTypeView::U32 => v,
        ValueTypeView::Text => v,
        ValueTypeView::Message(d) => match *d {
            DescView::Struct(s) => match v {
                NativeView::Record(fs) => NativeView::Record(s_scrub_fields(s.fields, fs)),
                _ => v,
            },
            DescView::Enum(e) => match v {
                NativeView::Variant(t, p) => if 0 <= t < e.variants.len() {
                    NativeView::Variant(t, Box::new(s_scrub(e.variants[t].payload, *p)))
                } else {
                    v
                },
                _ => v,
            },
        },
    }
}

/// The field values that a round trip reproduces, in order.
pub open spec fn s_scrub_fields(fds: Seq<FieldDescView>, vs: Seq<NativeView>) -> Seq<NativeView>
    decreases fds,
{
    if fds.len() == 0 {
        Seq::empty()
    } else {
        seq![s_scrub_field(fds[0], vs[0])] + s_scrub_fields(fds.drop_first(), vs.drop_first())
    }
}

/// The value of one field after a round trip: the default for a skipped
/// field, the value itself for a custom-converted field, and the
/// recursively scrubbed value otherwise.
pub open spec fn s_scrub_field(f: FieldDescView, v: NativeView) -> NativeView
    decreases f,
{
    if f.skip {
        s_native_default(f.ty)
    } else {
        match f.with {
            Some(_) => v,
            None => s_scrub(f.ty, v),
        }
    }
}

/// The names of a type are unambiguous: within each struct the field
/// names are pairwise distinct, within each enum the resolved oneof slot
/// names are pairwise distinct, recursively at every depth.
pub open spec fn s_names_ok(ty: ValueTypeView) -> bool
    decreases ty,
{
    match ty {
        ValueTypeView::U32 => true,
        ValueTypeView::Text => true,
        ValueTypeView::Message(d) => match *d {
            DescView::Struct(s) => {
                &&& forall|i: int, j: int|
                    0 <= i < j < s.fields.len() ==> s.fields[i].name != s.fields[j].name
                &&& s_names_ok_fields(s.fields)
            },
            DescView::Enum(e) => {
                &&& forall|i: int, j: int|
                    0 <= i < j < e.variants.len() ==> s_slot_name_of(
                        e.rename,
                        e.variants[i].name,
                    ) != s_slot_name_of(e.rename, e.variants[j].name)
                &&& s_names_ok_variants(e.variants)
            },
        },
    }
}

/// The names of every field's type are unambiguous.
pub open spec fn s_names_ok_fields(fds: Seq<FieldDescView>) -> bool
    decreases fds,
{
    fds.len() == 0 || (s_names_ok(fds[0].ty) && s_names_ok_fields(fds.drop_first()))
}

/// The names of every variant's payload type are unambiguous.
pub open spec fn s_names_ok_variants(vs: Seq<VariantDescView>) -> bool
    decreases vs,
{
    vs.len() == 0 || (s_names_ok(vs[0].payload) && s_names_ok_variants(vs.drop_first()))
}

/// Every skipped field of the type — at any depth — has a defaultable
/// type, so that converting back can reconstruct it.
pub open spec fn s_skips_ok(ty: ValueTypeView) -> bool
    decreases ty,
{
    match ty {
        ValueTypeView::U32 => true,
        ValueTypeView::Text => true,
        ValueTypeView::Message(d) => match *d {
            DescView::Struct(s) => s_skips_ok_fields(s.fields),
            DescView::Enum(e) => s_skips_ok_variants(e.variants),
        },
    }
}

/// Every skipped field among these fields has a defaultable type.
pub open spec fn s_skips_ok_fields(fds: Seq<FieldDescView>) -> bool
    decreases fds,
{
    fds.len() == 0 || (s_skip_ok_field(fds[0]) && s_skips_ok_fields(fds.drop_first()))
}

/// One field's skip constraint: a skipped field's type is defaultable; a
/// structurally converted field's type meets the constraint recursively.
pub open spec fn s_skip_ok_field(f: FieldDescView) -> bool
    decreases f,
{
    if f.skip {
        s_defaultable(f.ty)
    } else {
        match f.with {
            Some(_) => true,
            None => s_skips_ok(f.ty),
        }
    }
}

/// Every skipped field of every variant payload has a defaultable type.
pub open spec fn s_skips_ok_variants(vs: Seq<VariantDescView>) -> bool
    decreases vs,
{
    vs.len() == 0 || (s_skips_ok(vs[0].payload) && s_skips_ok_variants(vs.drop_first()))
}

/// The external type of a whole descriptor, for the top-level calls.
pub open spec fn s_type_of(d: DescView) -> ValueTypeView {
    ValueTypeView::Message(Box::new(d))
}

/// Conforming field values exist exactly for conforming fields, one by
/// one.
pub proof fn lemma_wf_fields_index(
    fds: Seq<FieldDescView>,
    vs: Seq<NativeView>,
    reg: Seq<ConverterView>,
)
    requires
        s_wf_fields(fds, vs, reg),
    ensures
        vs.len() == fds.len(),
        forall|i: int| 0 <= i < fds.len() ==> s_wf_field(fds[i], vs[i], reg),
    decreases fds.len(),
{
    if fds.len() > 0 {
        lemma_wf_fields_index(fds.drop_first(), vs.drop_first(), reg);
        assert forall|i: int| 0 <= i < fds.len() implies s_wf_field(fds[i], vs[i], reg) by {
            if i > 0 {
                assert(s_wf_field(fds.drop_first()[i - 1], vs.drop_first()[i - 1], reg));
                assert(fds.drop_first()[i - 1] == fds[i]);
                assert(vs.drop_first()[i - 1] == vs[i]);
            }
        }
    }
}

/// A conforming message conforms at each field, one by one.
pub proof fn lemma_wf_slots_index(fds: Seq<FieldDescView>, slots: Seq<SlotView>)
    requires
        s_wf_slots(fds, slots),
    ensures
        forall|i: int| 0 <= i < fds.len() ==> s_wf_slot(fds[i], slots),
    decreases fds.len(),
{
    if fds.len() > 0 {
        lemma_wf_slots_index(fds.drop_first(), slots);
        assert forall|i: int| 0 <= i < fds.len() implies s_wf_slot(fds[i], slots) by {
            if i > 0 {
                assert(s_wf_slot(fds.drop_first()[i - 1], slots));
                assert(fds.drop_first()[i - 1] == fds[i]);
            }
        }
    }
}

/// The skip constraint holds at each field, one by one.
pub proof fn lemma_skips_ok_fields_index(fds: Seq<FieldDescView>)
    requires
        s_skips_ok_fields(fds),
    ensures
        forall|i: int| 0 <= i < fds.len() ==> s_skip_ok_field(fds[i]),
    decreases fds.len(),
{
    if fds.len() > 0 {
        lemma_skips_ok_fields_index(fds.drop_first());
        assert forall|i: int| 0 <= i < fds.len() implies s_skip_ok_field(fds[i]) by {
            if i > 0 {
                assert(s_skip_ok_field(fds.drop_first()[i - 1]));
                assert(fds.drop_first()[i - 1] == fds[i]);
            }
        }
    }
}

/// The skip constraint holds at each variant payload, one by one.
pub proof fn lemma_skips_ok_variants_index(vs: Seq<VariantDescView>)
    requires
        s_skips_ok_variants(vs),
    ensures
        forall|i: int| 0 <= i < vs.len() ==> s_skips_ok(vs[i].payload),
    decreases vs.len(),
{
    if vs.len() > 0 {
        lemma_skips_ok_variants_index(vs.drop_first());
        assert forall|i: int| 0 <= i < vs.len() implies s_skips_ok(vs[i].payload) by {
            if i > 0 {
                assert(s_skips_ok(vs.drop_first()[i - 1].payload));
                assert(vs.drop_first()[i - 1] == vs[i]);
            }
        }
    }
}

/// Defaultable fields are defaultable one by one.
pub proof fn lemma_defaultable_fields_index(fds: Seq<FieldDescView>)
    requires
        s_defaultable_fields(fds),
    ensures
        forall|i: int| 0 <= i < fds.len() ==> s_defaultable(fds[i].ty),
    decreases fds.len(),
{
    if fds.len() > 0 {
        lemma_defaultable_fields_index(fds.drop_first());
        assert forall|i: int| 0 <= i < fds.len() implies s_defaultable(fds[i].ty) by {
            if i > 0 {
                assert(s_defaultable(fds.drop_first()[i - 1].ty));
                assert(fds.drop_first()[i - 1] == fds[i]);
            }
        }
    }
}

/// The sequence of field defaults holds each field's default, in order.
pub proof fn lemma_native_defaults_index(fds: Seq<FieldDescView>)
    ensures
        s_native_defaults(fds).len() == fds.len(),
        forall|i: int|
            0 <= i < fds.len() ==> s_native_defaults(fds)[i] == s_native_default(fds[i].ty),
    decreases fds.len(),
{
    if fds.len() > 0 {
        lemma_native_defaults_index(fds.drop_first());
        assert forall|i: int| 0 <= i < fds.len() implies s_native_defaults(fds)[i]
            == s_native_default(fds[i].ty) by {
            if i > 0 {
                assert(s_native_defaults(fds)[i] == s_native_defaults(fds.drop_first())[i - 1]);
                assert(fds.drop_first()[i - 1] == fds[i]);
            }
        }
    }
}

/// The default external value of a type conforms to the type.
pub proof fn lemma_wf_ext_default(ty: ValueTypeView)
    ensures
        s_wf_ext(ty, s_default_ext(ty)),
{
    match ty {
        ValueTypeView::U32 => {},
        ValueTypeView::Text => {},
        ValueTypeView::Message(d) => match *d {
            DescView::Struct(s) => {
                lemma_wf_slots_empty(s.fields);
            },
            DescView::Enum(_) => {},
        },
    }
}

/// An empty message conforms to any field list: no slot is present.
pub proof fn lemma_wf_slots_empty(fds: Seq<FieldDescView>)
    ensures
        s_wf_slots(fds, Seq::empty()),
    decreases fds.len(),
{
    if fds.len() > 0 {
        lemma_wf_slots_empty(fds.drop_first());
        assert(s_slot_get(Seq::empty(), fds[0].name) is None);
        assert(s_wf_slot(fds[0], Seq::empty()));
    }
}

/// Finds the first converter registered under `path`.
#[verifier::loop_isolation(false)]
fn find_converter<'a>(reg: &'a Vec<NamedConverter>, path: &String) -> (r: Option<
    &'a NamedConverter,
>)
    ensures
        match r {
            Some(c) => s_find_converter(reg_views(reg@), path@) == Some(c@),
            None => s_find_converter(reg_views(reg@), path@) is None,
        },
{
    let mut i: usize = 0;
    proof {
        assert(reg_views(reg@).skip(0) =~= reg_views(reg@));
    }
    while i < reg.len()
        invariant
            i <= reg@.len(),
            s_find_converter(reg_views(reg@), path@) == s_find_converter(
                reg_views(reg@).skip(i as int),
                path@,
            ),
        decreases reg@.len() - i,
    {
        proof {
            assert(reg_views(reg@).skip(i as int)[0] == reg_views(reg@)[i as int]);
            assert(reg_views(reg@).skip(i as int).drop_first() =~= reg_views(reg@).skip(
                i as int + 1,
            ));
        }
        if reg[i].path == *path {
            return Some(&reg[i]);
        }
        i += 1;
    }
    None
}

/// Finds the wire value of the first table row holding `v`.
#[verifier::loop_isolation(false)]
fn wire_for(c: &NamedConverter, v: &NativeValue) -> (r: Option<u32>)
    ensures
        match r {
            Some(w) => s_wire_of(c@.entries, v@) == Some(w),
            None => s_wire_of(c@.entries, v@) is None,
        },
{
    let mut i: usize = 0;
    proof {
        assert(c@.entries.skip(0) =~= c@.entries);
    }
    while i < c.entries.len()
        invariant
            i <= c.entries@.len(),
            s_wire_of(c@.entries, v@) == s_wire_of(c@.entries.skip(i as int), v@),
        decreases c.entries@.len() - i,
    {
        proof {
            assert(c@.entries.skip(i as int)[0] == c@.entries[i as int]);
            assert(c@.entries.skip(i as int).drop_first() =~= c@.entries.skip(i as int + 1));
        }
        if c.entries[i].native.value_eq(v) {
            return Some(c.entries[i].wire);
        }
        i += 1;
    }
    None
}

/// Finds the native value of the first table row holding wire value `w`.
#[verifier::loop_isolation(false)]
fn native_for_wire<'a>(c: &'a NamedConverter, w: u32) -> (r: Option<&'a NativeValue>)
    ensures
        match r {
            Some(n) => s_native_of_wire(c@.entries, w) == Some(n@),
            None => s_native_of_wire(c@.entries, w) is None,
        },
{
    let mut i: usize = 0;
    proof {
        assert(c@.entries.skip(0) =~= c@.entries);
    }
    while i < c.entries.len()
        invariant
            i <= c.entries@.len(),
            s_native_of_wire(c@.entries, w) == s_native_of_wire(c@.entries.skip(i as int), w),
        decreases c.entries@.len() - i,
    {
        proof {
            assert(c@.entries.skip(i as int)[0] == c@.entries[i as int]);
            assert(c@.entries.skip(i as int).drop_first() =~= c@.entries.skip(i as int + 1));
        }
        if c.entries[i].wire == w {
            return Some(&c.entries[i].native);
        }
        i += 1;
    }
    None
}

/// Finds the value of the first slot bound to `name`.
#[verifier::loop_isolation(false)]
fn get_slot<'a>(slots: &'a Vec<Slot>, name: &String) -> (r: Option<&'a ExternalValue>)
    ensures
        match r {
            Some(x) => s_slot_get(slot_views_of(slots@), name@) == Some(x@),
            None => s_slot_get(slot_views_of(slots@), name@) is None,
        },
{
    broadcast use crate::value::group_value_views;

    let ghost sv = slot_views_of(slots@);
    let mut i: usize = 0;
    proof {
        assert(sv.skip(0) =~= sv);
    }
    while i < slots.len()
        invariant
            i <= slots@.len(),
            s_slot_get(sv, name@) == s_slot_get(sv.skip(i as int), name@),
        decreases slots@.len() - i,
    {
        proof {
            assert(sv.skip(i as int)[0] == sv[i as int]);
            assert(sv.skip(i as int).drop_first() =~= sv.skip(i as int + 1));
        }
        if slots[i].name == *name {
            return Some(&slots[i].value);
        }
        i += 1;
    }
    None
}

/// The default native value of a defaultable type.
#[verifier::loop_isolation(false)]
fn default_value(ty: &ValueType) -> (r: NativeValue)
    requires
        s_defaultable(ty@),
    ensures
        r@ == s_native_default(ty@),
    decreases *ty,
{
    broadcast use crate::value::group_value_views, crate::descriptor::group_desc_views;

    match ty {
        ValueType::U32 => NativeValue::U32(0),
        ValueType::Text => NativeValue::Text(String::new()),
        ValueType::Message(d) => match &**d {
            ProtobufConvert::Struct(sd) => {
                let ghost fview = crate::descriptor::field_desc_views_of(sd.fields@);
                proof {
                    lemma_defaultable_fields_index(fview);
                    lemma_native_defaults_index(fview);
                }
                let mut out: Vec<NativeValue> = Vec::new();
                let n = sd.fields.len();
                let mut i: usize = 0;
                while i < n
                    invariant
                        i <= n,
                        n == sd.fields@.len(),
                        out@.len() == i,
                        forall|j: int|
                            0 <= j < i ==> native_view_of(out@[j])
                                == s_native_default(fview[j].ty),
                    decreases n - i,
                {
                    proof {
                        assert(decreases_to!(*ty => (*ty)->Message_0));
                        assert(decreases_to!(**d => (**d)->Struct_0));
                        assert(decreases_to!(*sd => sd.fields));
                        assert(decreases_to!(sd.fields@ => sd.fields@[i as int]));
                        assert(fview[i as int].ty == crate::descriptor::value_type_view_of(
                            sd.fields@[i as int].ty,
                        ));
                    }
                    let item = default_value(&sd.fields[i].ty);
                    out.push(item);
                    i += 1;
                }
                proof {
                    lemma_native_views_of(out@);
                    assert(native_views_of(out@) =~= s_native_defaults(fview));
                }
                NativeValue::Record(out)
            },
            ProtobufConvert::Enum(_) => vstd::pervasive::unreached(),
        },
    }
}

/// The model of a conversion result.
pub open spec fn res_view(r: Result<NativeValue, ConversionError>) -> Result<
    NativeView,
    Seq<char>,
> {
    match r {
        Ok(v) => Ok(native_view_of(v)),
        Err(e) => Err(e@),
    }
}

/// The default external value of a slot of this native type.
fn default_ext(ty: &ValueType) -> (r: ExternalValue)
    ensures
        r@ == s_default_ext(ty@),
{
    broadcast use crate::value::group_value_views, crate::descriptor::group_desc_views;

    match ty {
        ValueType::U32 => ExternalValue::U32(0),
        ValueType::Text => ExternalValue::Text(String::new()),
        ValueType::Message(d) => match &**d {
            ProtobufConvert::Struct(_) => ExternalValue::Message(Vec::new()),
            ProtobufConvert::Enum(_) => ExternalValue::Oneof(None),
        },
    }
}

/// Converts a conforming native value of type `ty` into its external
/// representation.
fn value_to_external(ty: &ValueType, v: &NativeValue, reg: &Vec<NamedConverter>) -> (r:
    ExternalValue)
    requires
        s_wf_native(ty@, v@, reg_views(reg@)),
    ensures
        r@ == s_to_ext(ty@, v@, reg_views(reg@)),
    decreases *ty, 0int,
{
    broadcast use crate::value::group_value_views, crate::descriptor::group_desc_views;

    match ty {
        ValueType::U32 => match v {
            NativeValue::U32(n) => ExternalValue::U32(*n),
            _ => vstd::pervasive::unreached(),
        },
        ValueType::Text => match v {
            NativeValue::Text(s) => ExternalValue::Text(s.clone()),
            _ => vstd::pervasive::unreached(),
        },
        ValueType::Message(d) => {
            proof {
                assert(decreases_to!(*ty => (*ty)->Message_0));
            }
            match &**d {
                ProtobufConvert::Struct(sd) => {
                    proof {
                        assert(decreases_to!(**d => (**d)->Struct_0));
                    }
                    sd.to_external(v, reg)
                },
                ProtobufConvert::Enum(ed) => {
                    proof {
                        assert(decreases_to!(**d => (**d)->Enum_0));
                    }
                    ed.to_external(v, reg)
                },
            }
        },
    }
}

impl ProtobufConvertStruct {
    /// Converts a conforming struct value into a fresh external message:
    /// for each non-skipped field, in order, the field's slot is set — to
    /// the registered converter's wire value under a `with` directive, to
    /// the structural conversion of the field's value otherwise. Skipped
    /// fields set no slot.
    #[verifier::loop_isolation(false)]
    pub fn to_external(&self, v: &NativeValue, reg: &Vec<NamedConverter>) -> (r: ExternalValue)
        requires
            s_wf_native(
                ValueTypeView::Message(Box::new(DescView::Struct(self@))),
                v@,
                reg_views(reg@),
            ),
        ensures
            r@ == s_to_ext(
                ValueTypeView::Message(Box::new(DescView::Struct(self@))),
                v@,
                reg_views(reg@),
            ),
        decreases *self, 0int,
    {
        broadcast use crate::value::group_value_views, crate::descriptor::group_desc_views;

        let ghost regv = reg_views(reg@);
        let ghost fds = self@.fields;
        let fields_vec: &Vec<NativeValue> = match v {
            NativeValue::Record(fs) => fs,
            _ => vstd::pervasive::unreached(),
        };
        let ghost vs = native_views_of(fields_vec@);
        proof {
            lemma_wf_fields_index(fds, vs, regv);
        }
        let mut slots: Vec<Slot> = Vec::new();
        let n = self.fields.len();
        let mut i: usize = 0;
        proof {
            assert(fds.skip(0) =~= fds);
            assert(vs.skip(0) =~= vs);
            assert(slot_views_of(slots@) =~= Seq::<SlotView>::empty());
        }
        while i < n
            invariant
                i <= n,
                n == self.fields@.len(),
                fds.len() == n,
                vs.len() == n,
                s_to_slots(fds, vs, regv) == slot_views_of(slots@) + s_to_slots(
                    fds.skip(i as int),
                    vs.skip(i as int),
                    regv,
                ),
            decreases n - i,
        {
            proof {
                assert(fds.skip(i as int)[0] == fds[i as int]);
                assert(vs.skip(i as int)[0] == vs[i as int]);
                assert(fds.skip(i as int).drop_first() =~= fds.skip(i as int + 1));
                assert(vs.skip(i as int).drop_first() =~= vs.skip(i as int + 1));
                assert(fds[i as int] == field_desc_view_of(self.fields@[i as int]));
                assert(vs[i as int] == native_view_of(fields_vec@[i as int]));
                assert(s_wf_field(fds[i as int], vs[i as int], regv));
            }
            let f = &self.fields[i];
            let ghost prev = slots@;
            if f.attrs.skip {
                // no slot is set
            } else {
                match &f.attrs.with {
                    Some(p) => {
                        let c = match find_converter(reg, p) {
                            Some(c) => c,
                            None => vstd::pervasive::unreached(),
                        };
                        let w = match wire_for(c, &fields_vec[i]) {
                            Some(w) => w,
                            None => vstd::pervasive::unreached(),
                        };
                        proof {
                            assert(s_custom_wire(regv, p@, vs[i as int]) == w);
                        }
                        slots.push(Slot { name: f.name.clone(), value: ExternalValue::U32(w) });
                    },
                    None => {
                        let ev = value_to_external(&f.ty, &fields_vec[i], reg);
                        slots.push(Slot { name: f.name.clone(), value: ev });
                    },
                }
            }
            proof {
                if !fds[i as int].skip {
                    assert(slot_views_of(slots@) =~= slot_views_of(prev) + seq![
                        slot_views_of(slots@).last(),
                    ]);
                    assert(slot_views_of(prev) + (seq![slot_views_of(slots@).last()]
                        + s_to_slots(fds.skip(i as int + 1), vs.skip(i as int + 1), regv))
                        =~= slot_views_of(slots@) + s_to_slots(
                        fds.skip(i as int + 1),
                        vs.skip(i as int + 1),
                        regv,
                    ));
                }
            }
            i += 1;
        }
        proof {
            assert(fds.skip(n as int).len() == 0);
            assert(s_to_slots(fds, vs, regv) =~= slot_views_of(slots@));
        }
        ExternalValue::Message(slots)
    }
}

impl ProtobufConvertEnum {
    /// Converts a conforming enum value into a fresh external oneof
    /// carrier: exactly the case of the live variant — under its resolved
    /// slot name — is populated, with the structural conversion of the
    /// payload.
    pub fn to_external(&self, v: &NativeValue, reg: &Vec<NamedConverter>) -> (r: ExternalValue)
        requires
            s_wf_native(
                ValueTypeView::Message(Box::new(DescView::Enum(self@))),
                v@,
                reg_views(reg@),
            ),
        ensures
            r@ == s_to_ext(
                ValueTypeView::Message(Box::new(DescView::Enum(self@))),
                v@,
                reg_views(reg@),
            ),
        decreases *self, 0int,
    {
        broadcast use crate::value::group_value_views, crate::descriptor::group_desc_views;

        let (t, payload): (usize, &Box<NativeValue>) = match v {
            NativeValue::Variant(t, p) => (*t, p),
            _ => vstd::pervasive::unreached(),
        };
        proof {
            assert(self@.variants[t as int] == variant_desc_view_of(self.variants@[t as int]));
            assert(decreases_to!(*self => self.variants));
            assert(decreases_to!(self.variants@ => self.variants@[t as int]));
        }
        let variant = &self.variants[t];
        let name = self.get_variant_name(variant);
        let ev = value_to_external(&variant.payload, payload, reg);
        ExternalValue::Oneof(Some(OneofCase { slot: name, value: Box::new(ev) }))
    }
}

impl ProtobufConvert {
    /// Converts a conforming native value of the described type into its
    /// external representation.
    pub fn to_external(&self, v: &NativeValue, reg: &Vec<NamedConverter>) -> (r: ExternalValue)
        requires
            s_wf_native(s_type_of(self@), v@, reg_views(reg@)),
        ensures
            r@ == s_to_ext(s_type_of(self@), v@, reg_views(reg@)),
        decreases *self, 1int,
    {
        match self {
            ProtobufConvert::Struct(sd) => {
                proof {
                    assert(decreases_to!(*self => (*self)->Struct_0));
                }
                sd.to_external(v, reg)
            },
            ProtobufConvert::Enum(ed) => {
                proof {
                    assert(decreases_to!(*self => (*self)->Enum_0));
                }
                ed.to_external(v, reg)
            },
        }
    }
}

/// Converts a conforming external value of type `ty` back to the native
/// representation.
fn value_from_external(ty: &ValueType, x: &ExternalValue, reg: &Vec<NamedConverter>) -> (r: Result<
    NativeValue,
    ConversionError,
>)
    requires
        s_wf_ext(ty@, x@),
        s_skips_ok(ty@),
    ensures
        res_view(r) == s_from_ext(ty@, x@, reg_views(reg@)),
    decreases *ty, 0int,
{
    broadcast use crate::value::group_value_views, crate::descriptor::group_desc_views;

    match ty {
        ValueType::U32 => match x {
            ExternalValue::U32(n) => Ok(NativeValue::U32(*n)),
            _ => vstd::pervasive::unreached(),
        },
        ValueType::Text => match x {
            ExternalValue::Text(s) => Ok(NativeValue::Text(s.clone())),
            _ => vstd::pervasive::unreached(),
        },
        ValueType::Message(d) => {
            proof {
                assert(decreases_to!(*ty => (*ty)->Message_0));
            }
            match &**d {
                ProtobufConvert::Struct(sd) => {
                    proof {
                        assert(decreases_to!(**d => (**d)->Struct_0));
                    }
                    sd.from_external(x, reg)
                },
                ProtobufConvert::Enum(ed) => {
                    proof {
                        assert(decreases_to!(**d => (**d)->Enum_0));
                    }
                    ed.from_external(x, reg)
                },
            }
        },
    }
}

impl ProtobufConvertStruct {
    /// Converts a conforming external message back into a struct value:
    /// for each field, in order, a skipped field becomes its type's
    /// default; a `with` field's wire value is looked up in the registered
    /// table, failing with the table's report on an unknown wire value;
    /// any other field structurally converts its slot value, an absent
    /// slot reading as the slot type's default. The first failure aborts
    /// and is returned.
    #[verifier::loop_isolation(false)]
    pub fn from_external(&self, x: &ExternalValue, reg: &Vec<NamedConverter>) -> (r: Result<
        NativeValue,
        ConversionError,
    >)
        requires
            s_wf_ext(ValueTypeView::Message(Box::new(DescView::Struct(self@))), x@),
            s_skips_ok(ValueTypeView::Message(Box::new(DescView::Struct(self@)))),
        ensures
            res_view(r) == s_from_ext(
                ValueTypeView::Message(Box::new(DescView::Struct(self@))),
                x@,
                reg_views(reg@),
            ),
        decreases *self, 0int,
    {
        broadcast use crate::value::group_value_views, crate::descriptor::group_desc_views;

        let ghost regv = reg_views(reg@);
        let ghost fds = self@.fields;
        let slots_vec: &Vec<Slot> = match x {
            ExternalValue::Message(sl) => sl,
            _ => vstd::pervasive::unreached(),
        };
        let ghost slotsv = slot_views_of(slots_vec@);
        proof {
            lemma_wf_slots_index(fds, slotsv);
            lemma_skips_ok_fields_index(fds);
        }
        let mut out: Vec<NativeValue> = Vec::new();
        let n = self.fields.len();
        let mut i: usize = 0;
        proof {
            assert(fds.skip(0) =~= fds);
            assert(native_views_of(out@) =~= Seq::<NativeView>::empty());
        }
        while i < n
            invariant
                i <= n,
                n == self.fields@.len(),
                fds.len() == n,
                s_from_fields(fds, slotsv, regv) == (match s_from_fields(
                    fds.skip(i as int),
                    slotsv,
                    regv,
                ) {
                    Ok(rest) => Ok::<Seq<NativeView>, Seq<char>>(native_views_of(out@) + rest),
                    Err(m) => Err(m),
                }),
            decreases n - i,
        {
            proof {
                assert(fds.skip(i as int)[0] == fds[i as int]);
                assert(fds.skip(i as int).drop_first() =~= fds.skip(i as int + 1));
                assert(fds[i as int] == field_desc_view_of(self.fields@[i as int]));
                assert(s_wf_slot(fds[i as int], slotsv));
                assert(s_skip_ok_field(fds[i as int]));
            }
            let f = &self.fields[i];
            let ghost prev = out@;
            if f.attrs.skip {
                let item = default_value(&f.ty);
                out.push(item);
            } else {
                match &f.attrs.with {
                    Some(p) => {
                        let c = match find_converter(reg, p) {
                            Some(c) => c,
                            None => {
                                return Err(ConversionError::unknown_converter(p));
                            },
                        };
                        let w: u32 = match get_slot(slots_vec, &f.name) {
                            Some(x0) => match x0 {
                                ExternalValue::U32(n0) => *n0,
                                _ => vstd::pervasive::unreached(),
                            },
                            None => 0,
                        };
                        match native_for_wire(c, w) {
                            Some(nv) => {
                                let item = nv.deep_clone();
                                out.push(item);
                            },
                            None => {
                                return Err(ConversionError::unknown_wire(&c.error_prefix, w));
                            },
                        }
                    },
                    None => {
                        let sub = match get_slot(slots_vec, &f.name) {
                            Some(x0) => value_from_external(&f.ty, x0, reg),
                            None => {
                                let dx = default_ext(&f.ty);
                                proof {
                                    lemma_wf_ext_default(fds[i as int].ty);
                                }
                                value_from_external(&f.ty, &dx, reg)
                            },
                        };
                        match sub {
                            Ok(nv) => {
                                out.push(nv);
                            },
                            Err(e) => {
                                return Err(e);
                            },
                        }
                    },
                }
            }
            proof {
                crate::value::lemma_native_views_of(prev);
                lemma_native_views_of(out@);
                assert(native_views_of(out@) =~= native_views_of(prev) + seq![
                    native_views_of(out@).last(),
                ]);
                assert(s_from_field(fds[i as int], slotsv, regv) == Ok::<NativeView, Seq<char>>(
                    native_views_of(out@).last(),
                ));
                assert(native_views_of(prev) + (seq![native_views_of(out@).last()]
                    + (match s_from_fields(fds.skip(i as int + 1), slotsv, regv) {
                    Ok(rest) => rest,
                    Err(_) => Seq::empty(),
                })) =~= native_views_of(out@) + (match s_from_fields(
                    fds.skip(i as int + 1),
                    slotsv,
                    regv,
                ) {
                    Ok(rest) => rest,
                    Err(_) => Seq::empty(),
                }));
            }
            i += 1;
        }
        proof {
            assert(fds.skip(n as int).len() == 0);
        }
        Ok(NativeValue::Record(out))
    }
}

impl ProtobufConvertEnum {
    /// Converts a conforming external oneof carrier back into an enum
    /// value. An empty carrier fails with the error naming the native
    /// type; a populated case becomes the first variant whose resolved
    /// slot name matches, with the structural conversion of the wrapped
    /// payload, propagating any inner failure.
    #[verifier::loop_isolation(false)]
    pub fn from_external(&self, x: &ExternalValue, reg: &Vec<NamedConverter>) -> (r: Result<
        NativeValue,
        ConversionError,
    >)
        requires
            s_wf_ext(ValueTypeView::Message(Box::new(DescView::Enum(self@))), x@),
            s_skips_ok(ValueTypeView::Message(Box::new(DescView::Enum(self@)))),
        ensures
            res_view(r) == s_from_ext(
                ValueTypeView::Message(Box::new(DescView::Enum(self@))),
                x@,
                reg_views(reg@),
            ),
        decreases *self, 0int,
    {
        broadcast use crate::value::group_value_views, crate::descriptor::group_desc_views;

        let ghost ev = self@;
        let case: &OneofCase = match x {
            ExternalValue::Oneof(c) => match c {
                Some(cc) => cc,
                None => {
                    return Err(ConversionError::missing_variant(&self.name));
                },
            },
            _ => vstd::pervasive::unreached(),
        };
        let ghost slot = case.slot@;
        proof {
            lemma_skips_ok_variants_index(ev.variants);
        }
        let n = self.variants.len();
        let mut j: usize = 0;
        while j < n
            invariant
                j <= n,
                n == self.variants@.len(),
                s_variant_index(ev, slot) == s_variant_index_from(ev, slot, j as int),
            decreases n - j,
        {
            proof {
                assert(ev.variants[j as int] == variant_desc_view_of(self.variants@[j as int]));
            }
            let variant = &self.variants[j];
            let name = self.get_variant_name(variant);
            if name == case.slot {
                proof {
                    assert(s_variant_index_from(ev, slot, j as int) == j as int);
                    assert(s_wf_ext(ev.variants[j as int].payload, external_view_of(*case.value)));
                    assert(s_skips_ok(ev.variants[j as int].payload));
                    assert(decreases_to!(*self => self.variants));
                    assert(decreases_to!(self.variants@ => self.variants@[j as int]));
                }
                match value_from_external(&variant.payload, &case.value, reg) {
                    Ok(p) => {
                        return Ok(NativeValue::Variant(j, Box::new(p)));
                    },
                    Err(e) => {
                        return Err(e);
                    },
                }
            }
            j += 1;
        }
        proof {
            assert(s_variant_index_from(ev, slot, n as int) == n as int);
        }
        Err(ConversionError::missing_variant(&self.name))
    }
}

impl ProtobufConvert {
    /// Converts a conforming external value of the described type back to
    /// the native representation, reporting the first conversion failure.
    pub fn from_external(&self, x: &ExternalValue, reg: &Vec<NamedConverter>) -> (r: Result<
        NativeValue,
        ConversionError,
    >)
        requires
            s_wf_ext(s_type_of(self@), x@),
            s_skips_ok(s_type_of(self@)),
        ensures
            res_view(r) == s_from_ext(s_type_of(self@), x@, reg_views(reg@)),
        decreases *self, 1int,
    {
        match self {
            ProtobufConvert::Struct(sd) => {
                proof {
                    assert(decreases_to!(*self => (*self)->Struct_0));
                }
                sd.from_external(x, reg)
            },
            ProtobufConvert::Enum(ed) => {
                proof {
                    assert(decreases_to!(*self => (*self)->Enum_0));
                }
                ed.from_external(x, reg)
            },
        }
    }
}

} // verus!
