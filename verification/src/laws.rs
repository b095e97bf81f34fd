//! The laws of the generated conversions.
//!
//! These public proofs state, once and for all descriptors, what the
//! converter guarantees: a conversion to the external representation and
//! back reproduces the original value with every skipped field reset to
//! its default — exactly, when nothing is skipped; a skipped field's value
//! never reaches the external representation; an enum populates exactly
//! one oneof case and is recovered from it; an empty oneof carrier fails
//! naming the native type; and a custom converter's failure is propagated
//! verbatim out of the containing struct's conversion.

use vstd::prelude::*;
use crate::convert::{
    s_custom_wire, s_find_converter, s_from_ext, s_from_field, s_from_fields, s_native_of_wire,
    s_names_ok, s_names_ok_fields, s_names_ok_variants, s_reg_ok, s_scrub, s_scrub_field,
    s_scrub_fields, s_skip_ok_field, s_skips_ok, s_skips_ok_fields, s_skips_ok_variants,
    s_slot_get, s_table_ok, s_to_ext, s_to_slots, s_wf_field, s_wf_native, s_wire_of,
    ConvEntryView, ConverterView,
};
use crate::convert::{
    lemma_skips_ok_fields_index, lemma_skips_ok_variants_index, lemma_wf_fields_index,
};
use crate::descriptor::{
    s_slot_name_of, DescView, EnumDescView, FieldDescView, ValueTypeView, VariantDescView,
};
use crate::error::{missing_variant_msg, unknown_wire_msg};
use crate::value::{ExternalView, NativeView, OneofCaseView, SlotView};

verus! {

/// The names constraint holds at each field's type, one by one.
pub proof fn lemma_names_ok_fields_index(fds: Seq<FieldDescView>)
    requires
        s_names_ok_fields(fds),
    ensures
        forall|i: int| 0 <= i < fds.len() ==> s_names_ok(fds[i].ty),
    decreases fds.len(),
{
    if fds.len() > 0 {
        lemma_names_ok_fields_index(fds.drop_first());
        assert forall|i: int| 0 <= i < fds.len() implies s_names_ok(fds[i].ty) by {
            if i > 0 {
                assert(s_names_ok(fds.drop_first()[i - 1].ty));
                assert(fds.drop_first()[i - 1] == fds[i]);
            }
        }
    }
}

/// The names constraint holds at each variant's payload, one by one.
pub proof fn lemma_names_ok_variants_index(vs: Seq<VariantDescView>)
    requires
        s_names_ok_variants(vs),
    ensures
        forall|i: int| 0 <= i < vs.len() ==> s_names_ok(vs[i].payload),
    decreases vs.len(),
{
    if vs.len() > 0 {
        lemma_names_ok_variants_index(vs.drop_first());
        assert forall|i: int| 0 <= i < vs.len() implies s_names_ok(vs[i].payload) by {
            if i > 0 {
                assert(s_names_ok(vs.drop_first()[i - 1].payload));
                assert(vs.drop_first()[i - 1] == vs[i]);
            }
        }
    }
}

/// A converter that lookup finds is one of the registry's converters.
pub proof fn lemma_find_converter_member(reg: Seq<ConverterView>, path: Seq<char>)
    requires
        s_find_converter(reg, path) is Some,
    ensures
        exists|k: int| 0 <= k < reg.len() && reg[k] == s_find_converter(reg, path)->Some_0,
    decreases reg.len(),
{
    if reg.len() > 0 && reg[0].path != path {
        lemma_find_converter_member(reg.drop_first(), path);
        let k0 = choose|k: int|
            0 <= k < reg.drop_first().len() && reg.drop_first()[k] == s_find_converter(
                reg.drop_first(),
                path,
            )->Some_0;
        assert(reg[k0 + 1] == reg.drop_first()[k0]);
    }
}

/// A wire value that lookup returns stands in some table row.
pub proof fn lemma_wire_of_member(entries: Seq<ConvEntryView>, v: NativeView, w: u32)
    requires
        s_wire_of(entries, v) == Some(w),
    ensures
        exists|i: int| 0 <= i < entries.len() && (#[trigger] entries[i]).wire == w,
    decreases entries.len(),
{
    if entries.len() > 0 && entries[0].native != v {
        lemma_wire_of_member(entries.drop_first(), v, w);
        let i0 = choose|i: int|
            0 <= i < entries.drop_first().len() && (#[trigger] entries.drop_first()[i]).wire == w;
        assert(entries[i0 + 1] == entries.drop_first()[i0]);
    }
}

/// In a coherent table, looking the wire value of `v` back up yields `v`
/// again: the table's two directions are mutually inverse on its domain.
pub proof fn lemma_table_roundtrip(entries: Seq<ConvEntryView>, v: NativeView)
    requires
        s_table_ok(entries),
        s_wire_of(entries, v) is Some,
    ensures
        s_native_of_wire(entries, s_wire_of(entries, v)->Some_0) == Some(v),
    decreases entries.len(),
{
    let w = s_wire_of(entries, v)->Some_0;
    if entries[0].native == v {
        assert(s_native_of_wire(entries, w) == Some(v));
    } else {
        let rest = entries.drop_first();
        assert forall|i: int, j: int| 0 <= i < j < rest.len() implies rest[i].wire
            != rest[j].wire by {
            assert(rest[i] == entries[i + 1]);
            assert(rest[j] == entries[j + 1]);
        }
        lemma_table_roundtrip(rest, v);
        lemma_wire_of_member(rest, v, w);
        let i0 = choose|i: int| 0 <= i < rest.len() && (#[trigger] rest[i]).wire == w;
        assert(rest[i0] == entries[i0 + 1]);
        assert(entries[0].wire != w);
    }
}

/// Reading a name that no field of this list carries out of the slots the
/// list sets finds nothing.
pub proof fn lemma_slot_get_absent(
    fds: Seq<FieldDescView>,
    vs: Seq<NativeView>,
    reg: Seq<ConverterView>,
    name: Seq<char>,
)
    requires
        forall|i: int| 0 <= i < fds.len() ==> (#[trigger] fds[i]).name != name,
    ensures
        s_slot_get(s_to_slots(fds, vs, reg), name) is None,
    decreases fds.len(),
{
    if fds.len() > 0 {
        assert forall|i: int| 0 <= i < fds.drop_first().len() implies (#[trigger] fds.drop_first()[
            i
        ]).name != name by {
            assert(fds.drop_first()[i] == fds[i + 1]);
        }
        lemma_slot_get_absent(fds.drop_first(), vs.drop_first(), reg, name);
        if !fds[0].skip {
            assert(s_to_slots(fds, vs, reg).drop_first() =~= s_to_slots(
                fds.drop_first(),
                vs.drop_first(),
                reg,
            ));
        }
    }
}

/// Reading field `k`'s name out of the slots that converting `vs` sets
/// yields: nothing for a skipped field, the wire value for a
/// custom-converted field, the structural conversion otherwise.
pub proof fn lemma_slot_get_to_slots(
    fds: Seq<FieldDescView>,
    vs: Seq<NativeView>,
    reg: Seq<ConverterView>,
    k: int,
)
    requires
        vs.len() == fds.len(),
        0 <= k < fds.len(),
        forall|i: int, j: int|
            0 <= i < j < fds.len() ==> (#[trigger] fds[i]).name != (#[trigger] fds[j]).name,
    ensures
        fds[k].skip ==> s_slot_get(s_to_slots(fds, vs, reg), fds[k].name) is None,
        !fds[k].skip && fds[k].with is Some ==> s_slot_get(s_to_slots(fds, vs, reg), fds[k].name)
            == Some(ExternalView::U32(s_custom_wire(reg, fds[k].with->Some_0, vs[k]))),
        !fds[k].skip && fds[k].with is None ==> s_slot_get(s_to_slots(fds, vs, reg), fds[k].name)
            == Some(s_to_ext(fds[k].ty, vs[k], reg)),
    decreases fds.len(),
{
    let slots = s_to_slots(fds, vs, reg);
    let rest = s_to_slots(fds.drop_first(), vs.drop_first(), reg);
    if k == 0 {
        if fds[0].skip {
            assert forall|i: int| 0 <= i < fds.drop_first().len() implies (#[trigger] fds
                .drop_first()[i]).name != fds[0].name by {
                assert(fds.drop_first()[i] == fds[i + 1]);
            }
            lemma_slot_get_absent(fds.drop_first(), vs.drop_first(), reg, fds[0].name);
        } else {
            assert(slots[0].name == fds[0].name);
        }
    } else {
        assert forall|i: int, j: int|
            0 <= i < j < fds.drop_first().len() implies (#[trigger] fds.drop_first()[i]).name
            != (#[trigger] fds.drop_first()[j]).name by {
            assert(fds.drop_first()[i] == fds[i + 1]);
            assert(fds.drop_first()[j] == fds[j + 1]);
        }
        lemma_slot_get_to_slots(fds.drop_first(), vs.drop_first(), reg, k - 1);
        assert(fds.drop_first()[k - 1] == fds[k]);
        assert(vs.drop_first()[k - 1] == vs[k]);
        if !fds[0].skip {
            assert(slots[0].name == fds[0].name);
            assert(fds[0].name != fds[k].name);
            assert(slots.drop_first() =~= rest);
            assert(s_slot_get(slots, fds[k].name) == s_slot_get(rest, fds[k].name));
        }
    }
}

/// When every field converts back to its scrubbed value, the whole field
/// list does, in order.
pub proof fn lemma_roundtrip_fields(
    fds: Seq<FieldDescView>,
    vs: Seq<NativeView>,
    slots: Seq<SlotView>,
    reg: Seq<ConverterView>,
)
    requires
        vs.len() == fds.len(),
        forall|i: int|
            0 <= i < fds.len() ==> s_from_field(#[trigger] fds[i], slots, reg) == Ok::<
                NativeView,
                Seq<char>,
            >(s_scrub_field(fds[i], vs[i])),
    ensures
        s_from_fields(fds, slots, reg) == Ok::<Seq<NativeView>, Seq<char>>(
            s_scrub_fields(fds, vs),
        ),
    decreases fds.len(),
{
    if fds.len() > 0 {
        assert forall|i: int| 0 <= i < fds.drop_first().len() implies s_from_field(
            #[trigger] fds.drop_first()[i],
            slots,
            reg,
        ) == Ok::<NativeView, Seq<char>>(
            s_scrub_field(fds.drop_first()[i], vs.drop_first()[i]),
        ) by {
            assert(fds.drop_first()[i] == fds[i + 1]);
            assert(vs.drop_first()[i] == vs[i + 1]);
        }
        lemma_roundtrip_fields(fds.drop_first(), vs.drop_first(), slots, reg);
    }
}

/// The first variant whose slot name is variant `t`'s slot name is `t`
/// itself, when slot names are pairwise distinct; searched from any
/// position at or before `t`.
pub proof fn lemma_variant_index_self(e: EnumDescView, t: int, k: int)
    requires
        0 <= k <= t < e.variants.len(),
        forall|i: int, j: int|
            0 <= i < j < e.variants.len() ==> s_slot_name_of(
                e.rename,
                (#[trigger] e.variants[i]).name,
            ) != s_slot_name_of(e.rename, (#[trigger] e.variants[j]).name),
    ensures
        crate::convert::s_variant_index_from(
            e,
            s_slot_name_of(e.rename, e.variants[t].name),
            k,
        ) == t,
    decreases t - k,
{
    if k < t {
        lemma_variant_index_self(e, t, k + 1);
    }
}

/// ROUND TRIP WITH SKIPS. Converting a conforming native value to the
/// external representation and back succeeds and yields the value with
/// every skipped field — at any depth — reset to its type's default,
/// provided the type's names are unambiguous, its skipped fields are
/// defaultable, and the registry's tables are coherent.
pub proof fn lemma_roundtrip_value(ty: ValueTypeView, v: NativeView, reg: Seq<ConverterView>)
    requires
        s_wf_native(ty, v, reg),
        s_skips_ok(ty),
        s_names_ok(ty),
        s_reg_ok(reg),
    ensures
        s_from_ext(ty, s_to_ext(ty, v, reg), reg) == Ok::<NativeView, Seq<char>>(s_scrub(ty, v)),
    decreases ty,
{
    match ty {
        ValueTypeView::U32 => {},
        ValueTypeView::Text => {},
        ValueTypeView::Message(d) => {
            match *d {
                DescView::Struct(s) => {
                    let fds = s.fields;
                    let vs = v->Record_0;
                    let slots = s_to_slots(fds, vs, reg);
                    lemma_wf_fields_index(fds, vs, reg);
                    lemma_skips_ok_fields_index(fds);
                    lemma_names_ok_fields_index(fds);
                    assert forall|i: int| 0 <= i < fds.len() implies s_from_field(
                        #[trigger] fds[i],
                        slots,
                        reg,
                    ) == Ok::<NativeView, Seq<char>>(s_scrub_field(fds[i], vs[i])) by {
                        lemma_slot_get_to_slots(fds, vs, reg, i);
                        let f = fds[i];
                        if f.skip {
                        } else {
                            match f.with {
                                Some(p) => {
                                    let c = s_find_converter(reg, p)->Some_0;
                                    let w = s_wire_of(c.entries, vs[i])->Some_0;
                                    assert(s_custom_wire(reg, p, vs[i]) == w);
                                    lemma_find_converter_member(reg, p);
                                    let k0 = choose|k: int|
                                        0 <= k < reg.len() && reg[k] == s_find_converter(
                                            reg,
                                            p,
                                        )->Some_0;
                                    assert(s_table_ok(reg[k0].entries));
                                    lemma_table_roundtrip(c.entries, vs[i]);
                                },
                                None => {
                                    assert(decreases_to!(ty => f.ty)) by {
                                        assert(decreases_to!(s.fields => s.fields[i]));
                                    }
                                    lemma_roundtrip_value(f.ty, vs[i], reg);
                                },
                            }
                        }
                    }
                    lemma_roundtrip_fields(fds, vs, slots, reg);
                },
                DescView::Enum(e) => {
                    let t = v->Variant_0;
                    let p = *v->Variant_1;
                    let slot = s_slot_name_of(e.rename, e.variants[t].name);
                    lemma_variant_index_self(e, t, 0);
                    lemma_skips_ok_variants_index(e.variants);
                    lemma_names_ok_variants_index(e.variants);
                    assert(decreases_to!(ty => e.variants[t].payload)) by {
                        assert(decreases_to!(e.variants => e.variants[t]));
                    }
                    lemma_roundtrip_value(e.variants[t].payload, p, reg);
                },
            }
        },
    }
}

/// No field of the type — at any depth on the structural path — carries
/// the skip directive.
pub open spec fn s_no_skips(ty: ValueTypeView) -> bool
    decreases ty,
{
    match ty {
        ValueTypeView::U32 => true,
        ValueTypeView::Text => true,
        ValueTypeView::Message(d) => match *d {
            DescView::Struct(s) => s_no_skips_fields(s.fields),
            DescView::Enum(e) => s_no_skips_variants(e.variants),
        },
    }
}

/// No field among these carries the skip directive.
pub open spec fn s_no_skips_fields(fds: Seq<FieldDescView>) -> bool
    decreases fds,
{
    fds.len() == 0 || (!fds[0].skip && (fds[0].with is Some || s_no_skips(fds[0].ty))
        && s_no_skips_fields(fds.drop_first()))
}

/// No variant payload's type has a skipped field.
pub open spec fn s_no_skips_variants(vs: Seq<VariantDescView>) -> bool
    decreases vs,
{
    vs.len() == 0 || (s_no_skips(vs[0].payload) && s_no_skips_variants(vs.drop_first()))
}

/// A type with no skipped fields trivially meets the skip constraint.
pub proof fn lemma_no_skips_skips_ok(ty: ValueTypeView)
    requires
        s_no_skips(ty),
    ensures
        s_skips_ok(ty),
    decreases ty, 1int,
{
    match ty {
        ValueTypeView::U32 => {},
        ValueTypeView::Text => {},
        ValueTypeView::Message(d) => match *d {
            DescView::Struct(s) => {
                lemma_no_skips_skips_ok_fields(s.fields);
            },
            DescView::Enum(e) => {
                lemma_no_skips_skips_ok_variants(e.variants);
            },
        },
    }
}

/// Field lists with no skips meet the skip constraint.
pub proof fn lemma_no_skips_skips_ok_fields(fds: Seq<FieldDescView>)
    requires
        s_no_skips_fields(fds),
    ensures
        s_skips_ok_fields(fds),
    decreases fds, 0int,
{
    if fds.len() > 0 {
        if fds[0].with is None {
            assert(decreases_to!(fds => fds[0]));
            lemma_no_skips_skips_ok(fds[0].ty);
        }
        lemma_no_skips_skips_ok_fields(fds.drop_first());
        assert(s_skip_ok_field(fds[0]));
    }
}

/// Variant lists with no skips meet the skip constraint.
pub proof fn lemma_no_skips_skips_ok_variants(vs: Seq<VariantDescView>)
    requires
        s_no_skips_variants(vs),
    ensures
        s_skips_ok_variants(vs),
    decreases vs, 0int,
{
    if vs.len() > 0 {
        assert(decreases_to!(vs => vs[0]));
        lemma_no_skips_skips_ok(vs[0].payload);
        lemma_no_skips_skips_ok_variants(vs.drop_first());
    }
}

/// No variant payload among these has a skipped field, one by one.
pub proof fn lemma_no_skips_variants_index(vs: Seq<VariantDescView>)
    requires
        s_no_skips_variants(vs),
    ensures
        forall|i: int| 0 <= i < vs.len() ==> s_no_skips(vs[i].payload),
    decreases vs.len(),
{
    if vs.len() > 0 {
        lemma_no_skips_variants_index(vs.drop_first());
        assert forall|i: int| 0 <= i < vs.len() implies s_no_skips(vs[i].payload) by {
            if i > 0 {
                assert(s_no_skips(vs.drop_first()[i - 1].payload));
                assert(vs.drop_first()[i - 1] == vs[i]);
            }
        }
    }
}

/// With no skipped fields, scrubbing a conforming value changes nothing.
pub proof fn lemma_scrub_identity(ty: ValueTypeView, v: NativeView, reg: Seq<ConverterView>)
    requires
        s_wf_native(ty, v, reg),
        s_no_skips(ty),
    ensures
        s_scrub(ty, v) == v,
    decreases ty,
{
    match ty {
        ValueTypeView::U32 => {},
        ValueTypeView::Text => {},
        ValueTypeView::Message(d) => match *d {
            DescView::Struct(s) => {
                let vs = v->Record_0;
                lemma_wf_fields_index(s.fields, vs, reg);
                lemma_scrub_identity_fields(s.fields, vs, reg);
                assert(s_scrub(ty, v) =~= v);
            },
            DescView::Enum(e) => {
                let t = v->Variant_0;
                lemma_no_skips_variants_index(e.variants);
                assert(decreases_to!(ty => e.variants[t].payload)) by {
                    assert(decreases_to!(e.variants => e.variants[t]));
                }
                lemma_scrub_identity(e.variants[t].payload, *v->Variant_1, reg);
                assert(s_scrub(ty, v) =~= v);
            },
        },
    }
}

/// With no skipped fields, scrubbing conforming field values changes
/// nothing.
pub proof fn lemma_scrub_identity_fields(
    fds: Seq<FieldDescView>,
    vs: Seq<NativeView>,
    reg: Seq<ConverterView>,
)
    requires
        vs.len() == fds.len(),
        forall|i: int| 0 <= i < fds.len() ==> s_wf_field(#[trigger] fds[i], vs[i], reg),
        s_no_skips_fields(fds),
    ensures
        s_scrub_fields(fds, vs) == vs,
    decreases fds,
{
    if fds.len() == 0 {
        assert(s_scrub_fields(fds, vs) =~= vs);
    } else {
        if fds[0].with is None {
            assert(decreases_to!(fds => fds[0]));
            lemma_scrub_identity(fds[0].ty, vs[0], reg);
        }
        assert(s_scrub_field(fds[0], vs[0]) == vs[0]);
        assert forall|i: int| 0 <= i < fds.drop_first().len() implies s_wf_field(
            #[trigger] fds.drop_first()[i],
            vs.drop_first()[i],
            reg,
        ) by {
            assert(fds.drop_first()[i] == fds[i + 1]);
            assert(vs.drop_first()[i] == vs[i + 1]);
        }
        lemma_scrub_identity_fields(fds.drop_first(), vs.drop_first(), reg);
        assert(s_scrub_fields(fds, vs) =~= vs);
    }
}

/// EXACT ROUND TRIP. For a conforming native value of a type with no
/// skipped fields, converting to the external representation and back
/// succeeds and reproduces the value exactly.
pub proof fn lemma_roundtrip_exact(ty: ValueTypeView, v: NativeView, reg: Seq<ConverterView>)
    requires
        s_wf_native(ty, v, reg),
        s_no_skips(ty),
        s_names_ok(ty),
        s_reg_ok(reg),
    ensures
        s_from_ext(ty, s_to_ext(ty, v, reg), reg) == Ok::<NativeView, Seq<char>>(v),
{
    lemma_no_skips_skips_ok(ty);
    lemma_roundtrip_value(ty, v, reg);
    lemma_scrub_identity(ty, v, reg);
}

/// SKIPPED VALUES NEVER REACH THE EXTERNAL REPRESENTATION. Two field
/// value lists that agree on every non-skipped field convert to the same
/// slots.
pub proof fn lemma_skipped_value_immaterial(
    fds: Seq<FieldDescView>,
    vs1: Seq<NativeView>,
    vs2: Seq<NativeView>,
    reg: Seq<ConverterView>,
)
    requires
        vs1.len() == fds.len(),
        vs2.len() == fds.len(),
        forall|i: int| 0 <= i < fds.len() && !(#[trigger] fds[i]).skip ==> vs1[i] == vs2[i],
    ensures
        s_to_slots(fds, vs1, reg) == s_to_slots(fds, vs2, reg),
    decreases fds.len(),
{
    if fds.len() > 0 {
        assert forall|i: int|
            0 <= i < fds.drop_first().len() && !(#[trigger] fds.drop_first()[i]).skip implies vs1
            .drop_first()[i] == vs2.drop_first()[i] by {
            assert(fds.drop_first()[i] == fds[i + 1]);
            assert(vs1.drop_first()[i] == vs1[i + 1]);
            assert(vs2.drop_first()[i] == vs2[i + 1]);
        }
        lemma_skipped_value_immaterial(fds.drop_first(), vs1.drop_first(), vs2.drop_first(), reg);
    }
}

/// SKIPPED SLOT ABSENT. Under pairwise distinct field names, the slot of
/// a skipped field is absent from the converted message.
pub proof fn lemma_skipped_slot_absent(
    fds: Seq<FieldDescView>,
    vs: Seq<NativeView>,
    reg: Seq<ConverterView>,
    k: int,
)
    requires
        vs.len() == fds.len(),
        0 <= k < fds.len(),
        fds[k].skip,
        forall|i: int, j: int|
            0 <= i < j < fds.len() ==> (#[trigger] fds[i]).name != (#[trigger] fds[j]).name,
    ensures
        s_slot_get(s_to_slots(fds, vs, reg), fds[k].name) is None,
{
    lemma_slot_get_to_slots(fds, vs, reg, k);
}

/// ENUM ROUND TRIP. Converting an enum value populates exactly one oneof
/// case — the live variant's, under its resolved slot name — and
/// converting back recovers the same variant with its payload scrubbed of
/// skipped fields; exactly, when the payload's type skips nothing.
pub proof fn lemma_enum_roundtrip(
    e: EnumDescView,
    t: int,
    p: NativeView,
    reg: Seq<ConverterView>,
)
    requires
        s_wf_native(ValueTypeView::Message(Box::new(DescView::Enum(e))), NativeView::Variant(t, Box::new(p)), reg),
        s_skips_ok(ValueTypeView::Message(Box::new(DescView::Enum(e)))),
        s_names_ok(ValueTypeView::Message(Box::new(DescView::Enum(e)))),
        s_reg_ok(reg),
    ensures
        s_to_ext(
            ValueTypeView::Message(Box::new(DescView::Enum(e))),
            NativeView::Variant(t, Box::new(p)),
            reg,
        ) == ExternalView::Oneof(
            Some(
                OneofCaseView {
                    slot: s_slot_name_of(e.rename, e.variants[t].name),
                    value: Box::new(s_to_ext(e.variants[t].payload, p, reg)),
                },
            ),
        ),
        s_from_ext(
            ValueTypeView::Message(Box::new(DescView::Enum(e))),
            s_to_ext(
                ValueTypeView::Message(Box::new(DescView::Enum(e))),
                NativeView::Variant(t, Box::new(p)),
                reg,
            ),
            reg,
        ) == Ok::<NativeView, Seq<char>>(
            NativeView::Variant(t, Box::new(s_scrub(e.variants[t].payload, p))),
        ),
{
    let ty = ValueTypeView::Message(Box::new(DescView::Enum(e)));
    lemma_roundtrip_value(ty, NativeView::Variant(t, Box::new(p)), reg);
}

/// MISSING DISCRIMINANT. Converting back an external oneof carrier with
/// no populated case fails, with the error naming the native enum type.
pub proof fn lemma_missing_discriminant(e: EnumDescView, reg: Seq<ConverterView>)
    ensures
        s_from_ext(
            ValueTypeView::Message(Box::new(DescView::Enum(e))),
            ExternalView::Oneof(None),
            reg,
        ) == Err::<NativeView, Seq<char>>(missing_variant_msg(e.name)),
{
}

/// CUSTOM CONVERTER FAILURE PROPAGATES. When every field before `k`
/// converts back successfully and field `k`'s registered converter does
/// not recognize the wire value read for it, converting the struct back
/// fails with exactly that converter's report.
pub proof fn lemma_custom_failure_propagates(
    fds: Seq<FieldDescView>,
    slots: Seq<SlotView>,
    reg: Seq<ConverterView>,
    k: int,
    w: u32,
)
    requires
        0 <= k < fds.len(),
        forall|i: int| 0 <= i < k ==> s_from_field(#[trigger] fds[i], slots, reg) is Ok,
        !fds[k].skip,
        fds[k].with is Some,
        s_find_converter(reg, fds[k].with->Some_0) is Some,
        s_slot_get(slots, fds[k].name) == Some(ExternalView::U32(w)),
        s_native_of_wire(s_find_converter(reg, fds[k].with->Some_0)->Some_0.entries, w) is None,
    ensures
        s_from_fields(fds, slots, reg) == Err::<Seq<NativeView>, Seq<char>>(
            unknown_wire_msg(
                s_find_converter(reg, fds[k].with->Some_0)->Some_0.error_prefix,
                w as int,
            ),
        ),
    decreases k,
{
    if k == 0 {
        assert(s_from_field(fds[0], slots, reg) == Err::<NativeView, Seq<char>>(
            unknown_wire_msg(
                s_find_converter(reg, fds[0].with->Some_0)->Some_0.error_prefix,
                w as int,
            ),
        ));
    } else {
        assert forall|i: int| 0 <= i < k - 1 implies s_from_field(
            #[trigger] fds.drop_first()[i],
            slots,
            reg,
        ) is Ok by {
            assert(fds.drop_first()[i] == fds[i + 1]);
        }
        assert(fds.drop_first()[k - 1] == fds[k]);
        lemma_custom_failure_propagates(fds.drop_first(), slots, reg, k - 1, w);
        assert(s_from_field(fds[0], slots, reg) is Ok);
    }
}

} // verus!
