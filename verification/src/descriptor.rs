//! The intermediate representation produced by the type descriptor builder.
//!
//! A [`ProtobufConvert`] descriptor describes one annotated native type:
//! either a struct with its ordered fields and per-field directives, or an
//! enum with its ordered single-payload variants, rename policy and oneof
//! field name. The generic converter consumes descriptors at runtime; the
//! builder produces them from declarations and never mutates them.

use vstd::prelude::*;
use crate::decl::{FieldDecl, RawOption, TypeDecl, TypeExpr, TypeShape, VariantDecl, VariantFields};
use crate::error::{GenError, GenErrorView};
use crate::names::{snake_case_of, to_snake_case};
use crate::options::{
    s_enum_attrs, s_field_attrs, s_rename_policy, s_struct_attrs, ProtobufConvertEnumAttrs,
    ProtobufConvertFieldAttrs, ProtobufConvertStructAttrs, RenamePolicy,
};

verus! {

/// The native type of a field or of a variant payload: a scalar with an
/// identity conversion, or a nested composite with a descriptor of its own.
#[derive(Debug, PartialEq, Eq)]
pub enum ValueType {
    /// A `u32` scalar.
    U32,
    /// A text scalar.
    Text,
    /// A nested composite type, converted through its own descriptor.
    Message(Box<ProtobufConvert>),
}

/// One struct field: its name (which is also the external slot name), its
/// parsed directives, and its native type.
#[derive(Debug, PartialEq, Eq)]
pub struct FieldDescriptor {
    pub name: String,
    pub attrs: ProtobufConvertFieldAttrs,
    pub ty: ValueType,
}

/// Descriptor of a struct type.
#[derive(Debug, PartialEq, Eq)]
pub struct ProtobufConvertStruct {
    /// The native type's name.
    pub name: String,
    /// The external schema type converted to and from; mandatory.
    pub source: String,
    /// Whether the serialization shim is requested.
    pub serde_pb_convert: bool,
    /// The fields, in declaration order.
    pub fields: Vec<FieldDescriptor>,
}

/// One enum variant: its name and the type of its single payload.
#[derive(Debug, PartialEq, Eq)]
pub struct ParsedVariant {
    pub name: String,
    pub payload: ValueType,
}

/// Descriptor of an enum type.
#[derive(Debug, PartialEq, Eq)]
pub struct ProtobufConvertEnum {
    /// The native type's name.
    pub name: String,
    /// The external schema type converted to and from; mandatory.
    pub source: String,
    /// Whether the serialization shim is requested.
    pub serde_pb_convert: bool,
    /// Whether the wrap and unwrap conversions are requested.
    pub impl_from_trait: bool,
    /// How a variant name is mapped to its oneof slot name.
    pub rename: RenamePolicy,
    /// The name of the oneof field in the external schema.
    pub oneof_field: String,
    /// The variants, in declaration order.
    pub variants: Vec<ParsedVariant>,
}

/// Descriptor of one annotated type.
#[derive(Debug, PartialEq, Eq)]
pub enum ProtobufConvert {
    Struct(ProtobufConvertStruct),
    Enum(ProtobufConvertEnum),
}

/// Mathematical model of a [`ValueType`].
#[verifier::ext_equal]
pub enum ValueTypeView {
    U32,
    Text,
    Message(Box<DescView>),
}

/// Mathematical model of a [`FieldDescriptor`].
#[verifier::ext_equal]
pub struct FieldDescView {
    pub name: Seq<char>,
    pub skip: bool,
    pub with: Option<Seq<char>>,
    pub ty: ValueTypeView,
}

/// Mathematical model of a [`ProtobufConvertStruct`].
#[verifier::ext_equal]
pub struct StructDescView {
    pub name: Seq<char>,
    pub source: Seq<char>,
    pub serde_pb_convert: bool,
    pub fields: Seq<FieldDescView>,
}

/// Mathematical model of a [`ParsedVariant`].
#[verifier::ext_equal]
pub struct VariantDescView {
    pub name: Seq<char>,
    pub payload: ValueTypeView,
}

/// Mathematical model of a [`ProtobufConvertEnum`].
#[verifier::ext_equal]
pub struct EnumDescView {
    pub name: Seq<char>,
    pub source: Seq<char>,
    pub serde_pb_convert: bool,
    pub impl_from_trait: bool,
    pub rename: RenamePolicy,
    pub oneof_field: Seq<char>,
    pub variants: Seq<VariantDescView>,
}

/// Mathematical model of a [`ProtobufConvert`].
#[verifier::ext_equal]
pub enum DescView {
    Struct(StructDescView),
    Enum(EnumDescView),
}

/// Model of a value type.
pub open spec fn value_type_view_of(t: ValueType) -> ValueTypeView
    decreases t,
{
    match t {
        ValueType::U32 => ValueTypeView::U32,
        ValueType::Text => ValueTypeView::Text,
        ValueType::Message(d) => ValueTypeView::Message(Box::new(desc_view_of(*d))),
    }
}

/// Model of a field descriptor.
pub open spec fn field_desc_view_of(f: FieldDescriptor) -> FieldDescView
    decreases f,
{
    FieldDescView {
        name: f.name@,
        skip: f.attrs.skip,
        with: match f.attrs.with {
            Some(p) => Some(p@),
            None => None,
        },
        ty: value_type_view_of(f.ty),
    }
}

/// Model of a vector of field descriptors.
pub open spec fn field_desc_views_of_vec(v: Vec<FieldDescriptor>) -> Seq<FieldDescView>
    decreases v,
{
    field_desc_views_of(v@)
}

/// Model of a sequence of field descriptors, element by element.
pub open spec fn field_desc_views_of(s: Seq<FieldDescriptor>) -> Seq<FieldDescView>
    decreases s,
{
    if s.len() == 0 {
        Seq::empty()
    } else {
        seq![field_desc_view_of(s[0])] + field_desc_views_of(s.drop_first())
    }
}

/// Model of a variant descriptor.
pub open spec fn variant_desc_view_of(v: ParsedVariant) -> VariantDescView
    decreases v,
{
    VariantDescView { name: v.name@, payload: value_type_view_of(v.payload) }
}

/// Model of a vector of variant descriptors.
pub open spec fn variant_desc_views_of_vec(v: Vec<ParsedVariant>) -> Seq<VariantDescView>
    decreases v,
{
    variant_desc_views_of(v@)
}

/// Model of a sequence of variant descriptors, element by element.
pub open spec fn variant_desc_views_of(s: Seq<ParsedVariant>) -> Seq<VariantDescView>
    decreases s,
{
    if s.len() == 0 {
        Seq::empty()
    } else {
        seq![variant_desc_view_of(s[0])] + variant_desc_views_of(s.drop_first())
    }
}

/// Model of a struct descriptor.
pub open spec fn struct_desc_view_of(d: ProtobufConvertStruct) -> StructDescView
    decreases d,
{
    StructDescView {
        name: d.name@,
        source: d.source@,
        serde_pb_convert: d.serde_pb_convert,
        fields: field_desc_views_of_vec(d.fields),
    }
}

/// Model of an enum descriptor.
pub open spec fn enum_desc_view_of(d: ProtobufConvertEnum) -> EnumDescView
    decreases d,
{
    EnumDescView {
        name: d.name@,
        source: d.source@,
        serde_pb_convert: d.serde_pb_convert,
        impl_from_trait: d.impl_from_trait,
        rename: d.rename,
        oneof_field: d.oneof_field@,
        variants: variant_desc_views_of_vec(d.variants),
    }
}

/// Model of a type descriptor.
pub open spec fn desc_view_of(d: ProtobufConvert) -> DescView
    decreases d,
{
    match d {
        ProtobufConvert::Struct(s) => DescView::Struct(struct_desc_view_of(s)),
        ProtobufConvert::Enum(e) => DescView::Enum(enum_desc_view_of(e)),
    }
}

impl View for ValueType {
    type V = ValueTypeView;

    open spec fn view(&self) -> ValueTypeView {
        value_type_view_of(*self)
    }
}

impl View for FieldDescriptor {
    type V = FieldDescView;

    open spec fn view(&self) -> FieldDescView {
        field_desc_view_of(*self)
    }
}

impl View for ProtobufConvertStruct {
    type V = StructDescView;

    open spec fn view(&self) -> StructDescView {
        struct_desc_view_of(*self)
    }
}

impl View for ParsedVariant {
    type V = VariantDescView;

    open spec fn view(&self) -> VariantDescView {
        variant_desc_view_of(*self)
    }
}

impl View for ProtobufConvertEnum {
    type V = EnumDescView;

    open spec fn view(&self) -> EnumDescView {
        enum_desc_view_of(*self)
    }
}

impl View for ProtobufConvert {
    type V = DescView;

    open spec fn view(&self) -> DescView {
        desc_view_of(*self)
    }
}

/// The model of a sequence of field descriptors has the same length and
/// holds the model of each element.
pub broadcast proof fn lemma_field_desc_views_of(s: Seq<FieldDescriptor>)
    ensures
        (#[trigger] field_desc_views_of(s)).len() == s.len(),
        forall|i: int|
            0 <= i < s.len() ==> field_desc_views_of(s)[i] == field_desc_view_of(s[i]),
    decreases s.len(),
{
    if s.len() > 0 {
        lemma_field_desc_views_of(s.drop_first());
        assert forall|i: int| 0 <= i < s.len() implies field_desc_views_of(s)[i]
            == field_desc_view_of(s[i]) by {
            if i > 0 {
                assert(field_desc_views_of(s)[i] == field_desc_views_of(s.drop_first())[i - 1]);
                assert(s.drop_first()[i - 1] == s[i]);
            }
        }
    }
}

/// The model of a sequence of variant descriptors has the same length and
/// holds the model of each element.
pub broadcast proof fn lemma_variant_desc_views_of(s: Seq<ParsedVariant>)
    ensures
        (#[trigger] variant_desc_views_of(s)).len() == s.len(),
        forall|i: int|
            0 <= i < s.len() ==> variant_desc_views_of(s)[i] == variant_desc_view_of(s[i]),
    decreases s.len(),
{
    if s.len() > 0 {
        lemma_variant_desc_views_of(s.drop_first());
        assert forall|i: int| 0 <= i < s.len() implies variant_desc_views_of(s)[i]
            == variant_desc_view_of(s[i]) by {
            if i > 0 {
                assert(variant_desc_views_of(s)[i] == variant_desc_views_of(s.drop_first())[i
                    - 1]);
                assert(s.drop_first()[i - 1] == s[i]);
            }
        }
    }
}

/// Definitional fact: the model of a struct descriptor.
pub broadcast proof fn lemma_struct_desc_view(d: ProtobufConvertStruct)
    ensures
        #[trigger] struct_desc_view_of(d) == (StructDescView {
            name: d.name@,
            source: d.source@,
            serde_pb_convert: d.serde_pb_convert,
            fields: field_desc_views_of(d.fields@),
        }),
{
    assert(field_desc_views_of_vec(d.fields) == field_desc_views_of(d.fields@));
}

/// Definitional fact: the model of an enum descriptor.
pub broadcast proof fn lemma_enum_desc_view(d: ProtobufConvertEnum)
    ensures
        #[trigger] enum_desc_view_of(d) == (EnumDescView {
            name: d.name@,
            source: d.source@,
            serde_pb_convert: d.serde_pb_convert,
            impl_from_trait: d.impl_from_trait,
            rename: d.rename,
            oneof_field: d.oneof_field@,
            variants: variant_desc_views_of(d.variants@),
        }),
{
    assert(variant_desc_views_of_vec(d.variants) == variant_desc_views_of(d.variants@));
}

/// Definitional fact: the model of a nested composite type.
pub broadcast proof fn lemma_value_type_view_message(d: Box<ProtobufConvert>)
    ensures
        #[trigger] value_type_view_of(ValueType::Message(d)) == ValueTypeView::Message(
            Box::new(desc_view_of(*d)),
        ),
{
}

/// The definitional facts about descriptor models, for use as ambient
/// lemmas.
pub broadcast group group_desc_views {
    lemma_field_desc_views_of,
    lemma_variant_desc_views_of,
    lemma_struct_desc_view,
    lemma_enum_desc_view,
    lemma_value_type_view_message,
}

/// Appending a field descriptor appends its model.
pub broadcast proof fn lemma_field_desc_views_push(s: Seq<FieldDescriptor>, x: FieldDescriptor)
    ensures
        #[trigger] field_desc_views_of(s.push(x)) == field_desc_views_of(s) + seq![
            field_desc_view_of(x),
        ],
{
    lemma_field_desc_views_of(s.push(x));
    lemma_field_desc_views_of(s);
    assert(field_desc_views_of(s.push(x)) =~= field_desc_views_of(s) + seq![
        field_desc_view_of(x),
    ]);
}

/// Appending a variant descriptor appends its model.
pub broadcast proof fn lemma_variant_desc_views_push(s: Seq<ParsedVariant>, x: ParsedVariant)
    ensures
        #[trigger] variant_desc_views_of(s.push(x)) == variant_desc_views_of(s) + seq![
            variant_desc_view_of(x),
        ],
{
    lemma_variant_desc_views_of(s.push(x));
    lemma_variant_desc_views_of(s);
    assert(variant_desc_views_of(s.push(x)) =~= variant_desc_views_of(s) + seq![
        variant_desc_view_of(x),
    ]);
}

/// The oneof slot name that a variant name resolves to under a policy.
pub open spec fn s_slot_name_of(p: RenamePolicy, name: Seq<char>) -> Seq<char> {
    match p {
        RenamePolicy::Identity => name,
        RenamePolicy::SnakeCase => snake_case_of(name),
    }
}

/// What building the native type of a struct field from its declared type
/// expression yields; `fname` is the field's name, used in the failure.
pub open spec fn s_field_type(t: TypeExpr, fname: Seq<char>) -> Result<ValueTypeView, GenErrorView>
    decreases t, 0int,
{
    match t {
        TypeExpr::U32 => Ok(ValueTypeView::U32),
        TypeExpr::Text => Ok(ValueTypeView::Text),
        TypeExpr::Message(d) => match s_build_type(*d) {
            Ok(dv) => Ok(ValueTypeView::Message(Box::new(dv))),
            Err(e) => Err(e),
        },
        TypeExpr::Tuple(_) => Err(GenErrorView::UnsupportedField(fname)),
    }
}

/// What building a variant's payload type from its declared type
/// expression yields; `vname` is the variant's name, used in the failure.
pub open spec fn s_payload_type(t: TypeExpr, vname: Seq<char>) -> Result<
    ValueTypeView,
    GenErrorView,
>
    decreases t, 0int,
{
    match t {
        TypeExpr::U32 => Ok(ValueTypeView::U32),
        TypeExpr::Text => Ok(ValueTypeView::Text),
        TypeExpr::Message(d) => match s_build_type(*d) {
            Ok(dv) => Ok(ValueTypeView::Message(Box::new(dv))),
            Err(e) => Err(e),
        },
        TypeExpr::Tuple(_) => Err(GenErrorView::UnsupportedShape(vname)),
    }
}

/// What building the remaining field descriptors yields: each field is
/// paired with its parsed directives and its native type, in order; the
/// first failure aborts.
pub open spec fn s_build_fields(fields: Seq<FieldDecl>) -> Result<Seq<FieldDescView>, GenErrorView>
    decreases fields, 1int,
{
    if fields.len() == 0 {
        Ok(Seq::empty())
    } else {
        let f = fields[0];
        match s_field_attrs(f.options@) {
            Err(e) => Err(e),
            Ok(a) => match s_field_type(f.ty, f.name@) {
                Err(e) => Err(e),
                Ok(tv) => match s_build_fields(fields.drop_first()) {
                    Err(e) => Err(e),
                    Ok(rest) => Ok(
                        seq![FieldDescView { name: f.name@, skip: a.skip, with: a.with, ty: tv }]
                            + rest,
                    ),
                },
            },
        }
    }
}

/// What building a struct descriptor yields: parsed type-level options
/// with a mandatory source, then the fields in order.
pub open spec fn s_build_struct(
    name: Seq<char>,
    opts: Seq<RawOption>,
    fields: Seq<FieldDecl>,
) -> Result<StructDescView, GenErrorView>
    decreases fields, 2int,
{
    match s_struct_attrs(opts) {
        Err(e) => Err(e),
        Ok(a) => match a.source {
            None => Err(GenErrorView::MissingSource(name)),
            Some(src) => match s_build_fields(fields) {
                Err(e) => Err(e),
                Ok(fs) => Ok(
                    StructDescView {
                        name: name,
                        source: src,
                        serde_pb_convert: a.serde_pb_convert,
                        fields: fs,
                    },
                ),
            },
        },
    }
}

/// What building one variant descriptor yields: the variant must carry
/// exactly one associated value of a nameable type.
pub open spec fn s_build_variant(v: VariantDecl) -> Result<VariantDescView, GenErrorView>
    decreases v, 0int,
{
    match v.fields {
        VariantFields::Unnamed(list) => if list@.len() != 1 {
            Err(GenErrorView::TooManyFields(v.name@))
        } else {
            match s_payload_type(list@[0], v.name@) {
                Err(e) => Err(e),
                Ok(tv) => Ok(VariantDescView { name: v.name@, payload: tv }),
            }
        },
        VariantFields::Named(_) => Err(GenErrorView::UnsupportedShape(v.name@)),
        VariantFields::Unit => Err(GenErrorView::UnsupportedShape(v.name@)),
    }
}

/// What building the remaining variant descriptors yields; the first
/// failure aborts.
pub open spec fn s_build_variants(vs: Seq<VariantDecl>) -> Result<
    Seq<VariantDescView>,
    GenErrorView,
>
    decreases vs, 1int,
{
    if vs.len() == 0 {
        Ok(Seq::empty())
    } else {
        match s_build_variant(vs[0]) {
            Err(e) => Err(e),
            Ok(v) => match s_build_variants(vs.drop_first()) {
                Err(e) => Err(e),
                Ok(rest) => Ok(seq![v] + rest),
            },
        }
    }
}

/// What building an enum descriptor yields: parsed type-level options with
/// a mandatory source and a validated rename policy, then the variants in
/// order.
pub open spec fn s_build_enum(
    name: Seq<char>,
    opts: Seq<RawOption>,
    vs: Seq<VariantDecl>,
) -> Result<EnumDescView, GenErrorView>
    decreases vs, 2int,
{
    match s_enum_attrs(opts) {
        Err(e) => Err(e),
        Ok(a) => match a.source {
            None => Err(GenErrorView::MissingSource(name)),
            Some(src) => match s_rename_policy(a.case) {
                Err(e) => Err(e),
                Ok(p) => match s_build_variants(vs) {
                    Err(e) => Err(e),
                    Ok(built) => Ok(
                        EnumDescView {
                            name: name,
                            source: src,
                            serde_pb_convert: a.serde_pb_convert,
                            impl_from_trait: a.impl_from_trait,
                            rename: p,
                            oneof_field: a.oneof_field,
                            variants: built,
                        },
                    ),
                },
            },
        },
    }
}

/// What building the descriptor of a declared type yields.
pub open spec fn s_build_type(d: TypeDecl) -> Result<DescView, GenErrorView>
    decreases d, 3int,
{
    match d.shape {
        TypeShape::Struct(fields) => match s_build_struct(d.name@, d.options@, fields@) {
            Ok(s) => Ok(DescView::Struct(s)),
            Err(e) => Err(e),
        },
        TypeShape::Enum(vs) => match s_build_enum(d.name@, d.options@, vs@) {
            Ok(e) => Ok(DescView::Enum(e)),
            Err(e) => Err(e),
        },
        TypeShape::Union => Err(GenErrorView::UnsupportedInput),
    }
}

/// Builds the field descriptors of a struct: each field paired with its
/// parsed directives and its native type, in declaration order.
#[verifier::loop_isolation(false)]
pub fn get_field_names(data: &Vec<FieldDecl>) -> (r: Result<Vec<FieldDescriptor>, GenError>)
    ensures
        match r {
            Ok(v) => s_build_fields(data@) == Ok::<Seq<FieldDescView>, GenErrorView>(
                field_desc_views_of(v@),
            ),
            Err(e) => s_build_fields(data@) == Err::<Seq<FieldDescView>, GenErrorView>(e@),
        },
    decreases data@, 4int,
{
    broadcast use group_desc_views;

    let mut out: Vec<FieldDescriptor> = Vec::new();
    let mut i: usize = 0;
    proof {
        assert(data@.skip(0) =~= data@);
        assert(field_desc_views_of(out@) =~= Seq::<FieldDescView>::empty());
    }
    while i < data.len()
        invariant
            i <= data@.len(),
            s_build_fields(data@) == (match s_build_fields(data@.skip(i as int)) {
                Ok(rest) => Ok::<Seq<FieldDescView>, GenErrorView>(
                    field_desc_views_of(out@) + rest,
                ),
                Err(e) => Err(e),
            }),
        decreases data@.len() - i,
    {
        let f = &data[i];
        proof {
            assert(data@.skip(i as int)[0] == data@[i as int]);
            assert(data@.skip(i as int).drop_first() =~= data@.skip(i as int + 1));
        }
        let attrs = match ProtobufConvertFieldAttrs::try_from(&f.options) {
            Ok(a) => a,
            Err(e) => {
                return Err(e);
            },
        };
        let ty: ValueType = match &f.ty {
            TypeExpr::U32 => ValueType::U32,
            TypeExpr::Text => ValueType::Text,
            TypeExpr::Message(d) => {
                proof {
                    assert(decreases_to!(data@ => data@[i as int]));
                    assert(decreases_to!(data@[i as int] => data@[i as int].ty));
                    assert(decreases_to!(f.ty => (f.ty)->Message_0));
                }
                match ProtobufConvert::from_derive_input(d) {
                    Ok(desc) => ValueType::Message(Box::new(desc)),
                    Err(e) => {
                        return Err(e);
                    },
                }
            },
            TypeExpr::Tuple(_) => {
                proof {
                    assert(s_field_type(f.ty, f.name@) == Err::<ValueTypeView, GenErrorView>(
                        GenErrorView::UnsupportedField(f.name@),
                    ));
                    assert(s_build_fields(data@.skip(i as int)) == Err::<
                        Seq<FieldDescView>,
                        GenErrorView,
                    >(GenErrorView::UnsupportedField(f.name@)));
                }
                return Err(GenError::UnsupportedField { field: f.name.clone() });
            },
        };
        let fd = FieldDescriptor { name: f.name.clone(), attrs, ty };
        let ghost prev = out@;
        out.push(fd);
        proof {
            lemma_field_desc_views_push(prev, fd);
            if s_build_fields(data@.skip(i as int + 1)) is Ok {
                let rest = s_build_fields(data@.skip(i as int + 1))->Ok_0;
                assert(field_desc_views_of(prev) + (seq![field_desc_view_of(fd)] + rest)
                    =~= field_desc_views_of(out@) + rest);
            }
        }
        i += 1;
    }
    Ok(out)
}

impl ProtobufConvertStruct {
    /// Builds the descriptor of a declared struct from its name, fields
    /// and type-level options.
    pub fn from_derive_input(
        name: &String,
        data: &Vec<FieldDecl>,
        attrs: &Vec<RawOption>,
    ) -> (r: Result<Self, GenError>)
        ensures
            match r {
                Ok(d) => s_build_struct(name@, attrs@, data@) == Ok::<
                    StructDescView,
                    GenErrorView,
                >(d@),
                Err(e) => s_build_struct(name@, attrs@, data@) == Err::<
                    StructDescView,
                    GenErrorView,
                >(e@),
            },
        decreases data@, 5int,
    {
        let parsed = match ProtobufConvertStructAttrs::try_from(attrs) {
            Ok(a) => a,
            Err(e) => {
                return Err(e);
            },
        };
        let source = match parsed.source {
            Some(src) => src,
            None => {
                return Err(GenError::MissingSource { ty: name.clone() });
            },
        };
        let fields = match get_field_names(data) {
            Ok(fs) => fs,
            Err(e) => {
                return Err(e);
            },
        };
        Ok(
            ProtobufConvertStruct {
                name: name.clone(),
                source,
                serde_pb_convert: parsed.serde_pb_convert,
                fields,
            },
        )
    }
}

impl ParsedVariant {
    /// Builds one variant descriptor. The variant must be of the shape
    /// `Name(Payload)` with exactly one associated value of a nameable
    /// type; anything else fails generation, naming the variant.
    pub fn try_from(value: &VariantDecl) -> (r: Result<Self, GenError>)
        ensures
            match r {
                Ok(v) => s_build_variant(*value) == Ok::<VariantDescView, GenErrorView>(v@),
                Err(e) => s_build_variant(*value) == Err::<VariantDescView, GenErrorView>(e@),
            },
        decreases *value, 4int,
    {
        match &value.fields {
            VariantFields::Unnamed(list) => {
                if list.len() != 1 {
                    return Err(GenError::TooManyFields { variant: value.name.clone() });
                }
                let payload: ValueType = match &list[0] {
                    TypeExpr::U32 => ValueType::U32,
                    TypeExpr::Text => ValueType::Text,
                    TypeExpr::Message(d) => {
                        proof {
                            assert(decreases_to!(*value => value.fields));
                            assert(decreases_to!(value.fields => (value.fields)->Unnamed_0));
                            assert(decreases_to!((value.fields)->Unnamed_0
                                => (value.fields)->Unnamed_0@));
                            assert(decreases_to!((value.fields)->Unnamed_0@
                                => (value.fields)->Unnamed_0@[0]));
                        }
                        match ProtobufConvert::from_derive_input(d) {
                            Ok(desc) => ValueType::Message(Box::new(desc)),
                            Err(e) => {
                                return Err(e);
                            },
                        }
                    },
                    TypeExpr::Tuple(_) => {
                        return Err(GenError::UnsupportedShape { variant: value.name.clone() });
                    },
                };
                Ok(ParsedVariant { name: value.name.clone(), payload })
            },
            VariantFields::Named(_) => Err(
                GenError::UnsupportedShape { variant: value.name.clone() },
            ),
            VariantFields::Unit => Err(GenError::UnsupportedShape { variant: value.name.clone() }),
        }
    }
}

impl ProtobufConvertEnum {
    /// Builds the descriptor of a declared enum from its name, variants
    /// and type-level options.
    #[verifier::loop_isolation(false)]
    pub fn from_derive_input(
        name: &String,
        data: &Vec<VariantDecl>,
        attrs: &Vec<RawOption>,
    ) -> (r: Result<Self, GenError>)
        ensures
            match r {
                Ok(d) => s_build_enum(name@, attrs@, data@) == Ok::<EnumDescView, GenErrorView>(
                    d@,
                ),
                Err(e) => s_build_enum(name@, attrs@, data@) == Err::<EnumDescView, GenErrorView>(
                    e@,
                ),
            },
        decreases data@, 5int,
    {
        broadcast use group_desc_views;

        let parsed = match ProtobufConvertEnumAttrs::try_from(attrs) {
            Ok(a) => a,
            Err(e) => {
                return Err(e);
            },
        };
        let source = match parsed.source {
            Some(src) => src,
            None => {
                return Err(GenError::MissingSource { ty: name.clone() });
            },
        };
        let rename = match parsed.rename.policy() {
            Ok(p) => p,
            Err(e) => {
                return Err(e);
            },
        };
        let mut variants: Vec<ParsedVariant> = Vec::new();
        let mut i: usize = 0;
        proof {
            assert(data@.skip(0) =~= data@);
            assert(variant_desc_views_of(variants@) =~= Seq::<VariantDescView>::empty());
        }
        while i < data.len()
            invariant
                i <= data@.len(),
                s_build_variants(data@) == (match s_build_variants(data@.skip(i as int)) {
                    Ok(rest) => Ok::<Seq<VariantDescView>, GenErrorView>(
                        variant_desc_views_of(variants@) + rest,
                    ),
                    Err(e) => Err(e),
                }),
            decreases data@.len() - i,
        {
            proof {
                assert(data@.skip(i as int)[0] == data@[i as int]);
                assert(data@.skip(i as int).drop_first() =~= data@.skip(i as int + 1));
                assert(decreases_to!(data@ => data@[i as int]));
            }
            let v = match ParsedVariant::try_from(&data[i]) {
                Ok(v) => v,
                Err(e) => {
                    return Err(e);
                },
            };
            let ghost prev = variants@;
            variants.push(v);
            proof {
                lemma_variant_desc_views_push(prev, v);
                if s_build_variants(data@.skip(i as int + 1)) is Ok {
                    let rest = s_build_variants(data@.skip(i as int + 1))->Ok_0;
                    assert(variant_desc_views_of(prev) + (seq![variant_desc_view_of(v)] + rest)
                        =~= variant_desc_views_of(variants@) + rest);
                }
            }
            i += 1;
        }
        Ok(
            ProtobufConvertEnum {
                name: name.clone(),
                source,
                serde_pb_convert: parsed.serde_pb_convert,
                impl_from_trait: parsed.impl_from_trait,
                rename,
                oneof_field: parsed.oneof_field,
                variants,
            },
        )
    }

    /// The oneof slot name that addresses a variant's case in the external
    /// schema: the variant's native identifier passed through the rename
    /// policy.
    pub fn get_variant_name(&self, variant: &ParsedVariant) -> (r: String)
        ensures
            r@ == s_slot_name_of(self.rename, variant.name@),
    {
        match self.rename {
            RenamePolicy::SnakeCase => to_snake_case(&variant.name),
            RenamePolicy::Identity => variant.name.clone(),
        }
    }
}

impl ProtobufConvert {
    /// Builds the descriptor of one declared type: a struct or an enum;
    /// anything else fails generation.
    pub fn from_derive_input(input: &TypeDecl) -> (r: Result<Self, GenError>)
        ensures
            match r {
                Ok(d) => s_build_type(*input) == Ok::<DescView, GenErrorView>(d@),
                Err(e) => s_build_type(*input) == Err::<DescView, GenErrorView>(e@),
            },
        decreases *input, 6int,
    {
        proof {
            assert(decreases_to!(*input => input.shape));
        }
        match &input.shape {
            TypeShape::Struct(data) => {
                proof {
                    assert(decreases_to!(input.shape => (input.shape)->Struct_0));
                    assert(decreases_to!((input.shape)->Struct_0 => (input.shape)->Struct_0@));
                }
                match ProtobufConvertStruct::from_derive_input(&input.name, data, &input.options) {
                    Ok(d) => Ok(ProtobufConvert::Struct(d)),
                    Err(e) => Err(e),
                }
            },
            TypeShape::Enum(data) => {
                proof {
                    assert(decreases_to!(input.shape => (input.shape)->Enum_0));
                    assert(decreases_to!((input.shape)->Enum_0 => (input.shape)->Enum_0@));
                }
                match ProtobufConvertEnum::from_derive_input(&input.name, data, &input.options) {
                    Ok(d) => Ok(ProtobufConvert::Enum(d)),
                    Err(e) => Err(e),
                }
            },
            TypeShape::Union => Err(GenError::UnsupportedInput),
        }
    }

    /// The name of the native type this descriptor describes.
    pub fn name(&self) -> (r: &String)
        ensures
            r@ == (match self@ {
                DescView::Struct(s) => s.name,
                DescView::Enum(e) => e.name,
            }),
    {
        match self {
            ProtobufConvert::Struct(inner) => &inner.name,
            ProtobufConvert::Enum(inner) => &inner.name,
        }
    }

    /// Whether the serialization shim is requested for this type.
    pub fn serde_needed(&self) -> (r: bool)
        ensures
            r == (match self@ {
                DescView::Struct(s) => s.serde_pb_convert,
                DescView::Enum(e) => e.serde_pb_convert,
            }),
    {
        match self {
            ProtobufConvert::Struct(inner) => inner.serde_pb_convert,
            ProtobufConvert::Enum(inner) => inner.serde_pb_convert,
        }
    }
}

} // verus!
