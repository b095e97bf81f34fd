//! The directive model: the declarative mapping configuration attached to
//! a type and to its fields, and its validation.
//!
//! Recognized type-level options: `source` (text, required downstream),
//! `serde_pb_convert` (flag), and for enums also `impl_from_trait` (flag),
//! `oneof_field` (text, default `kind`) and `rename(case = "snake_case")`.
//! Recognized field-level options: `skip` (flag) and `with` (text).
//! An option is recognized by its name together with the form of its
//! value; anything else is an unknown option and fails generation. When an
//! option is repeated, the last occurrence governs.

use vstd::prelude::*;
use vstd::string::StringExecFns;
use crate::decl::{OptionValue, RawOption};
use crate::error::{GenError, GenErrorView};
use crate::names::string_is;

verus! {

/// The parsed rename directive: the requested case name, if any.
#[derive(Debug, PartialEq, Eq)]
pub struct Rename {
    pub case: Option<String>,
}

/// How a variant's native identifier maps to its oneof slot name.
#[derive(Debug, PartialEq, Eq, Clone, Copy)]
pub enum RenamePolicy {
    /// The slot name is the variant name unchanged.
    Identity,
    /// The slot name is the variant name in lower snake case.
    SnakeCase,
}

/// The parsed type-level options of a struct.
#[derive(Debug, PartialEq, Eq)]
pub struct ProtobufConvertStructAttrs {
    pub source: Option<String>,
    pub serde_pb_convert: bool,
}

/// The parsed type-level options of an enum.
#[derive(Debug, PartialEq, Eq)]
pub struct ProtobufConvertEnumAttrs {
    pub source: Option<String>,
    pub serde_pb_convert: bool,
    pub impl_from_trait: bool,
    pub rename: Rename,
    pub oneof_field: String,
}

/// The parsed field-level options of a struct field.
#[derive(Debug, PartialEq, Eq)]
pub struct ProtobufConvertFieldAttrs {
    pub skip: bool,
    pub with: Option<String>,
}

/// How one struct field takes part in the conversion: structurally via
/// its own conversion capability, not at all, or through a custom
/// converter pair named by a path. When both `skip` and `with` are given,
/// `skip` takes precedence.
#[derive(Debug, PartialEq, Eq)]
pub enum ConversionDirective {
    Default,
    Skip,
    CustomWith(String),
}

/// The model of an optional string.
pub open spec fn opt_str_view(o: Option<String>) -> Option<Seq<char>> {
    match o {
        Some(s) => Some(s@),
        None => None,
    }
}

/// Mathematical model of [`ProtobufConvertStructAttrs`].
#[verifier::ext_equal]
pub struct StructAttrsView {
    pub source: Option<Seq<char>>,
    pub serde_pb_convert: bool,
}

/// Mathematical model of [`ProtobufConvertEnumAttrs`].
#[verifier::ext_equal]
pub struct EnumAttrsView {
    pub source: Option<Seq<char>>,
    pub serde_pb_convert: bool,
    pub impl_from_trait: bool,
    pub case: Option<Seq<char>>,
    pub oneof_field: Seq<char>,
}

/// Mathematical model of [`ProtobufConvertFieldAttrs`].
#[verifier::ext_equal]
pub struct FieldAttrsView {
    pub skip: bool,
    pub with: Option<Seq<char>>,
}

impl View for ProtobufConvertStructAttrs {
    type V = StructAttrsView;

    open spec fn view(&self) -> StructAttrsView {
        StructAttrsView { source: opt_str_view(self.source), serde_pb_convert: self.serde_pb_convert }
    }
}

impl View for ProtobufConvertEnumAttrs {
    type V = EnumAttrsView;

    open spec fn view(&self) -> EnumAttrsView {
        EnumAttrsView {
            source: opt_str_view(self.source),
            serde_pb_convert: self.serde_pb_convert,
            impl_from_trait: self.impl_from_trait,
            case: opt_str_view(self.rename.case),
            oneof_field: self.oneof_field@,
        }
    }
}

impl View for ProtobufConvertFieldAttrs {
    type V = FieldAttrsView;

    open spec fn view(&self) -> FieldAttrsView {
        FieldAttrsView { skip: self.skip, with: opt_str_view(self.with) }
    }
}

impl Default for ProtobufConvertStructAttrs {
    /// The options of a struct with no directive attached.
    fn default() -> (r: Self)
        ensures
            r@ == (StructAttrsView { source: None, serde_pb_convert: false }),
    {
        ProtobufConvertStructAttrs { source: None, serde_pb_convert: false }
    }
}

impl Default for ProtobufConvertEnumAttrs {
    /// The options of an enum with no directive attached; the oneof field
    /// is named `kind`.
    fn default() -> (r: Self)
        ensures
            r@ == (EnumAttrsView {
                source: None,
                serde_pb_convert: false,
                impl_from_trait: false,
                case: None,
                oneof_field: "kind"@,
            }),
    {
        ProtobufConvertEnumAttrs {
            source: None,
            serde_pb_convert: false,
            impl_from_trait: false,
            rename: Rename { case: None },
            oneof_field: String::from_str("kind"),
        }
    }
}

impl Default for ProtobufConvertFieldAttrs {
    /// The options of a field with no directive attached.
    fn default() -> (r: Self)
        ensures
            r@ == (FieldAttrsView { skip: false, with: None }),
    {
        ProtobufConvertFieldAttrs { skip: false, with: None }
    }
}

/// What parsing the remaining type-level options of a struct yields, given
/// what the options already read have established.
pub open spec fn s_struct_attrs_from(opts: Seq<RawOption>, acc: StructAttrsView) -> Result<
    StructAttrsView,
    GenErrorView,
>
    decreases opts.len(),
{
    if opts.len() == 0 {
        Ok(acc)
    } else {
        let o = opts[0];
        if o.name@ == "source"@ {
            if o.value is Text {
                s_struct_attrs_from(
                    opts.drop_first(),
                    StructAttrsView {
                        source: Some(o.value->Text_0@),
                        serde_pb_convert: acc.serde_pb_convert,
                    },
                )
            } else {
                Err(GenErrorView::UnknownOption(o.name@))
            }
        } else if o.name@ == "serde_pb_convert"@ {
            if o.value is Flag {
                s_struct_attrs_from(
                    opts.drop_first(),
                    StructAttrsView { source: acc.source, serde_pb_convert: true },
                )
            } else {
                Err(GenErrorView::UnknownOption(o.name@))
            }
        } else {
            Err(GenErrorView::UnknownOption(o.name@))
        }
    }
}

/// What parsing the type-level options of a struct yields.
pub open spec fn s_struct_attrs(opts: Seq<RawOption>) -> Result<StructAttrsView, GenErrorView> {
    s_struct_attrs_from(opts, StructAttrsView { source: None, serde_pb_convert: false })
}

impl ProtobufConvertStructAttrs {
    /// Parses the type-level options of a struct. Fails on any option that
    /// is not recognized, naming it.
    #[verifier::loop_isolation(false)]
    pub fn try_from(options: &Vec<RawOption>) -> (r: Result<Self, GenError>)
        ensures
            match r {
                Ok(a) => s_struct_attrs(options@) == Ok::<StructAttrsView, GenErrorView>(a@),
                Err(e) => s_struct_attrs(options@) == Err::<StructAttrsView, GenErrorView>(e@),
            },
    {
        let mut cur = ProtobufConvertStructAttrs::default();
        let mut i: usize = 0;
        proof {
            assert(options@.skip(0) =~= options@);
        }
        while i < options.len()
            invariant
                i <= options@.len(),
                s_struct_attrs(options@) == s_struct_attrs_from(options@.skip(i as int), cur@),
            decreases options@.len() - i,
        {
            let o = &options[i];
            proof {
                assert(options@.skip(i as int)[0] == options@[i as int]);
                assert(options@.skip(i as int).drop_first() =~= options@.skip(i as int + 1));
            }
            if string_is(&o.name, "source") {
                match &o.value {
                    OptionValue::Text(v) => {
                        cur = ProtobufConvertStructAttrs {
                            source: Some(v.clone()),
                            serde_pb_convert: cur.serde_pb_convert,
                        };
                    },
                    _ => {
                        return Err(GenError::UnknownOption { name: o.name.clone() });
                    },
                }
            } else if string_is(&o.name, "serde_pb_convert") {
                match &o.value {
                    OptionValue::Flag => {
                        cur = ProtobufConvertStructAttrs {
                            source: cur.source,
                            serde_pb_convert: true,
                        };
                    },
                    _ => {
                        return Err(GenError::UnknownOption { name: o.name.clone() });
                    },
                }
            } else {
                return Err(GenError::UnknownOption { name: o.name.clone() });
            }
            i += 1;
        }
        Ok(cur)
    }
}

/// What parsing the remaining options inside `rename(...)` yields.
pub open spec fn s_rename_from(opts: Seq<RawOption>, acc: Option<Seq<char>>) -> Result<
    Option<Seq<char>>,
    GenErrorView,
>
    decreases opts.len(),
{
    if opts.len() == 0 {
        Ok(acc)
    } else {
        let o = opts[0];
        if o.name@ == "case"@ {
            if o.value is Text {
                if o.value->Text_0@ == "snake_case"@ {
                    s_rename_from(opts.drop_first(), Some(o.value->Text_0@))
                } else {
                    Err(GenErrorView::UndefinedCase(o.value->Text_0@))
                }
            } else {
                Err(GenErrorView::UnknownOption(o.name@))
            }
        } else {
            Err(GenErrorView::UnknownOption(o.name@))
        }
    }
}

impl Rename {
    /// Parses the options inside `rename(...)`, on top of what an earlier
    /// rename directive established. The only recognized case name is
    /// `snake_case`; any other case value fails generation.
    #[verifier::loop_isolation(false)]
    pub fn try_from(options: &Vec<RawOption>, prior: Option<String>) -> (r: Result<
        Option<String>,
        GenError,
    >)
        ensures
            match r {
                Ok(c) => s_rename_from(options@, opt_str_view(prior)) == Ok::<
                    Option<Seq<char>>,
                    GenErrorView,
                >(opt_str_view(c)),
                Err(e) => s_rename_from(options@, opt_str_view(prior)) == Err::<
                    Option<Seq<char>>,
                    GenErrorView,
                >(e@),
            },
    {
        let mut cur = prior;
        let mut i: usize = 0;
        proof {
            assert(options@.skip(0) =~= options@);
        }
        while i < options.len()
            invariant
                i <= options@.len(),
                s_rename_from(options@, opt_str_view(prior)) == s_rename_from(
                    options@.skip(i as int),
                    opt_str_view(cur),
                ),
            decreases options@.len() - i,
        {
            let o = &options[i];
            proof {
                assert(options@.skip(i as int)[0] == options@[i as int]);
                assert(options@.skip(i as int).drop_first() =~= options@.skip(i as int + 1));
            }
            if string_is(&o.name, "case") {
                match &o.value {
                    OptionValue::Text(v) => {
                        if string_is(v, "snake_case") {
                            cur = Some(v.clone());
                        } else {
                            return Err(GenError::UndefinedCase { value: v.clone() });
                        }
                    },
                    _ => {
                        return Err(GenError::UnknownOption { name: o.name.clone() });
                    },
                }
            } else {
                return Err(GenError::UnknownOption { name: o.name.clone() });
            }
            i += 1;
        }
        Ok(cur)
    }

    /// The rename policy this directive asks for. The only recognized case
    /// name is `snake_case`.
    pub fn policy(&self) -> (r: Result<RenamePolicy, GenError>)
        ensures
            match r {
                Ok(p) => s_rename_policy(opt_str_view(self.case)) == Ok::<
                    RenamePolicy,
                    GenErrorView,
                >(p),
                Err(e) => s_rename_policy(opt_str_view(self.case)) == Err::<
                    RenamePolicy,
                    GenErrorView,
                >(e@),
            },
    {
        match &self.case {
            None => Ok(RenamePolicy::Identity),
            Some(c) => {
                if string_is(c, "snake_case") {
                    Ok(RenamePolicy::SnakeCase)
                } else {
                    Err(GenError::UndefinedCase { value: c.clone() })
                }
            },
        }
    }
}

/// The rename policy a parsed case value asks for.
pub open spec fn s_rename_policy(case: Option<Seq<char>>) -> Result<RenamePolicy, GenErrorView> {
    match case {
        None => Ok(RenamePolicy::Identity),
        Some(c) => if c == "snake_case"@ {
            Ok(RenamePolicy::SnakeCase)
        } else {
            Err(GenErrorView::UndefinedCase(c))
        },
    }
}

/// What parsing the remaining type-level options of an enum yields.
pub open spec fn s_enum_attrs_from(opts: Seq<RawOption>, acc: EnumAttrsView) -> Result<
    EnumAttrsView,
    GenErrorView,
>
    decreases opts.len(),
{
    if opts.len() == 0 {
        Ok(acc)
    } else {
        let o = opts[0];
        if o.name@ == "source"@ {
            if o.value is Text {
                s_enum_attrs_from(
                    opts.drop_first(),
                    EnumAttrsView {
                        source: Some(o.value->Text_0@),
                        serde_pb_convert: acc.serde_pb_convert,
                        impl_from_trait: acc.impl_from_trait,
                        case: acc.case,
                        oneof_field: acc.oneof_field,
                    },
                )
            } else {
                Err(GenErrorView::UnknownOption(o.name@))
            }
        } else if o.name@ == "serde_pb_convert"@ {
            if o.value is Flag {
                s_enum_attrs_from(
                    opts.drop_first(),
                    EnumAttrsView {
                        source: acc.source,
                        serde_pb_convert: true,
                        impl_from_trait: acc.impl_from_trait,
                        case: acc.case,
                        oneof_field: acc.oneof_field,
                    },
                )
            } else {
                Err(GenErrorView::UnknownOption(o.name@))
            }
        } else if o.name@ == "impl_from_trait"@ {
            if o.value is Flag {
                s_enum_attrs_from(
                    opts.drop_first(),
                    EnumAttrsView {
                        source: acc.source,
                        serde_pb_convert: acc.serde_pb_convert,
                        impl_from_trait: true,
                        case: acc.case,
                        oneof_field: acc.oneof_field,
                    },
                )
            } else {
                Err(GenErrorView::UnknownOption(o.name@))
            }
        } else if o.name@ == "oneof_field"@ {
            if o.value is Text {
                s_enum_attrs_from(
                    opts.drop_first(),
                    EnumAttrsView {
                        source: acc.source,
                        serde_pb_convert: acc.serde_pb_convert,
                        impl_from_trait: acc.impl_from_trait,
                        case: acc.case,
                        oneof_field: o.value->Text_0@,
                    },
                )
            } else {
                Err(GenErrorView::UnknownOption(o.name@))
            }
        } else if o.name@ == "rename"@ {
            if o.value is List {
                match s_rename_from(o.value->List_0@, acc.case) {
                    Ok(c) => s_enum_attrs_from(
                        opts.drop_first(),
                        EnumAttrsView {
                            source: acc.source,
                            serde_pb_convert: acc.serde_pb_convert,
                            impl_from_trait: acc.impl_from_trait,
                            case: c,
                            oneof_field: acc.oneof_field,
                        },
                    ),
                    Err(e) => Err(e),
                }
            } else {
                Err(GenErrorView::UnknownOption(o.name@))
            }
        } else {
            Err(GenErrorView::UnknownOption(o.name@))
        }
    }
}

/// What parsing the type-level options of an enum yields.
pub open spec fn s_enum_attrs(opts: Seq<RawOption>) -> Result<EnumAttrsView, GenErrorView> {
    s_enum_attrs_from(
        opts,
        EnumAttrsView {
            source: None,
            serde_pb_convert: false,
            impl_from_trait: false,
            case: None,
            oneof_field: "kind"@,
        },
    )
}

impl ProtobufConvertEnumAttrs {
    /// Parses the type-level options of an enum. Fails on any option that
    /// is not recognized, naming it, and on a case value other than
    /// `snake_case`.
    #[verifier::loop_isolation(false)]
    pub fn try_from(options: &Vec<RawOption>) -> (r: Result<Self, GenError>)
        ensures
            match r {
                Ok(a) => s_enum_attrs(options@) == Ok::<EnumAttrsView, GenErrorView>(a@),
                Err(e) => s_enum_attrs(options@) == Err::<EnumAttrsView, GenErrorView>(e@),
            },
    {
        let mut cur = ProtobufConvertEnumAttrs::default();
        let mut i: usize = 0;
        proof {
            assert(options@.skip(0) =~= options@);
        }
        while i < options.len()
            invariant
                i <= options@.len(),
                s_enum_attrs(options@) == s_enum_attrs_from(options@.skip(i as int), cur@),
            decreases options@.len() - i,
        {
            let o = &options[i];
            proof {
                assert(options@.skip(i as int)[0] == options@[i as int]);
                assert(options@.skip(i as int).drop_first() =~= options@.skip(i as int + 1));
            }
            if string_is(&o.name, "source") {
                match &o.value {
                    OptionValue::Text(v) => {
                        cur = ProtobufConvertEnumAttrs { source: Some(v.clone()), ..cur };
                    },
                    _ => {
                        return Err(GenError::UnknownOption { name: o.name.clone() });
                    },
                }
            } else if string_is(&o.name, "serde_pb_convert") {
                match &o.value {
                    OptionValue::Flag => {
                        cur = ProtobufConvertEnumAttrs { serde_pb_convert: true, ..cur };
                    },
                    _ => {
                        return Err(GenError::UnknownOption { name: o.name.clone() });
                    },
                }
            } else if string_is(&o.name, "impl_from_trait") {
                match &o.value {
                    OptionValue::Flag => {
                        cur = ProtobufConvertEnumAttrs { impl_from_trait: true, ..cur };
                    },
                    _ => {
                        return Err(GenError::UnknownOption { name: o.name.clone() });
                    },
                }
            } else if string_is(&o.name, "oneof_field") {
                match &o.value {
                    OptionValue::Text(v) => {
                        cur = ProtobufConvertEnumAttrs { oneof_field: v.clone(), ..cur };
                    },
                    _ => {
                        return Err(GenError::UnknownOption { name: o.name.clone() });
                    },
                }
            } else if string_is(&o.name, "rename") {
                match &o.value {
                    OptionValue::List(inner) => {
                        match Rename::try_from(inner, cur.rename.case) {
                            Ok(c) => {
                                cur = ProtobufConvertEnumAttrs {
                                    rename: Rename { case: c },
                                    source: cur.source,
                                    serde_pb_convert: cur.serde_pb_convert,
                                    impl_from_trait: cur.impl_from_trait,
                                    oneof_field: cur.oneof_field,
                                };
                            },
                            Err(e) => {
                                return Err(e);
                            },
                        }
                    },
                    _ => {
                        return Err(GenError::UnknownOption { name: o.name.clone() });
                    },
                }
            } else {
                return Err(GenError::UnknownOption { name: o.name.clone() });
            }
            i += 1;
        }
        Ok(cur)
    }
}

impl ProtobufConvertFieldAttrs {
    /// The conversion directive these options amount to; `skip` takes
    /// precedence over `with`.
    pub fn directive(&self) -> (r: ConversionDirective)
        ensures
            self.skip ==> r is Skip,
            !self.skip && self.with is Some ==> (r matches ConversionDirective::CustomWith(p)
                && p@ == self.with->Some_0@),
            !self.skip && self.with is None ==> r is Default,
    {
        if self.skip {
            ConversionDirective::Skip
        } else {
            match &self.with {
                Some(p) => ConversionDirective::CustomWith(p.clone()),
                None => ConversionDirective::Default,
            }
        }
    }
}

/// What parsing the remaining field-level options yields.
pub open spec fn s_field_attrs_from(opts: Seq<RawOption>, acc: FieldAttrsView) -> Result<
    FieldAttrsView,
    GenErrorView,
>
    decreases opts.len(),
{
    if opts.len() == 0 {
        Ok(acc)
    } else {
        let o = opts[0];
        if o.name@ == "skip"@ {
            if o.value is Flag {
                s_field_attrs_from(
                    opts.drop_first(),
                    FieldAttrsView { skip: true, with: acc.with },
                )
            } else {
                Err(GenErrorView::UnknownOption(o.name@))
            }
        } else if o.name@ == "with"@ {
            if o.value is Text {
                s_field_attrs_from(
                    opts.drop_first(),
                    FieldAttrsView { skip: acc.skip, with: Some(o.value->Text_0@) },
                )
            } else {
                Err(GenErrorView::UnknownOption(o.name@))
            }
        } else {
            Err(GenErrorView::UnknownOption(o.name@))
        }
    }
}

/// What parsing the field-level options yields.
pub open spec fn s_field_attrs(opts: Seq<RawOption>) -> Result<FieldAttrsView, GenErrorView> {
    s_field_attrs_from(opts, FieldAttrsView { skip: false, with: None })
}

impl ProtobufConvertFieldAttrs {
    /// Parses the field-level options of one struct field. Fails on any
    /// option that is not recognized, naming it.
    #[verifier::loop_isolation(false)]
    pub fn try_from(options: &Vec<RawOption>) -> (r: Result<Self, GenError>)
        ensures
            match r {
                Ok(a) => s_field_attrs(options@) == Ok::<FieldAttrsView, GenErrorView>(a@),
                Err(e) => s_field_attrs(options@) == Err::<FieldAttrsView, GenErrorView>(e@),
            },
    {
        let mut cur = ProtobufConvertFieldAttrs::default();
        let mut i: usize = 0;
        proof {
            assert(options@.skip(0) =~= options@);
        }
        while i < options.len()
            invariant
                i <= options@.len(),
                s_field_attrs(options@) == s_field_attrs_from(options@.skip(i as int), cur@),
            decreases options@.len() - i,
        {
            let o = &options[i];
            proof {
                assert(options@.skip(i as int)[0] == options@[i as int]);
                assert(options@.skip(i as int).drop_first() =~= options@.skip(i as int + 1));
            }
            if string_is(&o.name, "skip") {
                match &o.value {
                    OptionValue::Flag => {
                        cur = ProtobufConvertFieldAttrs { skip: true, with: cur.with };
                    },
                    _ => {
                        return Err(GenError::UnknownOption { name: o.name.clone() });
                    },
                }
            } else if string_is(&o.name, "with") {
                match &o.value {
                    OptionValue::Text(v) => {
                        cur = ProtobufConvertFieldAttrs { skip: cur.skip, with: Some(v.clone()) };
                    },
                    _ => {
                        return Err(GenError::UnknownOption { name: o.name.clone() });
                    },
                }
            } else {
                return Err(GenError::UnknownOption { name: o.name.clone() });
            }
            i += 1;
        }
        Ok(cur)
    }
}

} // verus!
