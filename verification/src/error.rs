//! Errors of the two phases.
//!
//! A [`GenError`] is a generation-time failure: the declarative directives
//! or the declared shape of a type break a rule, and no conversion plan is
//! produced for that type.
//!
//! A [`ConversionError`] is a runtime conversion failure surfaced by
//! `from_external`: a missing oneof discriminant, an unregistered or
//! failing custom converter, or a nested field's failure. It carries a
//! human-readable message.

use vstd::prelude::*;
use vstd::string::StringExecFns;

verus! {

/// A generation-time failure.
#[derive(Debug, PartialEq, Eq)]
pub enum GenError {
    /// A directive used an option name that is not recognized.
    UnknownOption { name: String },
    /// The mandatory `source` option naming the external schema type is
    /// absent; `ty` is the native type concerned.
    MissingSource { ty: String },
    /// The rename directive asked for a case other than the recognized one.
    UndefinedCase { value: String },
    /// An enum variant does not carry exactly one associated value.
    TooManyFields { variant: String },
    /// An enum variant is not of the supported `Name(Payload)` shape, or a
    /// payload type is not a nameable path.
    UnsupportedShape { variant: String },
    /// A struct field's declared type cannot take part in a conversion.
    UnsupportedField { field: String },
    /// The declared type is neither a struct nor an enum.
    UnsupportedInput,
}

/// Mathematical model of a [`GenError`].
#[verifier::ext_equal]
pub enum GenErrorView {
    UnknownOption(Seq<char>),
    MissingSource(Seq<char>),
    UndefinedCase(Seq<char>),
    TooManyFields(Seq<char>),
    UnsupportedShape(Seq<char>),
    UnsupportedField(Seq<char>),
    UnsupportedInput,
}

impl View for GenError {
    type V = GenErrorView;

    open spec fn view(&self) -> GenErrorView {
        match self {
            GenError::UnknownOption { name } => GenErrorView::UnknownOption(name@),
            GenError::MissingSource { ty } => GenErrorView::MissingSource(ty@),
            GenError::UndefinedCase { value } => GenErrorView::UndefinedCase(value@),
            GenError::TooManyFields { variant } => GenErrorView::TooManyFields(variant@),
            GenError::UnsupportedShape { variant } => GenErrorView::UnsupportedShape(variant@),
            GenError::UnsupportedField { field } => GenErrorView::UnsupportedField(field@),
            GenError::UnsupportedInput => GenErrorView::UnsupportedInput,
        }
    }
}

/// The message that describes a generation-time failure.
pub open spec fn gen_error_msg(e: GenErrorView) -> Seq<char> {
    match e {
        GenErrorView::UnknownOption(name) => "Unknown option `"@ + name + "`"@,
        GenErrorView::MissingSource(ty) => "`source` attribute is required for `"@ + ty + "`"@,
        GenErrorView::UndefinedCase(value) => "Undefined case type `"@ + value + "`"@,
        GenErrorView::TooManyFields(variant) => "Too many fields in the enum variant `"@
            + variant + "`"@,
        GenErrorView::UnsupportedShape(variant) => "Only variants in form Foo(Bar) are supported: `"@
            + variant + "`"@,
        GenErrorView::UnsupportedField(field) => "Unsupported type of the field `"@ + field
            + "`"@,
        GenErrorView::UnsupportedInput => "Only for enums and structs."@,
    }
}

impl GenError {
    /// Renders the failure as its human-readable message.
    pub fn message(&self) -> (r: String)
        ensures
            r@ == gen_error_msg(self@),
    {
        match self {
            GenError::UnknownOption { name } => String::from_str("Unknown option `").concat(
                name.as_str(),
            ).concat("`"),
            GenError::MissingSource { ty } => String::from_str(
                "`source` attribute is required for `",
            ).concat(ty.as_str()).concat("`"),
            GenError::UndefinedCase { value } => String::from_str("Undefined case type `").concat(
                value.as_str(),
            ).concat("`"),
            GenError::TooManyFields { variant } => String::from_str(
                "Too many fields in the enum variant `",
            ).concat(variant.as_str()).concat("`"),
            GenError::UnsupportedShape { variant } => String::from_str(
                "Only variants in form Foo(Bar) are supported: `",
            ).concat(variant.as_str()).concat("`"),
            GenError::UnsupportedField { field } => String::from_str(
                "Unsupported type of the field `",
            ).concat(field.as_str()).concat("`"),
            GenError::UnsupportedInput => String::from_str("Only for enums and structs."),
        }
    }
}

/// A runtime conversion failure, carrying a human-readable message.
#[derive(Debug, PartialEq, Eq)]
pub struct ConversionError {
    pub message: String,
}

impl View for ConversionError {
    type V = Seq<char>;

    open spec fn view(&self) -> Seq<char> {
        self.message@
    }
}

/// The digit character of one decimal digit.
pub open spec fn digit_char(d: int) -> char {
    if d == 0 {
        '0'
    } else if d == 1 {
        '1'
    } else if d == 2 {
        '2'
    } else if d == 3 {
        '3'
    } else if d == 4 {
        '4'
    } else if d == 5 {
        '5'
    } else if d == 6 {
        '6'
    } else if d == 7 {
        '7'
    } else if d == 8 {
        '8'
    } else {
        '9'
    }
}

/// The decimal rendering of a non-negative integer.
pub open spec fn decimal_of(n: int) -> Seq<char>
    recommends
        n >= 0,
    decreases n,
{
    if n < 10 {
        seq![digit_char(n)]
    } else {
        decimal_of(n / 10) + seq![digit_char(n % 10)]
    }
}

/// Appends the decimal rendering of `n` to `out`.
fn push_decimal(n: u32, out: &mut String)
    ensures
        final(out)@ == old(out)@ + decimal_of(n as int),
    decreases n,
{
    if n >= 10 {
        push_decimal(n / 10, out);
    }
    let d = n % 10;
    let ds: &str = if d == 0 {
        "0"
    } else if d == 1 {
        "1"
    } else if d == 2 {
        "2"
    } else if d == 3 {
        "3"
    } else if d == 4 {
        "4"
    } else if d == 5 {
        "5"
    } else if d == 6 {
        "6"
    } else if d == 7 {
        "7"
    } else if d == 8 {
        "8"
    } else {
        "9"
    };
    proof {
        reveal_strlit("0");
        reveal_strlit("1");
        reveal_strlit("2");
        reveal_strlit("3");
        reveal_strlit("4");
        reveal_strlit("5");
        reveal_strlit("6");
        reveal_strlit("7");
        reveal_strlit("8");
        reveal_strlit("9");
        assert(ds@ =~= seq![digit_char(d as int)]);
    }
    out.append(ds);
    proof {
        assert(out@ =~= old(out)@ + decimal_of(n as int));
    }
}

/// The decimal rendering of a `u32`, as a string.
pub fn u32_to_decimal(n: u32) -> (r: String)
    ensures
        r@ == decimal_of(n as int),
{
    let mut out = String::new();
    push_decimal(n, &mut out);
    proof {
        assert(out@ =~= decimal_of(n as int));
    }
    out
}

/// The message of the error reported when a oneof carrier holds no
/// populated case for the native enum type named `name`.
pub open spec fn missing_variant_msg(name: Seq<char>) -> Seq<char> {
    "Failed to decode "@ + name + " from protobuf"@
}

/// The message of the error reported when a registered converter does not
/// recognize the wire value `wire`; `prefix` is the converter's own text.
pub open spec fn unknown_wire_msg(prefix: Seq<char>, wire: int) -> Seq<char> {
    prefix + decimal_of(wire)
}

/// The message of the error reported when a `with` directive names a path
/// under which no converter is registered.
pub open spec fn unknown_converter_msg(path: Seq<char>) -> Seq<char> {
    "Unknown converter `"@ + path + "`"@
}

/// The message of the error reported when a payload is unwrapped as the
/// variant named `want` but the value holds the variant named `got`.
pub open spec fn expected_variant_msg(want: Seq<char>, got: Seq<char>) -> Seq<char> {
    "Expected variant "@ + want + ", but got "@ + got
}

impl ConversionError {
    /// The error for a oneof carrier with no populated case.
    pub fn missing_variant(name: &String) -> (e: ConversionError)
        ensures
            e@ == missing_variant_msg(name@),
    {
        ConversionError {
            message: String::from_str("Failed to decode ").concat(name.as_str()).concat(
                " from protobuf",
            ),
        }
    }

    /// The error for a wire value no table entry maps.
    pub fn unknown_wire(prefix: &String, wire: u32) -> (e: ConversionError)
        ensures
            e@ == unknown_wire_msg(prefix@, wire as int),
    {
        let rendered = u32_to_decimal(wire);
        ConversionError { message: prefix.clone().concat(rendered.as_str()) }
    }

    /// The error for a path with no registered converter.
    pub fn unknown_converter(path: &String) -> (e: ConversionError)
        ensures
            e@ == unknown_converter_msg(path@),
    {
        ConversionError {
            message: String::from_str("Unknown converter `").concat(path.as_str()).concat("`"),
        }
    }

    /// The error for unwrapping the wrong variant.
    pub fn expected_variant(want: &String, got: &String) -> (e: ConversionError)
        ensures
            e@ == expected_variant_msg(want@, got@),
    {
        ConversionError {
            message: String::from_str("Expected variant ").concat(want.as_str()).concat(
                ", but got ",
            ).concat(got.as_str()),
        }
    }
}

} // verus!
