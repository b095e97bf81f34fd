//! The optional variant conversions of an enum descriptor.
//!
//! When an enum requests them (`impl_from_trait`), each variant gets an
//! infallible wrap — payload in, enum value out — and a fallible unwrap
//! that succeeds only when the value holds that very variant, else fails
//! naming the expected and the actual variant. Requesting them is only
//! sound when no two variants share a payload type; the generator does
//! not detect that, it is the caller's responsibility.

use vstd::prelude::*;
use crate::convert::res_view;
use crate::descriptor::{EnumDescView, ProtobufConvertEnum};
use crate::error::{expected_variant_msg, ConversionError};
use crate::value::{NativeValue, NativeView};

verus! {

/// What wrapping a payload into variant `t` yields.
pub open spec fn s_wrap(t: int, p: NativeView) -> NativeView {
    NativeView::Variant(t, Box::new(p))
}

/// What unwrapping an enum value as variant `want`'s payload yields: the
/// payload when the value holds that variant, else the error naming the
/// expected variant and the one actually held.
pub open spec fn s_unwrap(e: EnumDescView, want: int, v: NativeView) -> Result<
    NativeView,
    Seq<char>,
>
    recommends
        v is Variant,
{
    match v {
        NativeView::Variant(t, p) => if t == want {
            Ok(*p)
        } else {
            Err(expected_variant_msg(e.variants[want].name, e.variants[t].name))
        },
        _ => Err(Seq::empty()),
    }
}

impl ProtobufConvertEnum {
    /// Wraps a payload into the variant at `index`: the infallible
    /// conversion from a variant's payload type to the enum type.
    pub fn wrap_variant(&self, index: usize, payload: NativeValue) -> (r: NativeValue)
        requires
            self.impl_from_trait,
            index < self.variants@.len(),
        ensures
            r@ == s_wrap(index as int, payload@),
    {
        NativeValue::Variant(index, Box::new(payload))
    }

    /// Unwraps an enum value as the payload of the variant at `want`: the
    /// fallible conversion from the enum type to a variant's payload
    /// type. It succeeds exactly when the value holds that variant, and
    /// else fails naming the expected variant and the one actually held.
    pub fn try_unwrap_variant(&self, want: usize, v: NativeValue) -> (r: Result<
        NativeValue,
        ConversionError,
    >)
        requires
            self.impl_from_trait,
            want < self.variants@.len(),
            v@ is Variant,
            0 <= v@->Variant_0 < self.variants@.len(),
        ensures
            res_view(r) == s_unwrap(self@, want as int, v@),
    {
        broadcast use crate::value::group_value_views, crate::descriptor::group_desc_views;

        match v {
            NativeValue::Variant(t, p) => {
                if t == want {
                    Ok(*p)
                } else {
                    Err(
                        ConversionError::expected_variant(
                            &self.variants[want].name,
                            &self.variants[t].name,
                        ),
                    )
                }
            },
            _ => vstd::pervasive::unreached(),
        }
    }
}

/// WRAP THEN UNWRAP. Unwrapping through the same variant always succeeds
/// and returns the original payload.
pub proof fn lemma_wrap_then_unwrap(e: EnumDescView, i: int, p: NativeView)
    requires
        0 <= i < e.variants.len(),
    ensures
        s_unwrap(e, i, s_wrap(i, p)) == Ok::<NativeView, Seq<char>>(p),
{
}

/// WRAP THEN UNWRAP ELSEWHERE. Wrapping a payload into one variant and
/// unwrapping it as another fails, naming the expected variant and the
/// one actually held.
pub proof fn lemma_wrap_unwrap_mismatch(e: EnumDescView, i: int, j: int, p: NativeView)
    requires
        0 <= i < e.variants.len(),
        0 <= j < e.variants.len(),
        i != j,
    ensures
        s_unwrap(e, j, s_wrap(i, p)) == Err::<NativeView, Seq<char>>(
            expected_variant_msg(e.variants[j].name, e.variants[i].name),
        ),
{
}

} // verus!
