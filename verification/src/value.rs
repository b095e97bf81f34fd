//! Runtime values handled by the generic converter.
//!
//! A native value is an instance of an annotated type: a scalar, a struct
//! (`Record`) holding one value per declared field, or an enum (`Variant`)
//! holding the index of the live variant and its single payload.
//!
//! An external value is an instance of an external schema type: a scalar,
//! a message holding named slots (a slot that is never set is absent and
//! reads back as the slot type's default), or a oneof carrier holding at
//! most one populated case.

use vstd::prelude::*;

verus! {

/// A value of a native (annotated) type.
#[derive(Debug, PartialEq, Eq)]
pub enum NativeValue {
    /// A `u32` scalar; converts to the external representation by identity.
    U32(u32),
    /// A text scalar; converts by identity.
    Text(String),
    /// A struct instance: one value per field, in declaration order.
    Record(Vec<NativeValue>),
    /// An enum instance: index of the live variant, and its payload.
    Variant(usize, Box<NativeValue>),
}

/// Mathematical model of a [`NativeValue`].
#[verifier::ext_equal]
pub enum NativeView {
    U32(u32),
    Text(Seq<char>),
    Record(Seq<NativeView>),
    Variant(int, Box<NativeView>),
}

/// Model of one native value.
pub open spec fn native_view_of(v: NativeValue) -> NativeView
    decreases v,
{
    match v {
        NativeValue::U32(n) => NativeView::U32(n),
        NativeValue::Text(s) => NativeView::Text(s@),
        NativeValue::Record(fields) => NativeView::Record(native_views_of_vec(fields)),
        NativeValue::Variant(tag, payload) => NativeView::Variant(
            tag as int,
            Box::new(native_view_of(*payload)),
        ),
    }
}

/// Model of a vector of native values.
pub open spec fn native_views_of_vec(v: Vec<NativeValue>) -> Seq<NativeView>
    decreases v,
{
    native_views_of(v@)
}

/// Model of a sequence of native values, element by element.
pub open spec fn native_views_of(s: Seq<NativeValue>) -> Seq<NativeView>
    decreases s,
{
    if s.len() == 0 {
        Seq::empty()
    } else {
        seq![native_view_of(s[0])] + native_views_of(s.drop_first())
    }
}

/// The model of a sequence of native values has the same length and holds
/// the model of each element.
pub broadcast proof fn lemma_native_views_of(s: Seq<NativeValue>)
    ensures
        (#[trigger] native_views_of(s)).len() == s.len(),
        forall|i: int| 0 <= i < s.len() ==> native_views_of(s)[i] == native_view_of(s[i]),
    decreases s.len(),
{
    if s.len() > 0 {
        lemma_native_views_of(s.drop_first());
        assert forall|i: int| 0 <= i < s.len() implies native_views_of(s)[i]
            == native_view_of(s[i]) by {
            if i > 0 {
                assert(native_views_of(s)[i] == native_views_of(s.drop_first())[i - 1]);
                assert(s.drop_first()[i - 1] == s[i]);
            }
        }
    }
}

impl View for NativeValue {
    type V = NativeView;

    open spec fn view(&self) -> NativeView {
        native_view_of(*self)
    }
}

/// Definitional fact: the model of a `u32` scalar.
pub broadcast proof fn lemma_view_u32(n: u32)
    ensures
        #[trigger] native_view_of(NativeValue::U32(n)) == NativeView::U32(n),
{
}

/// Definitional fact: the model of a text scalar.
pub broadcast proof fn lemma_view_text(s: String)
    ensures
        #[trigger] native_view_of(NativeValue::Text(s)) == NativeView::Text(s@),
{
}

/// Definitional fact: the model of a struct instance.
pub broadcast proof fn lemma_view_record(v: Vec<NativeValue>)
    ensures
        #[trigger] native_view_of(NativeValue::Record(v)) == NativeView::Record(
            native_views_of(v@),
        ),
{
    assert(native_view_of(NativeValue::Record(v)) == NativeView::Record(native_views_of_vec(v)));
    assert(native_views_of_vec(v) == native_views_of(v@));
}

/// Definitional fact: the model of an enum instance.
pub broadcast proof fn lemma_view_variant(t: usize, p: Box<NativeValue>)
    ensures
        #[trigger] native_view_of(NativeValue::Variant(t, p)) == NativeView::Variant(
            t as int,
            Box::new(native_view_of(*p)),
        ),
{
}

impl NativeValue {
    /// Structural equality of two native values: true exactly when their
    /// models agree.
    #[verifier::loop_isolation(false)]
    pub fn value_eq(&self, other: &NativeValue) -> (r: bool)
        ensures
            r == (self@ == other@),
        decreases *self,
    {
        broadcast use lemma_view_u32, lemma_view_text, lemma_view_record, lemma_view_variant;

        match (self, other) {
            (NativeValue::U32(a), NativeValue::U32(b)) => a == b,
            (NativeValue::Text(a), NativeValue::Text(b)) => *a == *b,
            (NativeValue::Record(xs), NativeValue::Record(ys)) => {
                proof {
                    lemma_native_views_of(xs@);
                    lemma_native_views_of(ys@);
                }
                if xs.len() != ys.len() {
                    return false;
                }
                let n = xs.len();
                let mut i: usize = 0;
                while i < n
                    invariant
                        i <= n,
                        n == xs@.len(),
                        n == ys@.len(),
                        forall|j: int|
                            0 <= j < i ==> native_view_of(xs@[j]) == native_view_of(ys@[j]),
                    decreases n - i,
                {
                    proof {
                        assert(decreases_to!(*self => (*self)->Record_0));
                        assert(decreases_to!(xs@ => xs@[i as int]));
                    }
                    if !xs[i].value_eq(&ys[i]) {
                        proof {
                            lemma_native_views_of(xs@);
                            lemma_native_views_of(ys@);
                            assert(native_views_of(xs@)[i as int] != native_views_of(ys@)[
                                i as int
                            ]);
                        }
                        return false;
                    }
                    i += 1;
                }
                proof {
                    lemma_native_views_of(xs@);
                    lemma_native_views_of(ys@);
                    assert(native_views_of(xs@) =~= native_views_of(ys@));
                }
                true
            },
            (NativeValue::Variant(t, p), NativeValue::Variant(u, q)) => {
                if *t == *u {
                    p.value_eq(q)
                } else {
                    false
                }
            },
            _ => {
                proof {
                    assert(self@ != other@);
                }
                false
            },
        }
    }
}

/// One named slot of an external message.
#[derive(Debug, PartialEq, Eq)]
pub struct Slot {
    pub name: String,
    pub value: ExternalValue,
}

/// The populated case of a oneof carrier: the case's slot name and the
/// external payload stored under it.
#[derive(Debug, PartialEq, Eq)]
pub struct OneofCase {
    pub slot: String,
    pub value: Box<ExternalValue>,
}

/// A value of an external schema type.
#[derive(Debug, PartialEq, Eq)]
pub enum ExternalValue {
    /// A `u32` scalar slot value.
    U32(u32),
    /// A text scalar slot value.
    Text(String),
    /// A message: the slots that were explicitly set, in the order they
    /// were set. A slot not listed holds its type's default.
    Message(Vec<Slot>),
    /// A message whose whole content is one oneof field: at most one
    /// populated case.
    Oneof(Option<OneofCase>),
}

/// Mathematical model of a [`Slot`].
#[verifier::ext_equal]
pub struct SlotView {
    pub name: Seq<char>,
    pub value: ExternalView,
}

/// Mathematical model of a [`OneofCase`].
#[verifier::ext_equal]
pub struct OneofCaseView {
    pub slot: Seq<char>,
    pub value: Box<ExternalView>,
}

/// Mathematical model of an [`ExternalValue`].
#[verifier::ext_equal]
pub enum ExternalView {
    U32(u32),
    Text(Seq<char>),
    Message(Seq<SlotView>),
    Oneof(Option<OneofCaseView>),
}

/// Model of one external value.
pub open spec fn external_view_of(v: ExternalValue) -> ExternalView
    decreases v,
{
    match v {
        ExternalValue::U32(n) => ExternalView::U32(n),
        ExternalValue::Text(s) => ExternalView::Text(s@),
        ExternalValue::Message(slots) => ExternalView::Message(slot_views_of_vec(slots)),
        ExternalValue::Oneof(case) => ExternalView::Oneof(
            match case {
                Some(c) => Some(
                    OneofCaseView { slot: c.slot@, value: Box::new(external_view_of(*c.value)) },
                ),
                None => None,
            },
        ),
    }
}

/// Model of a vector of slots.
pub open spec fn slot_views_of_vec(v: Vec<Slot>) -> Seq<SlotView>
    decreases v,
{
    slot_views_of(v@)
}

/// Model of a sequence of slots, element by element.
pub open spec fn slot_views_of(s: Seq<Slot>) -> Seq<SlotView>
    decreases s,
{
    if s.len() == 0 {
        Seq::empty()
    } else {
        seq![SlotView { name: s[0].name@, value: external_view_of(s[0].value) }]
            + slot_views_of(s.drop_first())
    }
}

/// The model of a sequence of slots has the same length and holds the
/// model of each slot.
pub broadcast proof fn lemma_slot_views_of(s: Seq<Slot>)
    ensures
        (#[trigger] slot_views_of(s)).len() == s.len(),
        forall|i: int|
            0 <= i < s.len() ==> slot_views_of(s)[i] == (SlotView {
                name: s[i].name@,
                value: external_view_of(s[i].value),
            }),
    decreases s.len(),
{
    if s.len() > 0 {
        lemma_slot_views_of(s.drop_first());
        assert forall|i: int| 0 <= i < s.len() implies slot_views_of(s)[i] == (SlotView {
            name: s[i].name@,
            value: external_view_of(s[i].value),
        }) by {
            if i > 0 {
                assert(slot_views_of(s)[i] == slot_views_of(s.drop_first())[i - 1]);
                assert(s.drop_first()[i - 1] == s[i]);
            }
        }
    }
}

impl View for ExternalValue {
    type V = ExternalView;

    open spec fn view(&self) -> ExternalView {
        external_view_of(*self)
    }
}

/// Definitional fact: the model of a `u32` slot value.
pub broadcast proof fn lemma_eview_u32(n: u32)
    ensures
        #[trigger] external_view_of(ExternalValue::U32(n)) == ExternalView::U32(n),
{
}

/// Definitional fact: the model of a text slot value.
pub broadcast proof fn lemma_eview_text(s: String)
    ensures
        #[trigger] external_view_of(ExternalValue::Text(s)) == ExternalView::Text(s@),
{
}

/// Definitional fact: the model of a message.
pub broadcast proof fn lemma_eview_message(v: Vec<Slot>)
    ensures
        #[trigger] external_view_of(ExternalValue::Message(v)) == ExternalView::Message(
            slot_views_of(v@),
        ),
{
    assert(external_view_of(ExternalValue::Message(v)) == ExternalView::Message(
        slot_views_of_vec(v),
    ));
    assert(slot_views_of_vec(v) == slot_views_of(v@));
}

/// Definitional fact: the model of an empty oneof carrier.
pub broadcast proof fn lemma_eview_oneof_none()
    ensures
        #[trigger] external_view_of(ExternalValue::Oneof(None)) == ExternalView::Oneof(None),
{
}

/// Definitional fact: the model of a populated oneof carrier.
pub broadcast proof fn lemma_eview_oneof_some(c: OneofCase)
    ensures
        #[trigger] external_view_of(ExternalValue::Oneof(Some(c))) == ExternalView::Oneof(
            Some(OneofCaseView { slot: c.slot@, value: Box::new(external_view_of(*c.value)) }),
        ),
{
}

/// Appending a native value appends its model.
pub broadcast proof fn lemma_native_views_push(s: Seq<NativeValue>, x: NativeValue)
    ensures
        #[trigger] native_views_of(s.push(x)) == native_views_of(s) + seq![native_view_of(x)],
{
    lemma_native_views_of(s.push(x));
    lemma_native_views_of(s);
    assert(native_views_of(s.push(x)) =~= native_views_of(s) + seq![native_view_of(x)]);
}

/// Appending a slot appends its model.
pub broadcast proof fn lemma_slot_views_push(s: Seq<Slot>, x: Slot)
    ensures
        #[trigger] slot_views_of(s.push(x)) == slot_views_of(s) + seq![
            SlotView { name: x.name@, value: external_view_of(x.value) },
        ],
{
    lemma_slot_views_of(s.push(x));
    lemma_slot_views_of(s);
    assert(slot_views_of(s.push(x)) =~= slot_views_of(s) + seq![
        SlotView { name: x.name@, value: external_view_of(x.value) },
    ]);
}

impl NativeValue {
    /// A structural copy of this value, with the same model.
    #[verifier::loop_isolation(false)]
    pub fn deep_clone(&self) -> (r: NativeValue)
        ensures
            r@ == self@,
        decreases *self,
    {
        broadcast use lemma_view_u32, lemma_view_text, lemma_view_record, lemma_view_variant;

        match self {
            NativeValue::U32(n) => NativeValue::U32(*n),
            NativeValue::Text(s) => NativeValue::Text(s.clone()),
            NativeValue::Record(xs) => {
                let mut out: Vec<NativeValue> = Vec::new();
                let n = xs.len();
                let mut i: usize = 0;
                while i < n
                    invariant
                        i <= n,
                        n == xs@.len(),
                        out@.len() == i,
                        forall|j: int|
                            0 <= j < i ==> native_view_of(out@[j]) == native_view_of(xs@[j]),
                    decreases n - i,
                {
                    proof {
                        assert(decreases_to!(*self => (*self)->Record_0));
                        assert(decreases_to!(xs@ => xs@[i as int]));
                    }
                    let item = xs[i].deep_clone();
                    out.push(item);
                    i += 1;
                }
                proof {
                    lemma_native_views_of(out@);
                    lemma_native_views_of(xs@);
                    assert(native_views_of(out@) =~= native_views_of(xs@));
                }
                NativeValue::Record(out)
            },
            NativeValue::Variant(t, p) => NativeValue::Variant(*t, Box::new(p.deep_clone())),
        }
    }
}

/// The definitional facts about value models, for use as ambient lemmas.
pub broadcast group group_value_views {
    lemma_native_views_push,
    lemma_slot_views_push,
    lemma_view_u32,
    lemma_view_text,
    lemma_view_record,
    lemma_view_variant,
    lemma_native_views_of,
    lemma_eview_u32,
    lemma_eview_text,
    lemma_eview_message,
    lemma_eview_oneof_none,
    lemma_eview_oneof_some,
    lemma_slot_views_of,
}

impl View for Slot {
    type V = SlotView;

    open spec fn view(&self) -> SlotView {
        SlotView { name: self.name@, value: external_view_of(self.value) }
    }
}

} // verus!
