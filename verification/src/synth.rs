//! Synthesis of sum types and of the conversions that go with them.

use crate::text::{lemma_views_push, lemma_views_take_all, lemma_views_take_next, views};
use vstd::prelude::*;

verus! {

/// One variant of a sum type: its name, and the type of the one value that it
/// wraps.
#[derive(Debug, PartialEq, Eq)]
pub struct Variant {
    pub name: String,
    pub payload: String,
}

pub struct VariantView {
    pub name: Seq<char>,
    pub payload: Seq<char>,
}

impl View for Variant {
    type V = VariantView;

    open spec fn view(&self) -> VariantView {
        VariantView { name: self.name@, payload: self.payload@ }
    }
}

/// A composed error type: a tagged union with one variant per error kind.
#[derive(Debug, PartialEq, Eq)]
pub struct SumType {
    pub name: String,
    pub variants: Vec<Variant>,
}

pub struct SumTypeView {
    pub name: Seq<char>,
    pub variants: Seq<VariantView>,
}

impl View for SumType {
    type V = SumTypeView;

    open spec fn view(&self) -> SumTypeView {
        SumTypeView { name: self.name@, variants: views(self.variants@) }
    }
}

impl SumTypeView {
    /// A sum type has at least one variant, and each variant bears the name
    /// of the type that it wraps.
    pub open spec fn well_formed(self) -> bool {
        &&& self.variants.len() > 0
        &&& forall|i: int|
            0 <= i < self.variants.len() ==> (#[trigger] self.variants[i]).name
                == self.variants[i].payload
    }
}

/// The conversion of a component into the composed type. It never fails.
#[derive(Debug, PartialEq, Eq)]
pub struct Upcast {
    pub component: String,
    pub composed: String,
}

pub struct UpcastView {
    pub component: Seq<char>,
    pub composed: Seq<char>,
}

impl View for Upcast {
    type V = UpcastView;

    open spec fn view(&self) -> UpcastView {
        UpcastView { component: self.component@, composed: self.composed@ }
    }
}

/// The conversion of the composed type back into one component. It fails,
/// with `mismatch` as its message, on a value of another variant.
#[derive(Debug, PartialEq, Eq)]
pub struct Downcast {
    pub composed: String,
    pub component: String,
    pub mismatch: String,
}

pub struct DowncastView {
    pub composed: Seq<char>,
    pub component: Seq<char>,
    pub mismatch: Seq<char>,
}

impl View for Downcast {
    type V = DowncastView;

    open spec fn view(&self) -> DowncastView {
        DowncastView {
            composed: self.composed@,
            component: self.component@,
            mismatch: self.mismatch@,
        }
    }
}

/// What is generated for one member: the sum type, then one upcast and one
/// downcast per variant, each list in the order of the variants.
#[derive(Debug, PartialEq, Eq)]
pub struct Synthesized {
    pub sum_type: SumType,
    pub upcasts: Vec<Upcast>,
    pub downcasts: Vec<Downcast>,
}

pub struct SynthesizedView {
    pub sum_type: SumTypeView,
    pub upcasts: Seq<UpcastView>,
    pub downcasts: Seq<DowncastView>,
}

impl View for Synthesized {
    type V = SynthesizedView;

    open spec fn view(&self) -> SynthesizedView {
        SynthesizedView {
            sum_type: self.sum_type@,
            upcasts: views(self.upcasts@),
            downcasts: views(self.downcasts@),
        }
    }
}

/// The variant for the error kind `kind`: it bears the kind's name and wraps
/// a value of the kind.
pub open spec fn variant_of(kind: Seq<char>) -> VariantView {
    VariantView { name: kind, payload: kind }
}

/// The sum type named `name` over the error kinds `kinds`.
pub open spec fn sum_type_of(name: Seq<char>, kinds: Seq<Seq<char>>) -> SumTypeView {
    SumTypeView { name, variants: Seq::new(kinds.len(), |i: int| variant_of(kinds[i])) }
}

/// What a failed downcast says: the composed type and the component that was
/// asked for.
pub open spec fn mismatch_text(composed: Seq<char>, component: Seq<char>) -> Seq<char> {
    "This instance of "@ + composed + " is of a variant different than the requested "@
        + component
}

/// The upcast into `sum_type` for one of its variants.
pub open spec fn upcast_of(sum_type: SumTypeView, variant: VariantView) -> UpcastView {
    UpcastView { component: variant.payload, composed: sum_type.name }
}

/// The downcast out of `sum_type` for one of its variants.
pub open spec fn downcast_of(sum_type: SumTypeView, variant: VariantView) -> DowncastView {
    DowncastView {
        composed: sum_type.name,
        component: variant.payload,
        mismatch: mismatch_text(sum_type.name, variant.payload),
    }
}

/// The upcasts into `sum_type`, one per variant.
pub open spec fn upcasts_of(sum_type: SumTypeView) -> Seq<UpcastView> {
    Seq::new(sum_type.variants.len(), |i: int| upcast_of(sum_type, sum_type.variants[i]))
}

/// The downcasts out of `sum_type`, one per variant.
pub open spec fn downcasts_of(sum_type: SumTypeView) -> Seq<DowncastView> {
    Seq::new(sum_type.variants.len(), |i: int| downcast_of(sum_type, sum_type.variants[i]))
}

/// A sum type with its conversions.
pub open spec fn with_conversions(sum_type: SumTypeView) -> SynthesizedView {
    SynthesizedView {
        sum_type,
        upcasts: upcasts_of(sum_type),
        downcasts: downcasts_of(sum_type),
    }
}

/// What is generated under the name `name` for the error set `kinds`:
/// nothing for an empty set.
pub open spec fn synthesis(name: Seq<char>, kinds: Seq<Seq<char>>) -> Option<SynthesizedView> {
    if kinds.len() == 0 {
        None
    } else {
        Some(with_conversions(sum_type_of(name, kinds)))
    }
}

/// The message of a downcast that fails.
pub fn mismatch_message(composed: &str, component: &str) -> (message: String)
    ensures
        message@ == mismatch_text(composed@, component@),
{
    let mut message = String::from_str("This instance of ");
    message.append(composed);
    message.append(" is of a variant different than the requested ");
    message.append(component);
    message
}

/// Builds the sum type named `name` with one variant per entry of
/// `error_set`, in that order; an empty error set gives no sum type.
pub fn synthesize_sum_type(name: &str, error_set: &Vec<String>) -> (sum_type: Option<SumType>)
    ensures
        error_set@.len() == 0 ==> sum_type is None,
        error_set@.len() > 0 ==> sum_type is Some && sum_type->0@ == sum_type_of(
            name@,
            views(error_set@),
        ),
        sum_type is Some ==> sum_type->0@.well_formed(),
{
    if error_set.len() == 0 {
        return None;
    }
    let mut variants: Vec<Variant> = Vec::new();
    for i in 0..error_set.len()
        invariant
            views(variants@) == sum_type_of(name@, views(error_set@.take(i as int))).variants,
    {
        let variant = Variant { name: error_set[i].clone(), payload: error_set[i].clone() };
        proof {
            lemma_views_push(variants@, variant);
            lemma_views_take_next(error_set@, i as int);
            assert(sum_type_of(name@, views(error_set@.take(i + 1))).variants =~= sum_type_of(
                name@,
                views(error_set@.take(i as int)),
            ).variants.push(variant@));
        }
        variants.push(variant);
    }
    proof {
        lemma_views_take_all(error_set@);
    }
    Some(SumType { name: String::from_str(name), variants })
}

/// Builds the conversions of a sum type: for every variant the upcast into
/// the sum type and the downcast out of it, each list in the order of the
/// variants.
pub fn synthesize_conversions(sum_type: &SumType) -> (conversions: (Vec<Upcast>, Vec<Downcast>))
    ensures
        views(conversions.0@) == upcasts_of(sum_type@),
        views(conversions.1@) == downcasts_of(sum_type@),
{
    let mut upcasts: Vec<Upcast> = Vec::new();
    let mut downcasts: Vec<Downcast> = Vec::new();
    for i in 0..sum_type.variants.len()
        invariant
            views(upcasts@) == upcasts_of(sum_type@).take(i as int),
            views(downcasts@) == downcasts_of(sum_type@).take(i as int),
    {
        let variant = &sum_type.variants[i];
        let upcast = Upcast { component: variant.payload.clone(), composed: sum_type.name.clone() };
        let downcast = Downcast {
            composed: sum_type.name.clone(),
            component: variant.payload.clone(),
            mismatch: mismatch_message(sum_type.name.as_str(), variant.payload.as_str()),
        };
        proof {
            lemma_views_push(upcasts@, upcast);
            lemma_views_push(downcasts@, downcast);
            assert(upcasts_of(sum_type@).take(i + 1) =~= upcasts_of(sum_type@).take(
                i as int,
            ).push(upcast@));
            assert(downcasts_of(sum_type@).take(i + 1) =~= downcasts_of(sum_type@).take(
                i as int,
            ).push(downcast@));
        }
        upcasts.push(upcast);
        downcasts.push(downcast);
    }
    proof {
        assert(upcasts_of(sum_type@).take(sum_type.variants@.len() as int) =~= upcasts_of(
            sum_type@,
        ));
        assert(downcasts_of(sum_type@).take(sum_type.variants@.len() as int) =~= downcasts_of(
            sum_type@,
        ));
    }
    (upcasts, downcasts)
}

/// A generated item, or none, as the contracts see it.
pub open spec fn synthesized_view(item: Option<Synthesized>) -> Option<SynthesizedView> {
    match item {
        Some(item) => Some(item@),
        None => None,
    }
}

/// Generates the sum type named `name` for `error_set`, with its conversions;
/// nothing for an empty error set.
pub fn synthesize(name: &str, error_set: &Vec<String>) -> (generated: Option<Synthesized>)
    ensures
        synthesized_view(generated) == synthesis(name@, views(error_set@)),
{
    match synthesize_sum_type(name, error_set) {
        Some(sum_type) => {
            let (upcasts, downcasts) = synthesize_conversions(&sum_type);
            Some(Synthesized { sum_type, upcasts, downcasts })
        },
        None => None,
    }
}

} // verus!
