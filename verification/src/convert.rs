//! What the generated conversions do to values.
//!
//! A value of a composed type is a component value together with the name of
//! the variant that wraps it. An upcast wraps; a downcast unwraps where the
//! variant is the one asked for.

use crate::synth::{
    downcasts_of, mismatch_text, upcasts_of, Downcast, DowncastView, SumTypeView, Upcast,
    UpcastView,
};
use vstd::prelude::*;

verus! {

/// A value of a composed type: the type's name, the name of the variant that
/// is active, and the component value inside it.
#[derive(Debug, PartialEq, Eq)]
pub struct Composed<T> {
    pub composed_type: String,
    pub variant: String,
    pub value: T,
}

pub struct ComposedView<T> {
    pub composed_type: Seq<char>,
    pub variant: Seq<char>,
    pub value: T,
}

impl<T> View for Composed<T> {
    type V = ComposedView<T>;

    open spec fn view(&self) -> ComposedView<T> {
        ComposedView { composed_type: self.composed_type@, variant: self.variant@, value: self.value }
    }
}

impl UpcastView {
    /// The composed value that wraps `value`.
    pub open spec fn apply<T>(self, value: T) -> ComposedView<T> {
        ComposedView { composed_type: self.composed, variant: self.component, value }
    }
}

impl DowncastView {
    /// Whether `composed` is a value of this downcast's type in the variant
    /// of its component.
    pub open spec fn accepts<T>(self, composed: ComposedView<T>) -> bool {
        composed.composed_type == self.composed && composed.variant == self.component
    }

    /// The component value inside `composed`, or the message of the failure.
    pub open spec fn apply<T>(self, composed: ComposedView<T>) -> Result<T, Seq<char>> {
        if self.accepts(composed) {
            Ok(composed.value)
        } else {
            Err(self.mismatch)
        }
    }
}

/// The outcome of a downcast, as the contracts see it.
pub open spec fn outcome_view<T>(outcome: Result<T, String>) -> Result<T, Seq<char>> {
    match outcome {
        Ok(value) => Ok(value),
        Err(message) => Err(message@),
    }
}

impl Upcast {
    /// Wraps `value` in the variant of this upcast's component. This cannot
    /// fail.
    pub fn apply<T>(&self, value: T) -> (composed: Composed<T>)
        ensures
            composed@ == self@.apply(value),
    {
        Composed { composed_type: self.composed.clone(), variant: self.component.clone(), value }
    }
}

impl Downcast {
    /// Takes the component value out of `composed`. The value comes back
    /// where `composed` is of this downcast's type and its active variant is
    /// that of the component asked for; otherwise the downcast fails with its
    /// message, and the value is lost.
    pub fn apply<T>(&self, composed: Composed<T>) -> (outcome: Result<T, String>)
        ensures
            outcome_view(outcome) == self@.apply(composed@),
    {
        if composed.composed_type == self.composed && composed.variant == self.component {
            Ok(composed.value)
        } else {
            Err(self.mismatch.clone())
        }
    }
}

/// Upcasts are total: a sum type has an upcast for each of its variants, and
/// upcasting any value gives a value of the sum type whose active variant is
/// that one, with the value inside.
pub proof fn lemma_upcast_total<T>(sum_type: SumTypeView, i: int, value: T)
    requires
        sum_type.well_formed(),
        0 <= i < sum_type.variants.len(),
    ensures
        upcasts_of(sum_type).len() == sum_type.variants.len(),
        upcasts_of(sum_type)[i].component == sum_type.variants[i].payload,
        upcasts_of(sum_type)[i].apply(value) == (ComposedView {
            composed_type: sum_type.name,
            variant: sum_type.variants[i].name,
            value,
        }),
{
}

/// Downcasts are sound: what was upcast from a component comes back
/// unchanged from the downcast to that component, and the downcast to any
/// component of another name fails, with a message that names the sum type
/// and the component asked for.
pub proof fn lemma_downcast_sound<T>(sum_type: SumTypeView, i: int, j: int, value: T)
    requires
        sum_type.well_formed(),
        0 <= i < sum_type.variants.len(),
        0 <= j < sum_type.variants.len(),
    ensures
        downcasts_of(sum_type)[i].apply(upcasts_of(sum_type)[i].apply(value)) == Ok::<
            T,
            Seq<char>,
        >(value),
        sum_type.variants[j].name != sum_type.variants[i].name ==> downcasts_of(
            sum_type,
        )[j].apply(upcasts_of(sum_type)[i].apply(value)) == Err::<T, Seq<char>>(
            mismatch_text(sum_type.name, sum_type.variants[j].payload),
        ),
{
}

} // verus!
