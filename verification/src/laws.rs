//! What holds of every composition.

use crate::compose::{
    abstract_identity, composition, concrete_identity, found_on, functions_of, generated_for,
    generator, member_composed, transformed_items, transformed_member, ExpansionView,
    ScopeFuncsView,
};
use crate::error::ComposeError;
use crate::extract::{declares, lemma_no_declaration, FuncErrorsView};
use crate::naming::{composed_name, pascal_case};
use crate::rewrite::{awaits_failure_type, stays};
use crate::synth::{sum_type_of, synthesis, with_conversions};
use crate::tree::{AnnotationView, DeclarationUnitView, MemberView, ScopeItemView};
use vstd::prelude::*;

verus! {

/// The name of a composed type depends on nothing but the identity of the
/// scope and the name of the member: the same two give the same name, however
/// often it is asked for.
pub proof fn lemma_naming_is_determined(
    scope: Seq<char>,
    member: Seq<char>,
    other_scope: Seq<char>,
    other_member: Seq<char>,
)
    requires
        scope == other_scope,
        member == other_member,
    ensures
        composed_name(scope, member) == composed_name(other_scope, other_member),
{
}

/// A member of the scope with the empty identity is named after itself
/// alone.
pub proof fn lemma_standalone_name(member: Seq<char>)
    ensures
        composed_name(Seq::empty(), member) == pascal_case(member) + "Error"@,
{
    reveal(Seq::filter);
    assert(pascal_case(Seq::empty()) =~= Seq::<char>::empty());
    assert(Seq::<char>::empty() + pascal_case(member) =~= pascal_case(member));
}

/// Where no annotation declares an error set, all annotations stay.
pub proof fn lemma_all_stay(annotations: Seq<AnnotationView>)
    requires
        annotations.filter(declares()).len() == 0,
    ensures
        annotations.filter(stays()) == annotations,
    decreases annotations.len(),
{
    reveal(Seq::filter);
    if annotations.len() > 0 {
        let front = annotations.drop_last();
        assert(!annotations.last().is_error_set());
        lemma_all_stay(front);
        assert(front.push(annotations.last()) =~= annotations);
    }
}

/// No emitted member bears an error-set annotation, whatever the member
/// declared.
pub proof fn lemma_annotation_removed(scope: Seq<char>, member: MemberView)
    ensures
        !transformed_member(scope, member).is_annotated(),
{
    let kept = member.annotations.filter(stays());
    assert forall|i: int| 0 <= i < kept.len() implies !(#[trigger] kept[i]).is_error_set() by {
        member.annotations.lemma_filter_pred(stays(), i);
    }
    lemma_no_declaration(kept);
}

/// A member that bears no error-set annotation is emitted as it is, and
/// nothing is generated for it.
pub proof fn lemma_unannotated_member_unchanged(scope: Seq<char>, member: MemberView)
    requires
        !member.is_annotated(),
    ensures
        transformed_member(scope, member) == member,
        member.func_errors() == Ok::<Option<FuncErrorsView>, ComposeError>(None),
{
    lemma_all_stay(member.annotations);
}

/// A member annotated with an empty error set generates nothing, and keeps
/// its result type; its annotation is removed all the same.
pub proof fn lemma_empty_error_set_generates_nothing(scope: Seq<char>, member: MemberView)
    requires
        member.is_annotated(),
        member.error_set() == Ok::<Seq<Seq<char>>, ComposeError>(Seq::empty()),
    ensures
        member.func_errors() is Ok,
        member.func_errors()->Ok_0 is Some,
        generator(scope)(member.func_errors()->Ok_0->0) is None,
        member_composed(scope, member) is None,
        transformed_member(scope, member).result == member.result,
        !transformed_member(scope, member).is_annotated(),
{
    lemma_annotation_removed(scope, member);
}

/// A member whose result type is not the result shape with a placeholder is
/// emitted with the result type it had, whether it declares errors or not.
pub proof fn lemma_other_results_unchanged(scope: Seq<char>, member: MemberView)
    requires
        !awaits_failure_type(member.result),
    ensures
        transformed_member(scope, member).result == member.result,
{
}

/// The identity of the scope that a unit forms: that of the scope for a
/// grouped scope, and the empty text for a standalone declaration.
pub open spec fn identity_of(unit: DeclarationUnitView) -> Result<Seq<char>, ComposeError> {
    match unit {
        DeclarationUnitView::AbstractScope(scope) => Ok(abstract_identity(scope)),
        DeclarationUnitView::ConcreteScope(scope) => concrete_identity(scope),
        DeclarationUnitView::Standalone(_) => Ok(Seq::empty()),
        DeclarationUnitView::Other(_) => Err(ComposeError::UnsupportedDeclarationKind),
    }
}

/// The items that a unit holds: those of the scope for a grouped scope, and
/// the declaration itself for a standalone declaration.
pub open spec fn items_of(unit: DeclarationUnitView) -> Seq<ScopeItemView> {
    match unit {
        DeclarationUnitView::AbstractScope(scope) => scope.items,
        DeclarationUnitView::ConcreteScope(scope) => scope.items,
        DeclarationUnitView::Standalone(function) => seq![ScopeItemView::Function(function)],
        DeclarationUnitView::Other(_) => Seq::empty(),
    }
}

/// A composition that succeeds emits a unit of the same kind with the same
/// number of items in the same order, each item rewritten under the identity
/// of the unit, and generates what the annotated functions among the items
/// call for, in their order.
pub proof fn lemma_composition_keeps_shape(unit: DeclarationUnitView)
    requires
        composition(unit) is Ok,
    ensures
        identity_of(unit) is Ok,
        items_of(composition(unit)->Ok_0.unit) == transformed_items(
            identity_of(unit)->Ok_0,
            items_of(unit),
        ),
        composition(unit)->Ok_0.generated == generated_for(
            ScopeFuncsView {
                scope_name: identity_of(unit)->Ok_0,
                functions: functions_of(items_of(unit)),
            },
        ),
        unit is AbstractScope <==> composition(unit)->Ok_0.unit is AbstractScope,
        unit is ConcreteScope <==> composition(unit)->Ok_0.unit is ConcreteScope,
        unit is Standalone <==> composition(unit)->Ok_0.unit is Standalone,
{
    match unit {
        DeclarationUnitView::Standalone(function) => {
            let items = seq![ScopeItemView::Function(function)];
            let emitted = seq![
                ScopeItemView::Function(transformed_member(Seq::empty(), function)),
            ];
            assert(transformed_items(Seq::empty(), items) =~= emitted);
            assert(items.drop_last() =~= Seq::<ScopeItemView>::empty());
            assert(functions_of(items.drop_last()) =~= Seq::empty());
            let found = function.func_errors()->Ok_0;
            match found {
                Some(found) => {
                    assert(functions_of(items) =~= seq![found]);
                },
                None => {
                    assert(functions_of(items) =~= Seq::empty());
                },
            }
        },
        _ => {},
    }
}

/// Items on which nothing is found hold no annotated function.
pub proof fn lemma_nothing_found(items: Seq<ScopeItemView>)
    requires
        forall|i: int| 0 <= i < items.len() ==> found_on()(#[trigger] items[i]) is None,
    ensures
        functions_of(items) == Seq::<FuncErrorsView>::empty(),
    decreases items.len(),
{
    if items.len() > 0 {
        lemma_nothing_found(items.drop_last());
    }
}

/// Whether no member among the items of the unit bears an error-set
/// annotation.
pub open spec fn declares_nothing(unit: DeclarationUnitView) -> bool {
    forall|i: int|
        0 <= i < items_of(unit).len() ==> match #[trigger] items_of(unit)[i] {
            ScopeItemView::Function(member) => !member.is_annotated(),
            ScopeItemView::Other(_) => true,
        }
}

/// A unit that forms a scope and declares no error set is composed without
/// fail: it is emitted as it is, and nothing is generated.
pub proof fn lemma_nothing_declared_nothing_changed(unit: DeclarationUnitView)
    requires
        identity_of(unit) is Ok,
        declares_nothing(unit),
    ensures
        composition(unit) == Ok::<ExpansionView, ComposeError>(
            ExpansionView { generated: Seq::empty(), unit },
        ),
{
    let scope = identity_of(unit)->Ok_0;
    let items = items_of(unit);
    assert forall|i: int| 0 <= i < items.len() implies found_on()(#[trigger] items[i]) is None
        && transformed_items(scope, items)[i] == items[i] by {
        match items[i] {
            ScopeItemView::Function(member) => {
                lemma_unannotated_member_unchanged(scope, member);
            },
            ScopeItemView::Other(_) => {},
        }
    }
    lemma_nothing_found(items);
    assert(transformed_items(scope, items) =~= items);
    match unit {
        DeclarationUnitView::Standalone(function) => {
            assert(items[0] == ScopeItemView::Function(function));
            lemma_unannotated_member_unchanged(scope, function);
        },
        _ => {},
    }
}

/// What is generated is a well-formed sum type together with the
/// conversions of each of its variants.
pub proof fn lemma_generated_is_well_formed(name: Seq<char>, kinds: Seq<Seq<char>>)
    requires
        kinds.len() > 0,
    ensures
        synthesis(name, kinds) is Some,
        synthesis(name, kinds)->0.sum_type.well_formed(),
        synthesis(name, kinds)->0.sum_type.name == name,
        synthesis(name, kinds)->0.sum_type.variants.len() == kinds.len(),
        synthesis(name, kinds)->0 == with_conversions(synthesis(name, kinds)->0.sum_type),
{
}

/// Whatever a composition generates is a well-formed sum type with the
/// conversions of each of its variants, and it is the sum type, over the
/// error set and under the composed name, of a function found in the unit
/// with an error set that is not empty.
pub proof fn lemma_every_generated_is_well_formed(unit: DeclarationUnitView, k: int)
    requires
        composition(unit) is Ok,
        0 <= k < composition(unit)->Ok_0.generated.len(),
    ensures
        composition(unit)->Ok_0.generated[k].sum_type.well_formed(),
        composition(unit)->Ok_0.generated[k] == with_conversions(
            composition(unit)->Ok_0.generated[k].sum_type,
        ),
        exists|found: FuncErrorsView|
            {
                &&& #[trigger] functions_of(items_of(unit)).contains(found)
                &&& found.errors.len() > 0
                &&& composition(unit)->Ok_0.generated[k].sum_type == sum_type_of(
                    composed_name(identity_of(unit)->Ok_0, found.function),
                    found.errors,
                )
            },
{
    lemma_composition_keeps_shape(unit);
    let scope = identity_of(unit)->Ok_0;
    let functions = functions_of(items_of(unit));
    let generated = composition(unit)->Ok_0.generated;
    let item = generated[k];
    assert(generated.contains(item));
    functions.lemma_filter_map_contains(generator(scope), item);
    let found = choose|found: FuncErrorsView| #[trigger]
        functions.contains(found) && generator(scope)(found) == Some(item);
    lemma_generated_is_well_formed(composed_name(scope, found.function), found.errors);
}

/// In the unit that a composition emits, no member bears an error-set
/// annotation.
pub proof fn lemma_emitted_unit_is_clean(unit: DeclarationUnitView, i: int)
    requires
        composition(unit) is Ok,
        0 <= i < items_of(composition(unit)->Ok_0.unit).len(),
    ensures
        match items_of(composition(unit)->Ok_0.unit)[i] {
            ScopeItemView::Function(member) => !member.is_annotated(),
            ScopeItemView::Other(_) => true,
        },
{
    lemma_composition_keeps_shape(unit);
    match items_of(unit)[i] {
        ScopeItemView::Function(member) => {
            lemma_annotation_removed(identity_of(unit)->Ok_0, member);
        },
        ScopeItemView::Other(_) => {},
    }
}

} // verus!
