//! The composition itself: from a declaration unit to the generated sum types
//! and the rewritten unit.

use crate::error::ComposeError;
use crate::extract::{extract_bare_function, FuncErrors, FuncErrorsView};
use crate::naming::{composed_name, name_composed_error};
use crate::rewrite::{composed_for, strip_bare_function_attrs, stripped};
use crate::synth::{synthesis, synthesize, Synthesized, SynthesizedView};
use crate::text::{
    lemma_views_push, lemma_views_take_all, lemma_views_take_next, optional_view, views,
};
use crate::tree::{
    AbstractScope, AbstractScopeView, ConcreteScope, ConcreteScopeView, DeclarationUnit,
    DeclarationUnitView, Member, MemberView, ScopeItem, ScopeItemView, TargetType,
    TargetTypeView,
};
use vstd::prelude::*;

verus! {

/// What the extraction found in one scope: the identity of the scope, and
/// its annotated functions in order, each with its error set.
#[derive(Debug, PartialEq, Eq)]
pub struct ScopeFuncs {
    pub scope_name: String,
    pub functions: Vec<FuncErrors>,
}

pub struct ScopeFuncsView {
    pub scope_name: Seq<char>,
    pub functions: Seq<FuncErrorsView>,
}

impl View for ScopeFuncs {
    type V = ScopeFuncsView;

    open spec fn view(&self) -> ScopeFuncsView {
        ScopeFuncsView { scope_name: self.scope_name@, functions: views(self.functions@) }
    }
}

/// What a composition emits: the generated sum types with their conversions,
/// one entry per member that declares errors, in the order of the members,
/// and after them the declaration unit, rewritten.
#[derive(Debug, PartialEq, Eq)]
pub struct Expansion {
    pub generated: Vec<Synthesized>,
    pub unit: DeclarationUnit,
}

pub struct ExpansionView {
    pub generated: Seq<SynthesizedView>,
    pub unit: DeclarationUnitView,
}

impl View for Expansion {
    type V = ExpansionView;

    open spec fn view(&self) -> ExpansionView {
        ExpansionView { generated: views(self.generated@), unit: self.unit@ }
    }
}

/// The name of the composed type of a member of the scope `scope`, if the
/// member gets one: it does where it declares an error set that is not
/// empty.
pub open spec fn member_composed(scope: Seq<char>, member: MemberView) -> Option<Seq<char>> {
    match member.func_errors() {
        Ok(found) => composed_for(scope, member.name, found),
        Err(_) => None,
    }
}

/// The member as it is emitted.
pub open spec fn transformed_member(scope: Seq<char>, member: MemberView) -> MemberView {
    stripped(member, member_composed(scope, member))
}

/// The item as it is emitted: a member rewritten, anything else as it is.
pub open spec fn transformed_item(scope: Seq<char>, item: ScopeItemView) -> ScopeItemView {
    match item {
        ScopeItemView::Function(member) => ScopeItemView::Function(
            transformed_member(scope, member),
        ),
        ScopeItemView::Other(text) => ScopeItemView::Other(text),
    }
}

/// The items as they are emitted, in their order.
pub open spec fn transformed_items(scope: Seq<char>, items: Seq<ScopeItemView>) -> Seq<
    ScopeItemView,
> {
    Seq::new(items.len(), |i: int| transformed_item(scope, items[i]))
}

/// Whether the error set of the item, if it is a member, can be read.
pub open spec fn item_valid(item: ScopeItemView) -> bool {
    match item {
        ScopeItemView::Function(member) => member.func_errors() is Ok,
        ScopeItemView::Other(_) => true,
    }
}

/// Whether the error set of every member among the items can be read.
pub open spec fn items_valid(items: Seq<ScopeItemView>) -> bool {
    forall|i: int| 0 <= i < items.len() ==> item_valid(#[trigger] items[i])
}

/// What the extraction finds on an item.
pub open spec fn found_on() -> spec_fn(ScopeItemView) -> Option<FuncErrorsView> {
    |item: ScopeItemView|
        match item {
            ScopeItemView::Function(member) => match member.func_errors() {
                Ok(found) => found,
                Err(_) => None,
            },
            ScopeItemView::Other(_) => None,
        }
}

/// The annotated functions among the items, in order, each with its error
/// set.
pub open spec fn functions_of(items: Seq<ScopeItemView>) -> Seq<FuncErrorsView> {
    items.filter_map(found_on())
}

/// What processing the function-like items of a scope gives: the items as
/// they are emitted and what was found on them, or the failure where an error
/// set cannot be read.
pub open spec fn functions_outcome(scope: Seq<char>, items: Seq<ScopeItemView>) -> Result<
    (Seq<ScopeItemView>, Seq<FuncErrorsView>),
    ComposeError,
> {
    if items_valid(items) {
        Ok((transformed_items(scope, items), functions_of(items)))
    } else {
        Err(ComposeError::InvalidErrorSetEntry)
    }
}

/// A processed function, or the failure in its place, as the contracts see
/// it.
pub open spec fn function_view(outcome: Result<(Member, Option<FuncErrors>), ComposeError>)
    -> Result<(MemberView, Option<FuncErrorsView>), ComposeError> {
    match outcome {
        Ok((member, found)) => Ok((member@, optional_view(found))),
        Err(error) => Err(error),
    }
}

/// What processing one function gives.
pub open spec fn function_outcome(scope: Seq<char>, member: MemberView) -> Result<
    (MemberView, Option<FuncErrorsView>),
    ComposeError,
> {
    match member.func_errors() {
        Ok(found) => Ok((transformed_member(scope, member), found)),
        Err(error) => Err(error),
    }
}

/// Processes one function of the scope `scope_name`: reads the error set
/// that it declares, and rewrites it.
pub fn process_function(function: &Member, scope_name: &str) -> (outcome: Result<
    (Member, Option<FuncErrors>),
    ComposeError,
>)
    ensures
        function_view(outcome) == function_outcome(scope_name@, function@),
{
    match extract_bare_function(function) {
        Ok(found) => {
            let clean = strip_bare_function_attrs(function, scope_name, &found);
            Ok((clean, found))
        },
        Err(error) => Err(error),
    }
}

/// Processed items, or the failure in their place, as the contracts see
/// them.
pub open spec fn functions_view(outcome: Result<(Vec<ScopeItem>, Vec<FuncErrors>), ComposeError>)
    -> Result<(Seq<ScopeItemView>, Seq<FuncErrorsView>), ComposeError> {
    match outcome {
        Ok((items, functions)) => Ok((views(items@), views(functions@))),
        Err(error) => Err(error),
    }
}

/// Processes the items of the scope `scope_name` in order: every member is
/// read and rewritten, everything else is carried over as it is. Fails where
/// the error set of a member cannot be read.
pub fn process_functions(items: &Vec<ScopeItem>, scope_name: &str) -> (outcome: Result<
    (Vec<ScopeItem>, Vec<FuncErrors>),
    ComposeError,
>)
    ensures
        functions_view(outcome) == functions_outcome(scope_name@, views(items@)),
{
    let mut clean: Vec<ScopeItem> = Vec::new();
    let mut functions: Vec<FuncErrors> = Vec::new();
    proof {
        assert(views(clean@) =~= transformed_items(scope_name@, views(items@.take(0))));
    }
    for i in 0..items.len()
        invariant
            items_valid(views(items@.take(i as int))),
            views(clean@) == transformed_items(scope_name@, views(items@.take(i as int))),
            views(functions@) == functions_of(views(items@.take(i as int))),
    {
        let ghost before = views(items@.take(i as int));
        let ghost upto = views(items@.take(i + 1));
        proof {
            lemma_views_take_next(items@, i as int);
            assert(upto.drop_last() =~= before);
            assert(upto.last() == items@[i as int]@);
            assert(views(items@)[i as int] == items@[i as int]@);
        }
        match &items[i] {
            ScopeItem::Function(member) => {
                match process_function(member, scope_name) {
                    Ok((member, found)) => {
                        let item = ScopeItem::Function(member);
                        proof {
                            lemma_views_push(clean@, item);
                            assert(transformed_items(scope_name@, upto) =~= transformed_items(
                                scope_name@,
                                before,
                            ).push(item@));
                        }
                        clean.push(item);
                        if let Some(found) = found {
                            proof {
                                lemma_views_push(functions@, found);
                                assert(functions_of(upto) =~= functions_of(before).push(found@));
                            }
                            functions.push(found);
                        }
                    },
                    Err(error) => {
                        assert(!item_valid(views(items@)[i as int]));
                        return Err(ComposeError::InvalidErrorSetEntry);
                    },
                }
            },
            ScopeItem::Other(text) => {
                let item = ScopeItem::Other(text.clone());
                proof {
                    lemma_views_push(clean@, item);
                    assert(transformed_items(scope_name@, upto) =~= transformed_items(
                        scope_name@,
                        before,
                    ).push(item@));
                }
                clean.push(item);
            },
        }
    }
    proof {
        lemma_views_take_all(items@);
    }
    Ok((clean, functions))
}

} // verus!

verus! {

/// The identity of an abstract scope: its name, marked as a contract.
pub open spec fn abstract_identity(scope: AbstractScopeView) -> Seq<char> {
    scope.name + "Contract"@
}

/// The identity of a concrete scope: the bare name of its target type, marked
/// as an implementation. A target that is not a single bare name is refused,
/// and so is, after that, a scope that claims a contract.
pub open spec fn concrete_identity(scope: ConcreteScopeView) -> Result<Seq<char>, ComposeError> {
    match scope.target {
        TargetTypeView::Named { path, generic } => {
            if generic || path.bare_name() is None {
                Err(ComposeError::UnsupportedTargetShape)
            } else if scope.contract is Some {
                Err(ComposeError::MisplacedAnnotation)
            } else {
                Ok(path.bare_name().unwrap() + "Implementation"@)
            }
        },
        TargetTypeView::Other(_) => Err(ComposeError::UnsupportedTargetShape),
    }
}

/// What processing an abstract scope gives: the scope with its items as they
/// are emitted, and what was found in it.
pub open spec fn trait_def_outcome(scope: AbstractScopeView) -> Result<
    (AbstractScopeView, ScopeFuncsView),
    ComposeError,
> {
    let identity = abstract_identity(scope);
    match functions_outcome(identity, scope.items) {
        Ok((items, functions)) => Ok(
            (
                AbstractScopeView { name: scope.name, items },
                ScopeFuncsView { scope_name: identity, functions },
            ),
        ),
        Err(error) => Err(error),
    }
}

/// What processing a concrete scope gives.
pub open spec fn impl_block_outcome(scope: ConcreteScopeView) -> Result<
    (ConcreteScopeView, ScopeFuncsView),
    ComposeError,
> {
    match concrete_identity(scope) {
        Ok(identity) => match functions_outcome(identity, scope.items) {
            Ok((items, functions)) => Ok(
                (
                    ConcreteScopeView { target: scope.target, contract: scope.contract, items },
                    ScopeFuncsView { scope_name: identity, functions },
                ),
            ),
            Err(error) => Err(error),
        },
        Err(error) => Err(error),
    }
}

/// The functions found on a standalone declaration: the declaration itself
/// where it is annotated.
pub open spec fn found_functions(found: Option<FuncErrorsView>) -> Seq<FuncErrorsView> {
    match found {
        Some(found) => seq![found],
        None => Seq::empty(),
    }
}

/// What processing a standalone declaration gives. Its scope has the empty
/// identity.
pub open spec fn bare_function_outcome(function: MemberView) -> Result<
    (MemberView, ScopeFuncsView),
    ComposeError,
> {
    match function_outcome(Seq::empty(), function) {
        Ok((member, found)) => Ok(
            (
                member,
                ScopeFuncsView { scope_name: Seq::empty(), functions: found_functions(found) },
            ),
        ),
        Err(error) => Err(error),
    }
}

/// A processed declaration with what was found in it, or the failure in its
/// place, as the contracts see it.
pub open spec fn processed_view<T: View>(outcome: Result<(T, ScopeFuncs), ComposeError>) -> Result<
    (T::V, ScopeFuncsView),
    ComposeError,
> {
    match outcome {
        Ok((declaration, functions)) => Ok((declaration@, functions@)),
        Err(error) => Err(error),
    }
}

/// Processes an abstract scope. Its identity is its name followed by
/// `Contract`.
pub fn process_trait_def(scope: &AbstractScope) -> (outcome: Result<
    (AbstractScope, ScopeFuncs),
    ComposeError,
>)
    ensures
        processed_view(outcome) == trait_def_outcome(scope@),
{
    let mut scope_name = scope.name.clone();
    scope_name.append("Contract");
    match process_functions(&scope.items, scope_name.as_str()) {
        Ok((items, functions)) => Ok(
            (AbstractScope { name: scope.name.clone(), items }, ScopeFuncs { scope_name, functions }),
        ),
        Err(error) => Err(error),
    }
}

/// Processes a concrete scope. Its identity is the bare name of its target
/// type followed by `Implementation`. A scope whose target is no single bare
/// name is refused, and so is one that claims the contract of an abstract
/// scope.
pub fn process_impl_block(scope: &ConcreteScope) -> (outcome: Result<
    (ConcreteScope, ScopeFuncs),
    ComposeError,
>)
    ensures
        processed_view(outcome) == impl_block_outcome(scope@),
{
    let bare = match &scope.target {
        TargetType::Named { path, generic } => if *generic {
            None
        } else {
            path.bare_name()
        },
        TargetType::Other(_) => None,
    };
    let mut scope_name = match bare {
        Some(name) => name,
        None => {
            return Err(ComposeError::UnsupportedTargetShape);
        },
    };
    scope_name.append("Implementation");
    let contract = match &scope.contract {
        Some(_) => {
            return Err(ComposeError::MisplacedAnnotation);
        },
        None => None,
    };
    match process_functions(&scope.items, scope_name.as_str()) {
        Ok((items, functions)) => Ok(
            (
                ConcreteScope { target: scope.target.clone(), contract, items },
                ScopeFuncs { scope_name, functions },
            ),
        ),
        Err(error) => Err(error),
    }
}

/// Processes a standalone declaration, which is its own only member. Its
/// scope has the empty identity.
pub fn process_bare_function(function: &Member) -> (outcome: Result<
    (Member, ScopeFuncs),
    ComposeError,
>)
    ensures
        processed_view(outcome) == bare_function_outcome(function@),
{
    let scope_name = String::new();
    match process_function(function, scope_name.as_str()) {
        Ok((member, found)) => {
            let mut functions: Vec<FuncErrors> = Vec::new();
            if let Some(found) = found {
                proof {
                    lemma_views_push(functions@, found);
                    assert(views(functions@).push(found@) =~= seq![found@]);
                }
                functions.push(found);
            } else {
                assert(views(functions@) =~= Seq::<FuncErrorsView>::empty());
            }
            Ok((member, ScopeFuncs { scope_name, functions }))
        },
        Err(error) => Err(error),
    }
}

/// What is generated for one annotated function of the scope `scope`.
pub open spec fn generator(scope: Seq<char>) -> spec_fn(FuncErrorsView) -> Option<
    SynthesizedView,
> {
    |found: FuncErrorsView| synthesis(composed_name(scope, found.function), found.errors)
}

/// What is generated for a scope: for every annotated function with an error
/// set that is not empty, in order, its sum type with the conversions.
pub open spec fn generated_for(functions: ScopeFuncsView) -> Seq<SynthesizedView> {
    functions.functions.filter_map(generator(functions.scope_name))
}

/// Generates the sum types of a scope with their conversions.
pub fn generate(functions: &ScopeFuncs) -> (generated: Vec<Synthesized>)
    ensures
        views(generated@) == generated_for(functions@),
{
    let mut generated: Vec<Synthesized> = Vec::new();
    let found = &functions.functions;
    let ghost make = generator(functions.scope_name@);
    proof {
        assert(views(generated@) =~= views(found@.take(0)).filter_map(make));
    }
    for i in 0..found.len()
        invariant
            found == &functions.functions,
            make == generator(functions.scope_name@),
            views(generated@) == views(found@.take(i as int)).filter_map(make),
    {
        let ghost before = views(found@.take(i as int));
        let ghost upto = views(found@.take(i + 1));
        proof {
            lemma_views_take_next(found@, i as int);
            assert(upto.drop_last() =~= before);
            assert(upto.last() == found@[i as int]@);
        }
        let name = name_composed_error(found[i].function.as_str(), functions.scope_name.as_str());
        if let Some(item) = synthesize(name.as_str(), &found[i].errors) {
            proof {
                lemma_views_push(generated@, item);
                assert(upto.filter_map(make) =~= before.filter_map(make).push(item@));
            }
            generated.push(item);
        }
    }
    proof {
        lemma_views_take_all(found@);
    }
    generated
}

/// What the composition makes of a declaration unit.
pub open spec fn composition(unit: DeclarationUnitView) -> Result<ExpansionView, ComposeError> {
    match unit {
        DeclarationUnitView::AbstractScope(scope) => match trait_def_outcome(scope) {
            Ok((scope, functions)) => Ok(
                ExpansionView {
                    generated: generated_for(functions),
                    unit: DeclarationUnitView::AbstractScope(scope),
                },
            ),
            Err(error) => Err(error),
        },
        DeclarationUnitView::ConcreteScope(scope) => match impl_block_outcome(scope) {
            Ok((scope, functions)) => Ok(
                ExpansionView {
                    generated: generated_for(functions),
                    unit: DeclarationUnitView::ConcreteScope(scope),
                },
            ),
            Err(error) => Err(error),
        },
        DeclarationUnitView::Standalone(function) => match bare_function_outcome(function) {
            Ok((function, functions)) => Ok(
                ExpansionView {
                    generated: generated_for(functions),
                    unit: DeclarationUnitView::Standalone(function),
                },
            ),
            Err(error) => Err(error),
        },
        DeclarationUnitView::Other(_) => Err(ComposeError::UnsupportedDeclarationKind),
    }
}

/// An expansion, or the failure in its place, as the contracts see it.
pub open spec fn expansion_view(outcome: Result<Expansion, ComposeError>) -> Result<
    ExpansionView,
    ComposeError,
> {
    match outcome {
        Ok(expansion) => Ok(expansion@),
        Err(error) => Err(error),
    }
}

/// Composes the error sets of a declaration unit: for every member that
/// declares errors a sum type with its conversions is generated, and the unit
/// comes back without the error-set annotations, its members returning the
/// sum types where they asked for them. A unit that is refused yields the
/// reason and nothing else.
pub fn compose_errors(unit: &DeclarationUnit) -> (outcome: Result<Expansion, ComposeError>)
    ensures
        expansion_view(outcome) == composition(unit@),
{
    let (unit, functions) = match unit {
        DeclarationUnit::AbstractScope(scope) => match process_trait_def(scope) {
            Ok((scope, functions)) => (DeclarationUnit::AbstractScope(scope), functions),
            Err(error) => {
                return Err(error);
            },
        },
        DeclarationUnit::ConcreteScope(scope) => match process_impl_block(scope) {
            Ok((scope, functions)) => (DeclarationUnit::ConcreteScope(scope), functions),
            Err(error) => {
                return Err(error);
            },
        },
        DeclarationUnit::Standalone(function) => match process_bare_function(function) {
            Ok((function, functions)) => (DeclarationUnit::Standalone(function), functions),
            Err(error) => {
                return Err(error);
            },
        },
        DeclarationUnit::Other(_) => {
            return Err(ComposeError::UnsupportedDeclarationKind);
        },
    };
    let generated = generate(&functions);
    Ok(Expansion { generated, unit })
}

} // verus!
