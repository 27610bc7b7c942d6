//! The declaration tree: what a declaration unit holds, as far as the
//! composition reads it, and the rest carried as text.

use crate::text::{
    clone_strings, lemma_views_push, lemma_views_take_all, lemma_views_take_next, optional_view,
    views,
};
use vstd::prelude::*;

verus! {

/// A path of names as it is written: `a::b`, or `::a::b` with a separator in
/// front.
#[derive(Debug, PartialEq, Eq)]
pub struct NamePath {
    pub leading_separator: bool,
    pub segments: Vec<String>,
}

pub struct NamePathView {
    pub leading_separator: bool,
    pub segments: Seq<Seq<char>>,
}

impl View for NamePath {
    type V = NamePathView;

    open spec fn view(&self) -> NamePathView {
        NamePathView {
            leading_separator: self.leading_separator,
            segments: views(self.segments@),
        }
    }
}

impl Clone for NamePath {
    fn clone(&self) -> (copy: Self)
        ensures
            copy@ == self@,
    {
        NamePath {
            leading_separator: self.leading_separator,
            segments: clone_strings(&self.segments),
        }
    }
}

impl NamePathView {
    /// The name that the path consists of, where it is a single name with
    /// nothing in front.
    pub open spec fn bare_name(self) -> Option<Seq<char>> {
        if !self.leading_separator && self.segments.len() == 1 {
            Some(self.segments[0])
        } else {
            None
        }
    }
}

/// The names joined by `::`.
pub open spec fn joined(names: Seq<Seq<char>>) -> Seq<char>
    decreases names.len(),
{
    if names.len() == 0 {
        Seq::empty()
    } else if names.len() == 1 {
        names[0]
    } else {
        joined(names.drop_last()) + "::"@ + names.last()
    }
}

impl NamePathView {
    /// The path as it is written: its names joined by `::`, after a `::`
    /// where it has one in front.
    pub open spec fn text(self) -> Seq<char> {
        if self.leading_separator {
            "::"@ + joined(self.segments)
        } else {
            joined(self.segments)
        }
    }
}

impl NamePath {
    /// The path as it is written.
    pub fn text(&self) -> (text: String)
        ensures
            text@ == self@.text(),
    {
        let mut text = if self.leading_separator {
            String::from_str("::")
        } else {
            String::new()
        };
        let ghost front = text@;
        proof {
            assert(views(self.segments@.take(0)) =~= Seq::<Seq<char>>::empty());
            assert(front + joined(Seq::<Seq<char>>::empty()) =~= front);
        }
        for i in 0..self.segments.len()
            invariant
                front == (if self.leading_separator {
                    "::"@
                } else {
                    Seq::<char>::empty()
                }),
                text@ == front + joined(views(self.segments@.take(i as int))),
        {
            let ghost before = views(self.segments@.take(i as int));
            let ghost upto = views(self.segments@.take(i + 1));
            proof {
                lemma_views_take_next(self.segments@, i as int);
                assert(upto.drop_last() =~= before);
            }
            if i > 0 {
                text.append("::");
            }
            text.append(self.segments[i].as_str());
            proof {
                if i > 0 {
                    assert(text@ =~= front + (joined(before) + "::"@ + upto.last()));
                } else {
                    assert(joined(before) =~= Seq::<char>::empty());
                    assert(text@ =~= front + upto[0]);
                }
            }
        }
        proof {
            lemma_views_take_all(self.segments@);
            assert(Seq::<char>::empty() + joined(views(self.segments@)) =~= joined(
                views(self.segments@),
            ));
        }
        text
    }

    /// The name that the path consists of, where it is a single name with
    /// nothing in front.
    pub fn bare_name(&self) -> (name: Option<String>)
        ensures
            optional_view(name) == self@.bare_name(),
    {
        if !self.leading_separator && self.segments.len() == 1 {
            Some(self.segments[0].clone())
        } else {
            None
        }
    }
}

/// A copy of a list of paths.
pub fn clone_paths(paths: &Vec<NamePath>) -> (copy: Vec<NamePath>)
    ensures
        views(copy@) == views(paths@),
{
    let mut copy: Vec<NamePath> = Vec::new();
    for i in 0..paths.len()
        invariant
            views(copy@) == views(paths@.take(i as int)),
    {
        let path = paths[i].clone();
        proof {
            lemma_views_push(copy@, path);
            lemma_views_take_next(paths@, i as int);
        }
        copy.push(path);
    }
    proof {
        lemma_views_take_all(paths@);
    }
    copy
}

/// The paths that an optional list of paths holds.
pub open spec fn optional_paths(paths: Option<Vec<NamePath>>) -> Option<Seq<NamePathView>> {
    match paths {
        Some(paths) => Some(views(paths@)),
        None => None,
    }
}

/// An annotation attached to a member: the name of its marker and what its
/// list of tokens holds. Where the tokens are paths separated by commas,
/// `payload` holds those paths in order. It is `None` where the annotation
/// has no list of tokens, and where the list is not one of paths.
#[derive(Debug, PartialEq, Eq)]
pub struct Annotation {
    pub marker: String,
    pub payload: Option<Vec<NamePath>>,
}

pub struct AnnotationView {
    pub marker: Seq<char>,
    pub payload: Option<Seq<NamePathView>>,
}

impl View for Annotation {
    type V = AnnotationView;

    open spec fn view(&self) -> AnnotationView {
        AnnotationView { marker: self.marker@, payload: optional_paths(self.payload) }
    }
}

impl Clone for Annotation {
    fn clone(&self) -> (copy: Self)
        ensures
            copy@ == self@,
    {
        let payload = match &self.payload {
            Some(paths) => Some(clone_paths(paths)),
            None => None,
        };
        Annotation { marker: self.marker.clone(), payload }
    }
}

/// One argument of a type applied to arguments.
#[derive(Debug, PartialEq, Eq)]
pub enum TypeArgument {
    /// The placeholder `_`, which asks for a type to be filled in.
    Placeholder,
    /// Any other argument, as text.
    Concrete(String),
}

pub enum TypeArgumentView {
    Placeholder,
    Concrete(Seq<char>),
}

impl View for TypeArgument {
    type V = TypeArgumentView;

    open spec fn view(&self) -> TypeArgumentView {
        match self {
            TypeArgument::Placeholder => TypeArgumentView::Placeholder,
            TypeArgument::Concrete(text) => TypeArgumentView::Concrete(text@),
        }
    }
}

impl Clone for TypeArgument {
    fn clone(&self) -> (copy: Self)
        ensures
            copy@ == self@,
    {
        match self {
            TypeArgument::Placeholder => TypeArgument::Placeholder,
            TypeArgument::Concrete(text) => TypeArgument::Concrete(text.clone()),
        }
    }
}

/// What a member is declared to return.
#[derive(Debug, PartialEq, Eq)]
pub enum ResultType {
    /// Nothing is declared.
    Unit,
    /// A type given by a name, applied to the arguments between its angle
    /// brackets; a name alone has no arguments.
    Applied { name: String, arguments: Vec<TypeArgument> },
    /// Any other type, as text.
    Other(String),
}

pub enum ResultTypeView {
    Unit,
    Applied { name: Seq<char>, arguments: Seq<TypeArgumentView> },
    Other(Seq<char>),
}

impl View for ResultType {
    type V = ResultTypeView;

    open spec fn view(&self) -> ResultTypeView {
        match self {
            ResultType::Unit => ResultTypeView::Unit,
            ResultType::Applied { name, arguments } => ResultTypeView::Applied {
                name: name@,
                arguments: views(arguments@),
            },
            ResultType::Other(text) => ResultTypeView::Other(text@),
        }
    }
}

/// A copy of a list of type arguments.
pub fn clone_arguments(arguments: &Vec<TypeArgument>) -> (copy: Vec<TypeArgument>)
    ensures
        views(copy@) == views(arguments@),
{
    let mut copy: Vec<TypeArgument> = Vec::new();
    for i in 0..arguments.len()
        invariant
            views(copy@) == views(arguments@.take(i as int)),
    {
        let argument = arguments[i].clone();
        proof {
            lemma_views_push(copy@, argument);
            lemma_views_take_next(arguments@, i as int);
        }
        copy.push(argument);
    }
    proof {
        lemma_views_take_all(arguments@);
    }
    copy
}

impl Clone for ResultType {
    fn clone(&self) -> (copy: Self)
        ensures
            copy@ == self@,
    {
        match self {
            ResultType::Unit => ResultType::Unit,
            ResultType::Applied { name, arguments } => ResultType::Applied {
                name: name.clone(),
                arguments: clone_arguments(arguments),
            },
            ResultType::Other(text) => ResultType::Other(text.clone()),
        }
    }
}

/// A function-like declaration: its name, its annotations in order, what it
/// returns, and the rest of it (parameters, body) as text.
#[derive(Debug, PartialEq, Eq)]
pub struct Member {
    pub name: String,
    pub annotations: Vec<Annotation>,
    pub result: ResultType,
    pub content: String,
}

pub struct MemberView {
    pub name: Seq<char>,
    pub annotations: Seq<AnnotationView>,
    pub result: ResultTypeView,
    pub content: Seq<char>,
}

impl View for Member {
    type V = MemberView;

    open spec fn view(&self) -> MemberView {
        MemberView {
            name: self.name@,
            annotations: views(self.annotations@),
            result: self.result@,
            content: self.content@,
        }
    }
}

/// One item of a grouped scope.
#[derive(Debug, PartialEq, Eq)]
pub enum ScopeItem {
    /// A member declaration.
    Function(Member),
    /// Anything else (a constant, an associated type), as text.
    Other(String),
}

pub enum ScopeItemView {
    Function(MemberView),
    Other(Seq<char>),
}

impl View for ScopeItem {
    type V = ScopeItemView;

    open spec fn view(&self) -> ScopeItemView {
        match self {
            ScopeItem::Function(member) => ScopeItemView::Function(member@),
            ScopeItem::Other(text) => ScopeItemView::Other(text@),
        }
    }
}

/// A scope without bodies, which states a contract: its name and its items.
#[derive(Debug, PartialEq, Eq)]
pub struct AbstractScope {
    pub name: String,
    pub items: Vec<ScopeItem>,
}

pub struct AbstractScopeView {
    pub name: Seq<char>,
    pub items: Seq<ScopeItemView>,
}

impl View for AbstractScope {
    type V = AbstractScopeView;

    open spec fn view(&self) -> AbstractScopeView {
        AbstractScopeView { name: self.name@, items: views(self.items@) }
    }
}

/// The type that a concrete scope is bound to.
#[derive(Debug, PartialEq, Eq)]
pub enum TargetType {
    /// A type given by a path of names; `generic` says that the path carries
    /// type arguments.
    Named { path: NamePath, generic: bool },
    /// Any other type (a tuple, a reference, a slice), as text.
    Other(String),
}

pub enum TargetTypeView {
    Named { path: NamePathView, generic: bool },
    Other(Seq<char>),
}

impl View for TargetType {
    type V = TargetTypeView;

    open spec fn view(&self) -> TargetTypeView {
        match self {
            TargetType::Named { path, generic } => TargetTypeView::Named {
                path: path@,
                generic: *generic,
            },
            TargetType::Other(text) => TargetTypeView::Other(text@),
        }
    }
}

impl Clone for TargetType {
    fn clone(&self) -> (copy: Self)
        ensures
            copy@ == self@,
    {
        match self {
            TargetType::Named { path, generic } => TargetType::Named {
                path: path.clone(),
                generic: *generic,
            },
            TargetType::Other(text) => TargetType::Other(text.clone()),
        }
    }
}

/// A scope with bodies, bound to one target type; `contract` names the
/// abstract scope that it claims to satisfy, if it claims one.
#[derive(Debug, PartialEq, Eq)]
pub struct ConcreteScope {
    pub target: TargetType,
    pub contract: Option<String>,
    pub items: Vec<ScopeItem>,
}

pub struct ConcreteScopeView {
    pub target: TargetTypeView,
    pub contract: Option<Seq<char>>,
    pub items: Seq<ScopeItemView>,
}

impl View for ConcreteScope {
    type V = ConcreteScopeView;

    open spec fn view(&self) -> ConcreteScopeView {
        ConcreteScopeView {
            target: self.target@,
            contract: optional_view(self.contract),
            items: views(self.items@),
        }
    }
}

/// A declaration unit: what one run of the composition works on.
#[derive(Debug, PartialEq, Eq)]
pub enum DeclarationUnit {
    /// A grouped scope that states a contract.
    AbstractScope(AbstractScope),
    /// A grouped scope bound to a target type.
    ConcreteScope(ConcreteScope),
    /// A single function-like declaration.
    Standalone(Member),
    /// Any other kind of unit, as text.
    Other(String),
}

pub enum DeclarationUnitView {
    AbstractScope(AbstractScopeView),
    ConcreteScope(ConcreteScopeView),
    Standalone(MemberView),
    Other(Seq<char>),
}

impl View for DeclarationUnit {
    type V = DeclarationUnitView;

    open spec fn view(&self) -> DeclarationUnitView {
        match self {
            DeclarationUnit::AbstractScope(scope) => DeclarationUnitView::AbstractScope(scope@),
            DeclarationUnit::ConcreteScope(scope) => DeclarationUnitView::ConcreteScope(scope@),
            DeclarationUnit::Standalone(member) => DeclarationUnitView::Standalone(member@),
            DeclarationUnit::Other(text) => DeclarationUnitView::Other(text@),
        }
    }
}

} // verus!
