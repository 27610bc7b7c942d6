//! Reading the error set that a member declares.

use crate::error::ComposeError;
use crate::text::{lemma_views_push, lemma_views_take_all, lemma_views_take_next, views};
use crate::tree::{
    optional_paths, Annotation, AnnotationView, Member, MemberView, NamePath, NamePathView,
};
use vstd::prelude::*;

verus! {

/// The marker of the annotation that declares an error set.
pub open spec fn marker_name() -> Seq<char> {
    "errorset"@
}

impl AnnotationView {
    /// Whether this annotation declares an error set.
    pub open spec fn is_error_set(self) -> bool {
        self.marker == marker_name()
    }
}

impl Annotation {
    /// Whether this annotation declares an error set.
    pub fn is_error_set(&self) -> (is: bool)
        ensures
            is == self@.is_error_set(),
    {
        self.marker == String::from_str("errorset")
    }
}

/// Whether every path is a single bare name.
pub open spec fn all_bare(paths: Seq<NamePathView>) -> bool {
    forall|i: int| 0 <= i < paths.len() ==> (#[trigger] paths[i]).bare_name() is Some
}

/// The names of paths that are bare names, in order.
pub open spec fn bare_names(paths: Seq<NamePathView>) -> Seq<Seq<char>> {
    Seq::new(paths.len(), |i: int| paths[i].bare_name().unwrap())
}

/// The error set that a payload stands for: the names of its paths, where
/// it holds paths and every one of them is a bare name.
pub open spec fn error_set_of(payload: Option<Seq<NamePathView>>) -> Result<
    Seq<Seq<char>>,
    ComposeError,
> {
    match payload {
        Some(paths) => if all_bare(paths) {
            Ok(bare_names(paths))
        } else {
            Err(ComposeError::InvalidErrorSetEntry)
        },
        None => Err(ComposeError::InvalidErrorSetEntry),
    }
}

/// The error set that an annotation declares.
pub open spec fn declared_error_set(annotation: AnnotationView) -> Result<
    Seq<Seq<char>>,
    ComposeError,
> {
    error_set_of(annotation.payload)
}

/// A list of names, or the failure in its place, as the contracts see it.
pub open spec fn names_view(names: Result<Vec<String>, ComposeError>) -> Result<
    Seq<Seq<char>>,
    ComposeError,
> {
    match names {
        Ok(names) => Ok(views(names@)),
        Err(error) => Err(error),
    }
}

/// Turns a payload into an error set: it has to hold paths, and every path
/// has to be a bare name.
pub fn collect_error_set(payload: &Option<Vec<NamePath>>) -> (names: Result<
    Vec<String>,
    ComposeError,
>)
    ensures
        names_view(names) == error_set_of(optional_paths(*payload)),
{
    match payload {
        None => Err(ComposeError::InvalidErrorSetEntry),
        Some(paths) => {
            let mut names: Vec<String> = Vec::new();
            for i in 0..paths.len()
                invariant
                    *payload == Some(*paths),
                    all_bare(views(paths@.take(i as int))),
                    views(names@) == bare_names(views(paths@.take(i as int))),
            {
                proof {
                    lemma_views_take_next(paths@, i as int);
                }
                match paths[i].bare_name() {
                    Some(name) => {
                        proof {
                            lemma_views_push(names@, name);
                            assert(bare_names(views(paths@.take(i + 1))) =~= bare_names(
                                views(paths@.take(i as int)),
                            ).push(name@));
                        }
                        names.push(name);
                    },
                    None => {
                        assert(views(paths@)[i as int].bare_name() is None);
                        return Err(ComposeError::InvalidErrorSetEntry);
                    },
                }
            }
            proof {
                lemma_views_take_all(paths@);
            }
            Ok(names)
        },
    }
}

/// Reads the error set that an annotation declares: the names in its
/// payload, in order. An annotation whose payload holds no paths, or a path
/// that is no bare name, declares none that can be read.
pub fn extract_errorset_list(annotation: &Annotation) -> (names: Result<Vec<String>, ComposeError>)
    ensures
        names_view(names) == declared_error_set(annotation@),
{
    collect_error_set(&annotation.payload)
}

} // verus!

verus! {

/// What was found on one annotated function: its name and the error set that
/// it declares, in the order written.
#[derive(Debug, PartialEq, Eq)]
pub struct FuncErrors {
    pub function: String,
    pub errors: Vec<String>,
}

pub struct FuncErrorsView {
    pub function: Seq<char>,
    pub errors: Seq<Seq<char>>,
}

impl View for FuncErrors {
    type V = FuncErrorsView;

    open spec fn view(&self) -> FuncErrorsView {
        FuncErrorsView { function: self.function@, errors: views(self.errors@) }
    }
}

/// The test that picks the error-set annotations.
pub open spec fn declares() -> spec_fn(AnnotationView) -> bool {
    |annotation: AnnotationView| annotation.is_error_set()
}

impl MemberView {
    /// The error-set annotations of the member, in order.
    pub open spec fn declarations(self) -> Seq<AnnotationView> {
        self.annotations.filter(declares())
    }

    /// Whether the member bears an error-set annotation.
    pub open spec fn is_annotated(self) -> bool {
        self.declarations().len() > 0
    }

    /// The error set of the member: that of its first error-set annotation,
    /// and the empty set where it has none.
    pub open spec fn error_set(self) -> Result<Seq<Seq<char>>, ComposeError> {
        if self.is_annotated() {
            declared_error_set(self.declarations()[0])
        } else {
            Ok(Seq::empty())
        }
    }

    /// What the extraction finds on the member: nothing where it bears no
    /// error-set annotation, else its name with its error set.
    pub open spec fn func_errors(self) -> Result<Option<FuncErrorsView>, ComposeError> {
        if self.is_annotated() {
            match self.error_set() {
                Ok(errors) => Ok(Some(FuncErrorsView { function: self.name, errors })),
                Err(error) => Err(error),
            }
        } else {
            Ok(None)
        }
    }
}

/// Annotations of which none declares an error set hold no declaration.
pub proof fn lemma_no_declaration(annotations: Seq<AnnotationView>)
    requires
        forall|i: int| 0 <= i < annotations.len() ==> !(#[trigger] annotations[i]).is_error_set(),
    ensures
        annotations.filter(declares()).len() == 0,
    decreases annotations.len(),
{
    reveal(Seq::filter);
    if annotations.len() > 0 {
        lemma_no_declaration(annotations.drop_last());
    }
}

/// The first annotation that declares an error set is the first declaration.
pub proof fn lemma_first_declaration(annotations: Seq<AnnotationView>, at: int)
    requires
        0 <= at < annotations.len(),
        annotations[at].is_error_set(),
        forall|i: int| 0 <= i < at ==> !(#[trigger] annotations[i]).is_error_set(),
    ensures
        annotations.filter(declares()).len() > 0,
        annotations.filter(declares())[0] == annotations[at],
{
    let before = annotations.take(at);
    let upto = annotations.take(at + 1);
    let after = annotations.skip(at + 1);
    assert(annotations =~= upto + after);
    Seq::filter_distributes_over_add(upto, after, declares());
    lemma_no_declaration(before);
    assert(upto.drop_last() =~= before);
    assert(upto.filter(declares()) =~= seq![annotations[at]]) by {
        reveal(Seq::filter);
    }
}

/// What was found, or the failure in its place, as the contracts see it.
pub open spec fn found_view(found: Result<Option<FuncErrors>, ComposeError>) -> Result<
    Option<FuncErrorsView>,
    ComposeError,
> {
    match found {
        Ok(Some(found)) => Ok(Some(found@)),
        Ok(None) => Ok(None),
        Err(error) => Err(error),
    }
}

/// Reads what a function declares: nothing where it bears no error-set
/// annotation, else its name with the error set of the first such
/// annotation.
pub fn extract_bare_function(function: &Member) -> (found: Result<Option<FuncErrors>, ComposeError>)
    ensures
        found_view(found) == function@.func_errors(),
{
    let annotations = &function.annotations;
    for i in 0..annotations.len()
        invariant
            annotations == &function.annotations,
            forall|j: int| 0 <= j < i ==> !(#[trigger] views(annotations@)[j]).is_error_set(),
    {
        if annotations[i].is_error_set() {
            proof {
                lemma_first_declaration(views(annotations@), i as int);
            }
            return match extract_errorset_list(&annotations[i]) {
                Ok(errors) => Ok(Some(FuncErrors { function: function.name.clone(), errors })),
                Err(error) => Err(error),
            };
        }
    }
    proof {
        lemma_no_declaration(views(annotations@));
    }
    Ok(None)
}

} // verus!
