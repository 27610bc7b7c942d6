//! Rewriting a member: its error-set annotations go, and its result type
//! names the composed type where it asked for one.

use crate::extract::{FuncErrors, FuncErrorsView};
use crate::naming::{composed_name, name_composed_error};
use crate::text::{lemma_views_push, lemma_views_take_all, lemma_views_take_next, optional_view, views};
use crate::tree::{
    clone_arguments, Annotation, AnnotationView, Member, MemberView, ResultType, ResultTypeView,
    TypeArgument, TypeArgumentView,
};
use vstd::prelude::*;

verus! {

/// The name of the type whose second argument can stand for a failure type.
pub open spec fn result_name() -> Seq<char> {
    "Result"@
}

/// Whether `result` is the result shape with a placeholder for the failure
/// type: `Result` applied to two arguments, the second of them `_`.
pub open spec fn awaits_failure_type(result: ResultTypeView) -> bool {
    match result {
        ResultTypeView::Applied { name, arguments } => {
            &&& name == result_name()
            &&& arguments.len() == 2
            &&& arguments[1] is Placeholder
        },
        _ => false,
    }
}

/// `result` with the composed type in the place of the placeholder, where
/// there is a composed type and `result` has the placeholder; else `result`
/// as it is.
pub open spec fn replaced(result: ResultTypeView, composed: Option<Seq<char>>) -> ResultTypeView {
    match (result, composed) {
        (ResultTypeView::Applied { name, arguments }, Some(composed)) => {
            if awaits_failure_type(result) {
                ResultTypeView::Applied {
                    name,
                    arguments: arguments.update(1, TypeArgumentView::Concrete(composed)),
                }
            } else {
                result
            }
        },
        _ => result,
    }
}

/// Puts the composed type into the failure slot of a result type that asks
/// for it with a placeholder. Every other result type comes back unchanged,
/// and so does every result type where there is no composed type.
pub fn replace_func_output(return_type: &ResultType, composed: Option<&String>) -> (replaced_type:
    ResultType)
    ensures
        replaced_type@ == replaced(return_type@, optional_view(composed)),
{
    match (return_type, composed) {
        (ResultType::Applied { name, arguments }, Some(composed)) => {
            if *name == String::from_str("Result") && arguments.len() == 2 {
                match &arguments[1] {
                    TypeArgument::Placeholder => {
                        let mut filled = clone_arguments(arguments);
                        filled.set(1, TypeArgument::Concrete(composed.clone()));
                        proof {
                            assert(views(filled@) =~= views(arguments@).update(
                                1,
                                TypeArgumentView::Concrete(composed@),
                            ));
                        }
                        ResultType::Applied { name: name.clone(), arguments: filled }
                    },
                    TypeArgument::Concrete(_) => return_type.clone(),
                }
            } else {
                return_type.clone()
            }
        },
        _ => return_type.clone(),
    }
}

/// The test that picks the annotations that stay.
pub open spec fn stays() -> spec_fn(AnnotationView) -> bool {
    |annotation: AnnotationView| !annotation.is_error_set()
}

/// `member` without its error-set annotations and with `composed` in its
/// result type, where the result type asks for it; all else as it was.
pub open spec fn stripped(member: MemberView, composed: Option<Seq<char>>) -> MemberView {
    MemberView {
        name: member.name,
        annotations: member.annotations.filter(stays()),
        result: replaced(member.result, composed),
        content: member.content,
    }
}

/// The name of the composed type of the member `member` of the scope
/// `scope`, given what was found on the member: there is a composed type
/// where an error set was found that is not empty.
pub open spec fn composed_for(
    scope: Seq<char>,
    member: Seq<char>,
    found: Option<FuncErrorsView>,
) -> Option<Seq<char>> {
    match found {
        Some(found) => if found.errors.len() > 0 {
            Some(composed_name(scope, member))
        } else {
            None
        },
        None => None,
    }
}

/// The annotations that do not declare an error set, in order.
pub fn strip_annotations(annotations: &Vec<Annotation>) -> (kept: Vec<Annotation>)
    ensures
        views(kept@) == views(annotations@).filter(stays()),
{
    let mut kept: Vec<Annotation> = Vec::new();
    proof {
        reveal(Seq::filter);
        assert(views(annotations@.take(0)) =~= Seq::<AnnotationView>::empty());
    }
    for i in 0..annotations.len()
        invariant
            views(kept@) == views(annotations@.take(i as int)).filter(stays()),
    {
        proof {
            reveal(Seq::filter);
            lemma_views_take_next(annotations@, i as int);
            assert(views(annotations@.take(i + 1)).drop_last() =~= views(
                annotations@.take(i as int),
            ));
        }
        if !annotations[i].is_error_set() {
            let annotation = annotations[i].clone();
            proof {
                lemma_views_push(kept@, annotation);
            }
            kept.push(annotation);
        }
    }
    proof {
        lemma_views_take_all(annotations@);
    }
    kept
}

/// Removes the error-set annotations of a function and, where `found` holds
/// an error set that is not empty, installs the composed type of the function
/// in the scope `scope_name` as the failure type that its result type asks
/// for.
pub fn strip_bare_function_attrs(
    function: &Member,
    scope_name: &str,
    found: &Option<FuncErrors>,
) -> (clean: Member)
    ensures
        clean@ == stripped(
            function@,
            composed_for(scope_name@, function@.name, optional_view(*found)),
        ),
{
    let composed = match found {
        Some(found) => if found.errors.len() > 0 {
            Some(name_composed_error(function.name.as_str(), scope_name))
        } else {
            None
        },
        None => None,
    };
    Member {
        name: function.name.clone(),
        annotations: strip_annotations(&function.annotations),
        result: replace_func_output(&function.result, composed.as_ref()),
        content: function.content.clone(),
    }
}

} // verus!
