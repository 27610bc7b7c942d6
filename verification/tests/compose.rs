use composerr::compose::{
    compose_errors, generate, process_bare_function, process_function, process_functions,
    process_impl_block, process_trait_def, Expansion, ScopeFuncs,
};
use composerr::error::ComposeError;
use composerr::extract::FuncErrors;
use composerr::synth::{Downcast, SumType, Synthesized, Upcast, Variant};
use composerr::tree::{
    AbstractScope, Annotation, ConcreteScope, DeclarationUnit, Member, NamePath, ResultType,
    ScopeItem, TargetType, TypeArgument,
};

fn text(s: &str) -> String {
    s.to_string()
}

fn path(leading_separator: bool, segments: &[&str]) -> NamePath {
    NamePath { leading_separator, segments: segments.iter().map(|s| text(s)).collect() }
}

fn bare(name: &str) -> NamePath {
    path(false, &[name])
}

fn errorset(kinds: &[&str]) -> Annotation {
    Annotation {
        marker: text("errorset"),
        payload: Some(kinds.iter().map(|kind| bare(kind)).collect()),
    }
}

fn errorset_of(paths: Vec<NamePath>) -> Annotation {
    Annotation { marker: text("errorset"), payload: Some(paths) }
}

fn inline() -> Annotation {
    Annotation { marker: text("inline"), payload: None }
}

fn doc() -> Annotation {
    Annotation { marker: text("doc"), payload: None }
}

fn result_of(success: &str, failure: TypeArgument) -> ResultType {
    ResultType::Applied {
        name: text("Result"),
        arguments: vec![TypeArgument::Concrete(text(success)), failure],
    }
}

fn member(name: &str, annotations: Vec<Annotation>, result: ResultType) -> Member {
    Member { name: text(name), annotations, result, content: format!("(&self) /* {} */", name) }
}

fn named(name: &str) -> TargetType {
    TargetType::Named {
        path: NamePath { leading_separator: false, segments: vec![text(name)] },
        generic: false,
    }
}

fn concrete(target: TargetType, items: Vec<ScopeItem>) -> DeclarationUnit {
    DeclarationUnit::ConcreteScope(ConcreteScope { target, contract: None, items })
}

fn variant(kind: &str) -> Variant {
    Variant { name: text(kind), payload: text(kind) }
}

fn upcast(kind: &str, composed: &str) -> Upcast {
    Upcast { component: text(kind), composed: text(composed) }
}

fn downcast(kind: &str, composed: &str) -> Downcast {
    Downcast {
        composed: text(composed),
        component: text(kind),
        mismatch: format!(
            "This instance of {} is of a variant different than the requested {}",
            composed, kind
        ),
    }
}

fn synthesized(composed: &str, kinds: &[&str]) -> Synthesized {
    Synthesized {
        sum_type: SumType {
            name: text(composed),
            variants: kinds.iter().map(|kind| variant(kind)).collect(),
        },
        upcasts: kinds.iter().map(|kind| upcast(kind, composed)).collect(),
        downcasts: kinds.iter().map(|kind| downcast(kind, composed)).collect(),
    }
}

#[test]
fn abstract_scope_with_one_annotated_member() {
    let read = member(
        "read",
        vec![errorset(&["IoError", "FormatError"])],
        result_of("String", TypeArgument::Placeholder),
    );
    let unit = DeclarationUnit::AbstractScope(AbstractScope {
        name: text("Reader"),
        items: vec![ScopeItem::Function(read)],
    });

    let expansion = compose_errors(&unit).unwrap();

    let rewritten = member(
        "read",
        vec![],
        result_of("String", TypeArgument::Concrete(text("ReaderContractReadError"))),
    );
    assert_eq!(
        expansion,
        Expansion {
            generated: vec![synthesized("ReaderContractReadError", &["IoError", "FormatError"])],
            unit: DeclarationUnit::AbstractScope(AbstractScope {
                name: text("Reader"),
                items: vec![ScopeItem::Function(rewritten)],
            }),
        }
    );
}

#[test]
fn concrete_scope_bound_to_a_tuple_is_refused() {
    let work = member(
        "work",
        vec![errorset(&["IoError"])],
        result_of("()", TypeArgument::Placeholder),
    );
    let unit = concrete(TargetType::Other(text("(u8, u8)")), vec![ScopeItem::Function(work)]);
    assert_eq!(compose_errors(&unit), Err(ComposeError::UnsupportedTargetShape));
}

#[test]
fn concrete_scope_bound_to_a_generic_type_is_refused() {
    let target = TargetType::Named {
        path: NamePath { leading_separator: false, segments: vec![text("Widget")] },
        generic: true,
    };
    assert_eq!(compose_errors(&concrete(target, vec![])), Err(ComposeError::UnsupportedTargetShape));
}

#[test]
fn concrete_scope_bound_to_a_qualified_name_is_refused() {
    let qualified = TargetType::Named {
        path: NamePath { leading_separator: false, segments: vec![text("foo"), text("Dummy2")] },
        generic: false,
    };
    assert_eq!(
        compose_errors(&concrete(qualified, vec![])),
        Err(ComposeError::UnsupportedTargetShape)
    );
    let rooted = TargetType::Named {
        path: NamePath { leading_separator: true, segments: vec![text("Dummy2")] },
        generic: false,
    };
    assert_eq!(compose_errors(&concrete(rooted, vec![])), Err(ComposeError::UnsupportedTargetShape));
    let nameless = TargetType::Named {
        path: NamePath { leading_separator: false, segments: vec![] },
        generic: false,
    };
    assert_eq!(
        compose_errors(&concrete(nameless, vec![])),
        Err(ComposeError::UnsupportedTargetShape)
    );
}

#[test]
fn concrete_scope_that_claims_a_contract_is_refused() {
    let scope = ConcreteScope { target: named("Dummy"), contract: Some(text("MyTrait")), items: vec![] };
    assert_eq!(
        compose_errors(&DeclarationUnit::ConcreteScope(scope)),
        Err(ComposeError::MisplacedAnnotation)
    );
}

#[test]
fn target_shape_is_judged_before_the_claimed_contract() {
    let scope = ConcreteScope {
        target: TargetType::Other(text("&Dummy")),
        contract: Some(text("MyTrait")),
        items: vec![],
    };
    assert_eq!(process_impl_block(&scope), Err(ComposeError::UnsupportedTargetShape));
}

#[test]
fn scope_is_judged_before_its_members() {
    let broken =
        member("broken", vec![errorset_of(vec![path(false, &["a", "B"])])], ResultType::Unit);
    let scope = ConcreteScope {
        target: named("Dummy"),
        contract: Some(text("MyTrait")),
        items: vec![ScopeItem::Function(broken)],
    };
    assert_eq!(process_impl_block(&scope), Err(ComposeError::MisplacedAnnotation));
}

#[test]
fn other_kinds_of_unit_are_refused() {
    let unit = DeclarationUnit::Other(text("struct Point;"));
    assert_eq!(compose_errors(&unit), Err(ComposeError::UnsupportedDeclarationKind));
}

#[test]
fn entry_that_is_no_bare_identifier_is_refused() {
    let payloads = vec![
        vec![path(false, &["std", "io", "Error"])],
        vec![path(true, &["IoError"])],
        vec![bare("IoError"), path(false, &["fmt", "Error"])],
        vec![path(false, &["fmt", "Error"]), bare("IoError")],
        vec![path(false, &[])],
    ];
    for payload in payloads {
        let function = member("run", vec![errorset_of(payload)], ResultType::Unit);
        assert_eq!(
            compose_errors(&DeclarationUnit::Standalone(function)),
            Err(ComposeError::InvalidErrorSetEntry)
        );
    }
}

#[test]
fn error_set_annotation_without_paths_is_refused() {
    let listless = Annotation { marker: text("errorset"), payload: None };
    let function = member("run", vec![listless], ResultType::Unit);
    assert_eq!(
        compose_errors(&DeclarationUnit::Standalone(function)),
        Err(ComposeError::InvalidErrorSetEntry)
    );
}

#[test]
fn invalid_member_of_a_scope_fails_the_whole_scope() {
    let fine =
        member("fine", vec![errorset(&["IoError"])], result_of("u8", TypeArgument::Placeholder));
    let broken =
        member("broken", vec![errorset_of(vec![path(false, &["io", "Error"])])], ResultType::Unit);
    let unit = DeclarationUnit::AbstractScope(AbstractScope {
        name: text("Reader"),
        items: vec![ScopeItem::Function(fine), ScopeItem::Function(broken)],
    });
    assert_eq!(compose_errors(&unit), Err(ComposeError::InvalidErrorSetEntry));
}

#[test]
fn empty_error_set_generates_nothing_and_the_annotation_goes() {
    let function5 = member(
        "function5",
        vec![inline(), errorset(&[])],
        result_of("u8", TypeArgument::Placeholder),
    );
    let unit = concrete(named("Dummy"), vec![ScopeItem::Function(function5)]);

    let expansion = compose_errors(&unit).unwrap();

    let kept = member("function5", vec![inline()], result_of("u8", TypeArgument::Placeholder));
    assert_eq!(expansion.generated, vec![]);
    assert_eq!(expansion.unit, concrete(named("Dummy"), vec![ScopeItem::Function(kept)]));
}

#[test]
fn member_of_a_concrete_scope_is_named_after_the_target() {
    let do_thing = member(
        "do_thing",
        vec![errorset(&["Jammed"])],
        result_of("()", TypeArgument::Placeholder),
    );
    let unit = concrete(named("Widget"), vec![ScopeItem::Function(do_thing)]);

    let expansion = compose_errors(&unit).unwrap();

    assert_eq!(
        expansion.generated,
        vec![synthesized("WidgetImplementationDoThingError", &["Jammed"])]
    );
    let rewritten = member(
        "do_thing",
        vec![],
        result_of("()", TypeArgument::Concrete(text("WidgetImplementationDoThingError"))),
    );
    assert_eq!(expansion.unit, concrete(named("Widget"), vec![ScopeItem::Function(rewritten)]));
}

#[test]
fn result_types_of_other_shapes_stay_and_the_sum_type_is_still_generated() {
    let shapes = vec![
        ResultType::Unit,
        ResultType::Other(text("(u8, _)")),
        ResultType::Applied { name: text("String"), arguments: vec![] },
        ResultType::Applied { name: text("Result"), arguments: vec![] },
        ResultType::Applied { name: text("Result"), arguments: vec![TypeArgument::Placeholder] },
        ResultType::Applied {
            name: text("Result"),
            arguments: vec![
                TypeArgument::Concrete(text("u8")),
                TypeArgument::Placeholder,
                TypeArgument::Placeholder,
            ],
        },
        result_of("_", TypeArgument::Concrete(text("IoError"))),
        ResultType::Applied {
            name: text("Outcome"),
            arguments: vec![TypeArgument::Concrete(text("u8")), TypeArgument::Placeholder],
        },
        ResultType::Applied {
            name: text("std"),
            arguments: vec![],
        },
    ];
    for shape in shapes {
        for annotations in [vec![errorset(&["IoError"])], vec![]] {
            let declared = !annotations.is_empty();
            let before = member("run", annotations, shape.clone());
            let expansion = compose_errors(&DeclarationUnit::Standalone(before)).unwrap();
            let after = member("run", vec![], shape.clone());
            assert_eq!(expansion.unit, DeclarationUnit::Standalone(after));
            if declared {
                assert_eq!(expansion.generated, vec![synthesized("RunError", &["IoError"])]);
            } else {
                assert_eq!(expansion.generated, vec![]);
            }
        }
    }
}

#[test]
fn placeholder_in_the_success_slot_is_left_alone() {
    let before = member(
        "run",
        vec![errorset(&["IoError"])],
        ResultType::Applied {
            name: text("Result"),
            arguments: vec![TypeArgument::Placeholder, TypeArgument::Placeholder],
        },
    );
    let expansion = compose_errors(&DeclarationUnit::Standalone(before)).unwrap();
    let after = member(
        "run",
        vec![],
        ResultType::Applied {
            name: text("Result"),
            arguments: vec![TypeArgument::Placeholder, TypeArgument::Concrete(text("RunError"))],
        },
    );
    assert_eq!(expansion.unit, DeclarationUnit::Standalone(after));
}

#[test]
fn unannotated_standalone_declaration_passes_through() {
    let before = member("run", vec![inline()], result_of("u8", TypeArgument::Placeholder));
    let expansion = compose_errors(&DeclarationUnit::Standalone(before)).unwrap();
    let same = member("run", vec![inline()], result_of("u8", TypeArgument::Placeholder));
    assert_eq!(expansion, Expansion { generated: vec![], unit: DeclarationUnit::Standalone(same) });
}

#[test]
fn scope_keeps_order_and_everything_that_is_not_targeted() {
    let items = vec![
        ScopeItem::Other(text("const LIMIT: usize = 4;")),
        ScopeItem::Function(member(
            "function1",
            vec![doc(), errorset(&["IOError", "BasedError"]), inline()],
            ResultType::Unit,
        )),
        ScopeItem::Function(member("function2", vec![doc()], ResultType::Unit)),
        ScopeItem::Other(text("type Output;")),
        ScopeItem::Function(member(
            "function3",
            vec![errorset(&["IOError"])],
            result_of("u8", TypeArgument::Placeholder),
        )),
    ];
    let unit = DeclarationUnit::AbstractScope(AbstractScope { name: text("MyTrait"), items });

    let expansion = compose_errors(&unit).unwrap();

    assert_eq!(
        expansion.generated,
        vec![
            synthesized("MyTraitContractFunction1Error", &["IOError", "BasedError"]),
            synthesized("MyTraitContractFunction3Error", &["IOError"]),
        ]
    );
    let emitted = vec![
        ScopeItem::Other(text("const LIMIT: usize = 4;")),
        ScopeItem::Function(member("function1", vec![doc(), inline()], ResultType::Unit)),
        ScopeItem::Function(member("function2", vec![doc()], ResultType::Unit)),
        ScopeItem::Other(text("type Output;")),
        ScopeItem::Function(member(
            "function3",
            vec![],
            result_of("u8", TypeArgument::Concrete(text("MyTraitContractFunction3Error"))),
        )),
    ];
    assert_eq!(
        expansion.unit,
        DeclarationUnit::AbstractScope(AbstractScope { name: text("MyTrait"), items: emitted })
    );
}

#[test]
fn duplicate_entries_are_passed_through() {
    let function = member("run", vec![errorset(&["IoError", "IoError"])], ResultType::Unit);
    let expansion = compose_errors(&DeclarationUnit::Standalone(function)).unwrap();
    assert_eq!(expansion.generated, vec![synthesized("RunError", &["IoError", "IoError"])]);
}

#[test]
fn first_error_set_annotation_is_read_and_all_of_them_go() {
    let function = member(
        "run",
        vec![errorset(&["IoError"]), inline(), errorset_of(vec![path(false, &["not", "read"])])],
        result_of("u8", TypeArgument::Placeholder),
    );
    let expansion = compose_errors(&DeclarationUnit::Standalone(function)).unwrap();
    assert_eq!(expansion.generated, vec![synthesized("RunError", &["IoError"])]);
    let after = member(
        "run",
        vec![inline()],
        result_of("u8", TypeArgument::Concrete(text("RunError"))),
    );
    assert_eq!(expansion.unit, DeclarationUnit::Standalone(after));
}

#[test]
fn marker_is_told_by_its_whole_name() {
    let function = member(
        "run",
        vec![
            Annotation { marker: text("errorsets"), payload: Some(vec![path(false, &["a", "b"])]) },
            Annotation { marker: text("tools::errorset"), payload: None },
            Annotation { marker: text("Errorset"), payload: Some(vec![bare("IoError")]) },
        ],
        ResultType::Unit,
    );
    let (same, found) = process_function(&function, "").unwrap();
    assert_eq!(same, function);
    assert_eq!(found, None);
}

#[test]
fn process_function_reports_what_it_found() {
    let function = member(
        "function5",
        vec![errorset(&["ConfigError", "BasedError"])],
        result_of("String", TypeArgument::Placeholder),
    );
    let (clean, found) = process_function(&function, "FooImplementation").unwrap();
    assert_eq!(
        found,
        Some(FuncErrors {
            function: text("function5"),
            errors: vec![text("ConfigError"), text("BasedError")],
        })
    );
    assert_eq!(
        clean,
        member(
            "function5",
            vec![],
            result_of("String", TypeArgument::Concrete(text("FooImplementationFunction5Error"))),
        )
    );
}

#[test]
fn process_functions_lists_annotated_functions_with_empty_sets_too() {
    let items = vec![
        ScopeItem::Function(member("function4", vec![], ResultType::Unit)),
        ScopeItem::Function(member("function5", vec![errorset(&[])], ResultType::Unit)),
        ScopeItem::Function(member("function6", vec![errorset(&["IOError"])], ResultType::Unit)),
    ];
    let (_, functions) = process_functions(&items, "DummyImplementation").unwrap();
    assert_eq!(
        functions,
        vec![
            FuncErrors { function: text("function5"), errors: vec![] },
            FuncErrors { function: text("function6"), errors: vec![text("IOError")] },
        ]
    );
}

#[test]
fn process_trait_def_gives_the_scope_its_identity() {
    let scope = AbstractScope { name: text("MyTrait"), items: vec![] };
    let (same, functions) = process_trait_def(&scope).unwrap();
    assert_eq!(same, scope);
    assert_eq!(functions, ScopeFuncs { scope_name: text("MyTraitContract"), functions: vec![] });
}

#[test]
fn process_impl_block_gives_the_scope_its_identity() {
    let scope = ConcreteScope { target: named("Dummy"), contract: None, items: vec![] };
    let (same, functions) = process_impl_block(&scope).unwrap();
    assert_eq!(same, scope);
    assert_eq!(functions, ScopeFuncs { scope_name: text("DummyImplementation"), functions: vec![] });
}

#[test]
fn process_bare_function_has_the_empty_identity() {
    let function = member("main", vec![errorset(&["IOError"])], ResultType::Unit);
    let (clean, functions) = process_bare_function(&function).unwrap();
    assert_eq!(clean, member("main", vec![], ResultType::Unit));
    assert_eq!(
        functions,
        ScopeFuncs {
            scope_name: text(""),
            functions: vec![FuncErrors { function: text("main"), errors: vec![text("IOError")] }],
        }
    );
}

#[test]
fn generate_skips_empty_error_sets() {
    let functions = ScopeFuncs {
        scope_name: text("my_scope"),
        functions: vec![
            FuncErrors { function: text("first"), errors: vec![] },
            FuncErrors { function: text("second_one"), errors: vec![text("A"), text("B")] },
            FuncErrors { function: text("third"), errors: vec![] },
        ],
    };
    assert_eq!(generate(&functions), vec![synthesized("MyScopeSecondOneError", &["A", "B"])]);
}
