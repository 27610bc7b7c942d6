use composerr::compose::{compose_errors, Expansion};
use composerr::convert::Composed;
use composerr::synth::{Downcast, Synthesized, Upcast};
use composerr::tree::{
    Annotation, DeclarationUnit, Member, NamePath, ResultType, TypeArgument,
};

#[derive(Debug, PartialEq)]
pub struct BasedError;

fn bare(name: &str) -> NamePath {
    NamePath { leading_separator: false, segments: vec![name.to_string()] }
}

/// `#[errorset(IOError, BasedError)] fn main() -> Result<(), _> { .. }`
fn annotated_main() -> DeclarationUnit {
    DeclarationUnit::Standalone(Member {
        name: "main".to_string(),
        annotations: vec![Annotation {
            marker: "errorset".to_string(),
            payload: Some(vec![bare("IOError"), bare("BasedError")]),
        }],
        result: ResultType::Applied {
            name: "Result".to_string(),
            arguments: vec![TypeArgument::Concrete("()".to_string()), TypeArgument::Placeholder],
        },
        content: "() { Ok(()) }".to_string(),
    })
}

fn main_error() -> Synthesized {
    let Expansion { mut generated, .. } = compose_errors(&annotated_main()).unwrap();
    assert_eq!(generated.len(), 1);
    let main_error = generated.remove(0);
    assert_eq!(main_error.sum_type.name, "MainError");
    main_error
}

fn upcast_from<'a>(generated: &'a Synthesized, component: &str) -> &'a Upcast {
    generated.upcasts.iter().find(|upcast| upcast.component == component).unwrap()
}

fn downcast_to<'a>(generated: &'a Synthesized, component: &str) -> &'a Downcast {
    generated.downcasts.iter().find(|downcast| downcast.component == component).unwrap()
}

fn based_main_error() -> Composed<BasedError> {
    Composed {
        composed_type: "MainError".to_string(),
        variant: "BasedError".to_string(),
        value: BasedError,
    }
}

#[test]
fn test_conversion_succeeds() {
    let based = BasedError;
    let _main_err: Composed<BasedError> = upcast_from(&main_error(), "BasedError").apply(based);
}

#[test]
fn test_correct_reverse_conversion_succeeds() {
    let main_err = based_main_error();
    let _based: BasedError = downcast_to(&main_error(), "BasedError").apply(main_err).unwrap();
}

#[test]
#[should_panic(expected = "This conversion will fail")]
fn test_incorrect_reverse_conversion_fails() {
    let main_err = based_main_error();
    let _ioerr: BasedError =
        downcast_to(&main_error(), "IOError").apply(main_err).expect("This conversion will fail");
}

#[test]
fn upcast_puts_the_value_in_the_variant_of_its_kind() {
    let main_err = upcast_from(&main_error(), "BasedError").apply(BasedError);
    assert_eq!(main_err, based_main_error());
}

#[test]
fn upcast_then_downcast_gives_the_value_back() {
    let generated = main_error();
    let main_err = upcast_from(&generated, "IOError").apply(17u32);
    assert_eq!(main_err.variant, "IOError");
    assert_eq!(downcast_to(&generated, "IOError").apply(main_err), Ok(17u32));
}

#[test]
fn downcast_to_another_kind_fails_with_the_mismatch_message() {
    let generated = main_error();
    let main_err = upcast_from(&generated, "BasedError").apply(BasedError);
    assert_eq!(
        downcast_to(&generated, "IOError").apply(main_err),
        Err("This instance of MainError is of a variant different than the requested IOError"
            .to_string())
    );
}

#[test]
fn downcast_refuses_a_value_of_another_composed_type() {
    let generated = main_error();
    let stranger = Composed {
        composed_type: "OtherError".to_string(),
        variant: "BasedError".to_string(),
        value: BasedError,
    };
    assert_eq!(
        downcast_to(&generated, "BasedError").apply(stranger),
        Err("This instance of MainError is of a variant different than the requested BasedError"
            .to_string())
    );
}
