use composerr::naming::{name_composed_error, snake_to_pascal, to_ascii_upper};

#[test]
fn pascal_case_joins_capitalized_words() {
    assert_eq!(snake_to_pascal("do_thing"), "DoThing");
    assert_eq!(snake_to_pascal("moody_task_do"), "MoodyTaskDo");
}

#[test]
fn pascal_case_of_the_empty_text_is_empty() {
    assert_eq!(snake_to_pascal(""), "");
}

#[test]
fn pascal_case_drops_every_separator() {
    assert_eq!(snake_to_pascal("_"), "");
    assert_eq!(snake_to_pascal("__"), "");
    assert_eq!(snake_to_pascal("_read"), "Read");
    assert_eq!(snake_to_pascal("read_"), "Read");
    assert_eq!(snake_to_pascal("read__all"), "ReadAll");
}

#[test]
fn pascal_case_changes_only_the_first_character_of_a_word() {
    assert_eq!(snake_to_pascal("readAll"), "ReadAll");
    assert_eq!(snake_to_pascal("READ_all"), "READAll");
    assert_eq!(snake_to_pascal("WidgetImplementation"), "WidgetImplementation");
}

#[test]
fn pascal_case_leaves_what_is_no_ascii_lower_case_letter() {
    assert_eq!(snake_to_pascal("read_2nd"), "Read2nd");
    assert_eq!(snake_to_pascal("\u{e9}lan_\u{e9}t\u{e9}"), "\u{e9}lan\u{e9}t\u{e9}");
}

#[test]
fn ascii_upper_maps_a_to_z_only() {
    assert_eq!(to_ascii_upper('a'), 'A');
    assert_eq!(to_ascii_upper('z'), 'Z');
    assert_eq!(to_ascii_upper('m'), 'M');
    assert_eq!(to_ascii_upper('A'), 'A');
    assert_eq!(to_ascii_upper('`'), '`');
    assert_eq!(to_ascii_upper('{'), '{');
    assert_eq!(to_ascii_upper('_'), '_');
    assert_eq!(to_ascii_upper('\u{df}'), '\u{df}');
}

#[test]
fn composed_name_of_a_concrete_scope_member() {
    assert_eq!(
        name_composed_error("do_thing", "WidgetImplementation"),
        "WidgetImplementationDoThingError"
    );
}

#[test]
fn composed_name_of_an_abstract_scope_member() {
    assert_eq!(name_composed_error("read", "ReaderContract"), "ReaderContractReadError");
}

#[test]
fn composed_name_in_the_scope_without_identity() {
    assert_eq!(name_composed_error("main", ""), "MainError");
    assert_eq!(name_composed_error("moody_task_do", ""), "MoodyTaskDoError");
}

#[test]
fn composed_name_is_the_same_on_every_call() {
    let first = name_composed_error("function5", "FooImplementation");
    let second = name_composed_error("function5", "FooImplementation");
    assert_eq!(first, second);
    assert_eq!(first, "FooImplementationFunction5Error");
}
