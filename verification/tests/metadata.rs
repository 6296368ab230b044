use erl_sema::diagnostics::SourceSpan;
use erl_sema::metadata::{ApplicationMetadata, Deprecation, ModuleMetadata};
use erl_sema::names::FunctionName;

fn at(start: u32, end: u32) -> SourceSpan {
    SourceSpan::new(0, start, end)
}

fn whole(span: SourceSpan, flag: &str) -> Deprecation {
    Deprecation::Module { span, flag: flag.to_string() }
}

fn one(function: &str, arity: usize, span: SourceSpan, flag: &str) -> Deprecation {
    Deprecation::Function {
        span,
        function: FunctionName::new_local(function.to_string(), arity),
        flag: flag.to_string(),
    }
}

fn qualified(module: &str, function: &str, arity: usize) -> FunctionName {
    FunctionName::new(module.to_string(), function.to_string(), arity)
}

fn metadata() -> ApplicationMetadata {
    ApplicationMetadata {
        modules: vec![
            ModuleMetadata {
                name: "a".to_string(),
                deprecations: vec![
                    one("f", 1, at(1, 2), "eventually"),
                    one("g", 2, at(3, 4), "in the next version"),
                    one("f", 1, at(5, 6), "never"),
                ],
            },
            ModuleMetadata {
                name: "b".to_string(),
                deprecations: vec![
                    one("f", 1, at(7, 8), "eventually"),
                    whole(at(9, 10), "in the next major release"),
                    whole(at(11, 12), "later"),
                ],
            },
            ModuleMetadata { name: "a".to_string(), deprecations: vec![whole(at(13, 14), "unseen")] },
            ModuleMetadata { name: "c".to_string(), deprecations: vec![] },
        ],
    }
}

#[test]
fn empty_metadata_knows_nothing() {
    let app = ApplicationMetadata::new();
    assert!(app.check_normalized());
    assert_eq!(app.get_function_deprecation(&qualified("a", "f", 1)), None);
    assert_eq!(app.get_module_deprecation(&"a".to_string()), None);
}

#[test]
fn function_query_finds_the_first_fact_that_applies() {
    let app = metadata();
    assert_eq!(
        app.get_function_deprecation(&qualified("a", "f", 1)),
        Some(&one("f", 1, at(1, 2), "eventually"))
    );
    assert_eq!(
        app.get_function_deprecation(&qualified("a", "g", 2)),
        Some(&one("g", 2, at(3, 4), "in the next version"))
    );
    assert_eq!(app.get_function_deprecation(&qualified("a", "g", 1)), None);
    assert_eq!(app.get_function_deprecation(&qualified("a", "h", 0)), None);
}

#[test]
fn fact_on_a_module_applies_to_all_its_functions() {
    let app = metadata();
    assert_eq!(
        app.get_function_deprecation(&qualified("b", "f", 1)),
        Some(&one("f", 1, at(7, 8), "eventually"))
    );
    assert_eq!(
        app.get_function_deprecation(&qualified("b", "anything", 7)),
        Some(&whole(at(9, 10), "in the next major release"))
    );
    assert_eq!(
        app.function_deprecation_of(&"b".to_string(), &"f".to_string(), 2),
        Some(&whole(at(9, 10), "in the next major release"))
    );
}

#[test]
fn function_query_needs_a_module_with_an_entry() {
    let app = metadata();
    assert_eq!(app.get_function_deprecation(&FunctionName::new_local("f".to_string(), 1)), None);
    assert_eq!(app.get_function_deprecation(&qualified("c", "f", 1)), None);
    assert_eq!(app.get_function_deprecation(&qualified("z", "f", 1)), None);
}

#[test]
fn module_query_finds_the_first_fact_on_the_whole_module() {
    let app = metadata();
    assert_eq!(app.get_module_deprecation(&"a".to_string()), None);
    assert_eq!(
        app.get_module_deprecation(&"b".to_string()),
        Some(&whole(at(9, 10), "in the next major release"))
    );
    assert_eq!(app.get_module_deprecation(&"c".to_string()), None);
    assert_eq!(app.get_module_deprecation(&"z".to_string()), None);
}

#[test]
fn facts_know_their_declaration_and_flag() {
    let fact = one("f", 1, at(1, 2), "eventually");
    assert_eq!(fact.span(), at(1, 2));
    assert_eq!(fact.flag(), "eventually");
    let fact = whole(at(9, 10), "later");
    assert_eq!(fact.span(), at(9, 10));
    assert_eq!(fact.flag(), "later");
}

#[test]
fn metadata_with_a_fact_for_any_arity_is_not_normalized() {
    let mut app = metadata();
    assert!(app.check_normalized());
    app.modules[3].deprecations.push(Deprecation::FunctionAnyArity {
        span: at(20, 21),
        name: "f".to_string(),
        flag: "eventually".to_string(),
    });
    assert!(!app.check_normalized());
}
