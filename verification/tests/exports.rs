use erl_sema::ast::{FunctionDefinition, Module, SpannedName};
use erl_sema::diagnostics::{Diagnostic, Label, Reporter, Severity, SourceSpan};
use erl_sema::exports::{similar_functions, VerifyExports};
use erl_sema::names::{FunctionName, Ident};

fn at(start: u32, end: u32) -> SourceSpan {
    SourceSpan::new(0, start, end)
}

fn local(function: &str, arity: usize) -> FunctionName {
    FunctionName::new_local(function.to_string(), arity)
}

fn define(function: &str, arity: usize, span: SourceSpan) -> FunctionDefinition {
    FunctionDefinition { span, name: local(function, arity), is_nif: false, body: vec![] }
}

fn export(function: &str, arity: usize, span: SourceSpan) -> SpannedName {
    SpannedName { span, name: local(function, arity) }
}

fn module(exports: Vec<SpannedName>, functions: Vec<FunctionDefinition>) -> Module {
    Module {
        name: Ident::new(at(0, 1), "m".to_string()),
        exports,
        functions,
        imports: vec![],
        specs: vec![],
        nifs: vec![],
        on_load: None,
    }
}

fn check(module: &Module) -> Vec<Diagnostic> {
    let mut pass = VerifyExports::new(Reporter::new());
    pass.run(module);
    pass.into_reporter().into_diagnostics()
}

fn plain(span: SourceSpan) -> Diagnostic {
    Diagnostic {
        severity: Severity::Error,
        message: "invalid export".to_string(),
        labels: vec![Label {
            span,
            message: "the referenced function is not defined in this module".to_string(),
        }],
    }
}

fn suggesting(span: SourceSpan, candidate: &str, defined_at: SourceSpan) -> Diagnostic {
    Diagnostic {
        severity: Severity::Error,
        message: "invalid export".to_string(),
        labels: vec![
            Label {
                span,
                message: "the referenced function is not defined in this module".to_string(),
            },
            Label {
                span: defined_at,
                message: format!("maybe you meant to export {} instead?", candidate),
            },
        ],
    }
}

#[test]
fn defined_exports_report_nothing() {
    let m = module(
        vec![export("f", 1, at(10, 13)), export("g", 0, at(15, 18))],
        vec![define("f", 1, at(30, 40)), define("g", 0, at(50, 60))],
    );
    assert_eq!(check(&m), vec![]);
}

#[test]
fn export_with_another_arity_is_invalid() {
    let m = module(vec![export("f", 2, at(10, 13))], vec![define("f", 1, at(30, 40))]);
    assert_eq!(check(&m), vec![plain(at(10, 13))]);
}

#[test]
fn distant_name_gets_no_suggestion() {
    let m = module(vec![export("foo", 1, at(10, 15))], vec![define("foo_bar", 1, at(30, 40))]);
    assert_eq!(check(&m), vec![plain(at(10, 15))]);
}

#[test]
fn close_name_is_suggested_at_its_definition() {
    let m = module(vec![export("foo", 1, at(10, 15))], vec![define("fo", 1, at(30, 40))]);
    assert_eq!(check(&m), vec![suggesting(at(10, 15), "fo/1", at(30, 40))]);
}

#[test]
fn module_without_functions_gets_no_suggestion() {
    let m = module(vec![export("foo", 1, at(10, 15))], vec![]);
    assert_eq!(check(&m), vec![plain(at(10, 15))]);
}

#[test]
fn closest_of_several_is_suggested() {
    let m = module(
        vec![export("foo", 1, at(10, 15))],
        vec![define("foo_bar", 1, at(30, 40)), define("fo", 1, at(50, 60)), define("zzz", 9, at(70, 80))],
    );
    assert_eq!(check(&m), vec![suggesting(at(10, 15), "fo/1", at(50, 60))]);
}

#[test]
fn of_equally_close_names_the_last_is_suggested() {
    let m = module(
        vec![export("foo", 1, at(10, 15))],
        vec![define("fooa", 1, at(30, 40)), define("foob", 1, at(50, 60))],
    );
    assert_eq!(check(&m), vec![suggesting(at(10, 15), "foob/1", at(50, 60))]);
}

#[test]
fn every_invalid_export_is_reported_in_order() {
    let m = module(
        vec![
            export("start", 0, at(10, 15)),
            export("f", 1, at(16, 19)),
            export("foo", 1, at(20, 25)),
            export("stop", 3, at(26, 30)),
        ],
        vec![define("f", 1, at(30, 40)), define("fo", 1, at(50, 60))],
    );
    assert_eq!(
        check(&m),
        vec![plain(at(10, 15)), suggesting(at(20, 25), "fo/1", at(50, 60)), plain(at(26, 30))]
    );
}

#[test]
fn qualified_export_is_not_a_local_definition() {
    let m = module(
        vec![SpannedName { span: at(10, 15), name: FunctionName::new("m".to_string(), "f".to_string(), 1) }],
        vec![define("f", 1, at(30, 40))],
    );
    let reported = check(&m);
    assert_eq!(reported.len(), 1);
    assert_eq!(reported[0].labels[0].span, at(10, 15));
}

#[test]
fn earlier_reports_are_kept() {
    let mut reporter = Reporter::new();
    reporter.show_warning("old", vec![]);
    let mut pass = VerifyExports::new(reporter);
    pass.run(&module(vec![export("foo", 1, at(10, 15))], vec![]));
    let reported = pass.into_reporter().into_diagnostics();
    assert_eq!(reported.len(), 2);
    assert_eq!(reported[0].message, "old");
    assert_eq!(reported[1], plain(at(10, 15)));
}

#[test]
fn candidates_are_the_names_of_the_functions_in_order() {
    let m = module(vec![], vec![define("f", 1, at(30, 40)), define("g", 0, at(50, 60))]);
    assert_eq!(similar_functions(&m), vec!["f/1".to_string(), "g/0".to_string()]);
}
