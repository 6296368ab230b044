use erl_sema::ast::{
    Apply, Expr, FunctionDefinition, FunctionVar, Import, Module, PartiallyResolvedFunctionName,
    Remote, SpannedName, UnresolvedFunctionName,
};
use erl_sema::calls::{VerifyCalls, VerifyCallsVisitor};
use erl_sema::diagnostics::{Diagnostic, Label, Reporter, Severity, SourceSpan};
use erl_sema::metadata::{ApplicationMetadata, Deprecation, ModuleMetadata};
use erl_sema::names::{Arity, FunctionName, Ident, Name};

fn at(start: u32, end: u32) -> SourceSpan {
    SourceSpan::new(0, start, end)
}

fn ident(name: &str, span: SourceSpan) -> Ident {
    Ident::new(span, name.to_string())
}

fn atom(name: &str, span: SourceSpan) -> Expr {
    Expr::Atom(ident(name, span))
}

fn var(name: &str, span: SourceSpan) -> Expr {
    Expr::Var(ident(name, span))
}

fn vars(n: usize) -> Vec<Expr> {
    (0..n).map(|_| var("X", at(90, 91))).collect()
}

fn call(callee: Expr, args: Vec<Expr>, span: SourceSpan) -> Expr {
    Expr::Apply(Apply { span, callee: Box::new(callee), args })
}

fn remote(module: Expr, function: Expr, span: SourceSpan) -> Expr {
    Expr::Remote(Remote { span, module: Box::new(module), function: Box::new(function) })
}

fn local(function: &str, arity: usize) -> FunctionName {
    FunctionName::new_local(function.to_string(), arity)
}

fn qualified(module: &str, function: &str, arity: usize) -> FunctionName {
    FunctionName::new(module.to_string(), function.to_string(), arity)
}

fn define(function: &str, arity: usize, body: Vec<Expr>) -> FunctionDefinition {
    FunctionDefinition { span: at(200, 210), name: local(function, arity), is_nif: false, body }
}

fn module(functions: Vec<FunctionDefinition>, imports: Vec<Import>) -> Module {
    Module {
        name: ident("m", at(0, 1)),
        exports: vec![],
        functions,
        imports,
        specs: vec![],
        nifs: vec![],
        on_load: None,
    }
}

fn body(es: Vec<Expr>) -> Module {
    module(vec![define("main", 0, es), define("f", 1, vec![])], vec![])
}

fn importing(es: Vec<Expr>) -> Module {
    module(
        vec![define("main", 0, es), define("f", 1, vec![])],
        vec![
            Import { name: local("map", 2), origin: qualified("lists", "map", 2) },
            Import { name: local("old", 1), origin: qualified("legacy", "old", 1) },
            Import { name: local("gone", 0), origin: qualified("lists", "gone", 0) },
        ],
    )
}

fn metadata() -> ApplicationMetadata {
    ApplicationMetadata {
        modules: vec![
            ModuleMetadata {
                name: "legacy".to_string(),
                deprecations: vec![Deprecation::Module {
                    span: at(500, 510),
                    flag: "eventually".to_string(),
                }],
            },
            ModuleMetadata {
                name: "lists".to_string(),
                deprecations: vec![Deprecation::Function {
                    span: at(600, 610),
                    function: local("gone", 0),
                    flag: "in the next version".to_string(),
                }],
            },
        ],
    }
}

fn check_with(module: &Module, app: &ApplicationMetadata) -> Vec<Diagnostic> {
    assert!(app.check_normalized());
    let mut pass = VerifyCalls::new(Reporter::new(), app);
    pass.run(module);
    pass.into_reporter().into_diagnostics()
}

fn check(module: &Module) -> Vec<Diagnostic> {
    check_with(module, &metadata())
}

fn error(message: &str, span: SourceSpan, note: &str) -> Diagnostic {
    Diagnostic {
        severity: Severity::Error,
        message: message.to_string(),
        labels: vec![Label { span, message: note.to_string() }],
    }
}

fn warning(message: &str, span: SourceSpan, note: &str, declared: SourceSpan) -> Diagnostic {
    Diagnostic {
        severity: Severity::Warning,
        message: message.to_string(),
        labels: vec![
            Label { span, message: note.to_string() },
            Label { span: declared, message: "deprecation declared here".to_string() },
        ],
    }
}

fn resolved(name: FunctionName, span: SourceSpan) -> Expr {
    Expr::FunctionVar(FunctionVar::Resolved(SpannedName { span, name }))
}

fn partially(function: &str, arity: usize, span: SourceSpan) -> Expr {
    Expr::FunctionVar(FunctionVar::PartiallyResolved(PartiallyResolvedFunctionName {
        span,
        function: function.to_string(),
        arity,
    }))
}

fn unresolved(module: Option<Name>, function: Name, arity: Arity, span: SourceSpan) -> Expr {
    Expr::FunctionVar(FunctionVar::Unresolved(UnresolvedFunctionName {
        span,
        module,
        function,
        arity,
    }))
}

#[test]
fn dynamic_remote_calls_report_nothing() {
    let m = body(vec![
        call(remote(var("M", at(10, 11)), var("F", at(12, 13)), at(10, 13)), vars(1), at(10, 16)),
        call(remote(var("M", at(20, 21)), atom("nope", at(22, 26)), at(20, 26)), vars(2), at(20, 30)),
        call(remote(atom("legacy", at(30, 36)), var("F", at(37, 38)), at(30, 38)), vars(0), at(30, 40)),
        call(remote(atom("m", at(40, 41)), var("F", at(42, 43)), at(40, 43)), vars(0), at(40, 45)),
    ]);
    assert_eq!(check(&m), vec![]);
}

#[test]
fn callee_of_any_other_form_reports_nothing() {
    let m = body(vec![
        call(var("F", at(10, 11)), vars(3), at(10, 20)),
        call(Expr::Other(vec![]), vars(1), at(21, 30)),
    ]);
    assert_eq!(check(&m), vec![]);
}

#[test]
fn remote_call_into_own_module_must_be_defined() {
    let m = body(vec![
        call(remote(atom("m", at(10, 11)), atom("f", at(12, 13)), at(10, 13)), vars(1), at(10, 16)),
        call(remote(atom("m", at(20, 21)), atom("f", at(22, 23)), at(20, 23)), vars(2), at(20, 28)),
    ]);
    assert_eq!(
        check(&m),
        vec![error(
            "reference to undefined function",
            at(20, 23),
            "the function f/2 is not defined in this module"
        )]
    );
}

#[test]
fn remote_call_into_another_module_is_not_checked_for_existence() {
    let m = body(vec![call(
        remote(atom("lists", at(10, 15)), atom("nope", at(16, 20)), at(10, 20)),
        vars(1),
        at(10, 23),
    )]);
    assert_eq!(check(&m), vec![]);
}

#[test]
fn remote_call_into_a_deprecated_module_is_anchored_at_the_module() {
    let m = body(vec![call(
        remote(atom("legacy", at(10, 16)), atom("run", at(17, 20)), at(10, 20)),
        vars(1),
        at(10, 23),
    )]);
    assert_eq!(
        check(&m),
        vec![warning(
            "use of deprecated module",
            at(10, 16),
            "this module will be deprecated eventually",
            at(500, 510)
        )]
    );
}

#[test]
fn remote_call_of_a_deprecated_function_is_anchored_at_the_function() {
    let m = body(vec![
        call(remote(atom("lists", at(10, 15)), atom("gone", at(16, 20)), at(10, 20)), vars(0), at(10, 22)),
        call(remote(atom("lists", at(30, 35)), atom("gone", at(36, 40)), at(30, 40)), vars(1), at(30, 43)),
    ]);
    assert_eq!(
        check(&m),
        vec![warning(
            "use of deprecated function",
            at(16, 20),
            "this function will be deprecated in the next version",
            at(600, 610)
        )]
    );
}

#[test]
fn resolved_reference_into_own_module_must_be_defined() {
    let m = body(vec![
        call(resolved(qualified("m", "f", 1), at(10, 15)), vars(1), at(10, 18)),
        call(resolved(qualified("m", "g", 1), at(20, 25)), vars(1), at(20, 28)),
    ]);
    assert_eq!(
        check(&m),
        vec![error(
            "reference to undefined function",
            at(20, 25),
            "the function g/1 is not defined in this module"
        )]
    );
}

#[test]
fn resolved_reference_into_a_deprecated_module() {
    let m = body(vec![call(resolved(qualified("legacy", "run", 1), at(10, 22)), vars(1), at(10, 25))]);
    assert_eq!(
        check(&m),
        vec![warning(
            "use of deprecated module",
            at(10, 22),
            "this function will be deprecated eventually",
            at(500, 510)
        )]
    );
}

#[test]
fn resolved_reference_to_a_deprecated_function() {
    let m = body(vec![call(resolved(qualified("lists", "gone", 0), at(10, 22)), vars(0), at(10, 25))]);
    assert_eq!(
        check(&m),
        vec![warning(
            "use of deprecated function",
            at(10, 22),
            "this function will be deprecated in the next version",
            at(600, 610)
        )]
    );
}

#[test]
fn resolved_reference_called_with_too_few_arguments() {
    let m = body(vec![call(resolved(qualified("lists", "map", 2), at(10, 22)), vars(1), at(10, 25))]);
    assert_eq!(
        check(&m),
        vec![error(
            "missing arguments",
            at(10, 25),
            "lists:map/2 requires 2 arguments, but only 1 were provided"
        )]
    );
}

#[test]
fn resolved_reference_called_with_too_many_arguments() {
    let m = body(vec![call(resolved(qualified("lists", "map", 2), at(10, 22)), vars(12), at(10, 25))]);
    assert_eq!(
        check(&m),
        vec![error(
            "too many arguments",
            at(10, 25),
            "lists:map/2 only takes 2 arguments, but 12 were provided"
        )]
    );
}

#[test]
fn resolved_reference_called_with_the_right_number_of_arguments() {
    let m = body(vec![call(resolved(qualified("lists", "map", 2), at(10, 22)), vars(2), at(10, 25))]);
    assert_eq!(check(&m), vec![]);
}

#[test]
fn resolved_reference_reports_the_target_before_the_arguments() {
    let m = body(vec![call(resolved(qualified("m", "g", 3), at(10, 15)), vars(1), at(10, 18))]);
    assert_eq!(
        check(&m),
        vec![
            error(
                "reference to undefined function",
                at(10, 15),
                "the function g/3 is not defined in this module"
            ),
            error(
                "missing arguments",
                at(10, 18),
                "m:g/3 requires 3 arguments, but only 1 were provided"
            ),
        ]
    );
}

#[test]
fn partially_resolved_reference_is_looked_up_with_the_number_of_arguments_given() {
    let m = importing(vec![
        call(partially("f", 1, at(10, 11)), vars(1), at(10, 14)),
        call(partially("map", 2, at(20, 23)), vars(2), at(20, 28)),
        call(partially("f", 1, at(30, 31)), vars(2), at(30, 36)),
    ]);
    assert_eq!(
        check(&m),
        vec![
            error(
                "reference to undefined function",
                at(30, 36),
                "the function f/2 is not defined or imported in this module"
            ),
            error(
                "too many arguments",
                at(30, 36),
                "f/1 only takes 1 arguments, but 2 were provided"
            ),
        ]
    );
}

#[test]
fn partially_resolved_reference_called_with_too_few_arguments() {
    let m = importing(vec![call(partially("zip", 2, at(10, 13)), vars(0), at(10, 15))]);
    assert_eq!(
        check(&m),
        vec![
            error(
                "reference to undefined function",
                at(10, 15),
                "the function zip/0 is not defined or imported in this module"
            ),
            error(
                "missing arguments",
                at(10, 15),
                "zip/2 requires 2 arguments, but only 0 were provided"
            ),
        ]
    );
}

#[test]
fn partially_resolved_reference_to_a_deprecated_import() {
    let m = importing(vec![
        call(partially("old", 1, at(10, 13)), vars(1), at(10, 16)),
        call(partially("gone", 0, at(20, 24)), vars(0), at(20, 26)),
    ]);
    assert_eq!(
        check(&m),
        vec![
            warning(
                "use of deprecated module",
                at(10, 13),
                "this module will be deprecated eventually",
                at(500, 510)
            ),
            warning(
                "use of deprecated function",
                at(20, 24),
                "this function will be deprecated in the next version",
                at(600, 610)
            ),
        ]
    );
}

#[test]
fn unresolved_reference_with_a_deprecated_module_atom() {
    let m = body(vec![call(
        unresolved(
            Some(Name::Atom(ident("legacy", at(10, 16)))),
            Name::Var(ident("F", at(17, 18))),
            Arity::Any,
            at(10, 18),
        ),
        vars(1),
        at(10, 21),
    )]);
    assert_eq!(
        check(&m),
        vec![warning(
            "use of deprecated module",
            at(10, 18),
            "this module will be deprecated eventually",
            at(500, 510)
        )]
    );
}

#[test]
fn unresolved_reference_asks_for_facts_on_the_whole_module_only() {
    let m = body(vec![call(
        unresolved(
            Some(Name::Atom(ident("lists", at(10, 15)))),
            Name::Atom(ident("gone", at(16, 20))),
            Arity::Int(0),
            at(10, 20),
        ),
        vars(0),
        at(10, 22),
    )]);
    assert_eq!(check(&m), vec![]);
}

#[test]
fn unresolved_reference_without_a_module_is_a_local_call() {
    let m = importing(vec![
        call(unresolved(None, Name::Atom(ident("f", at(10, 11))), Arity::Any, at(10, 11)), vars(1), at(10, 14)),
        call(unresolved(None, Name::Atom(ident("map", at(20, 23))), Arity::Any, at(20, 23)), vars(2), at(20, 28)),
        call(unresolved(None, Name::Atom(ident("old", at(30, 33))), Arity::Any, at(30, 33)), vars(1), at(30, 36)),
        call(unresolved(None, Name::Atom(ident("zip", at(40, 43))), Arity::Any, at(40, 43)), vars(2), at(40, 48)),
        call(unresolved(None, Name::Var(ident("F", at(50, 51))), Arity::Any, at(50, 51)), vars(2), at(50, 56)),
    ]);
    assert_eq!(
        check(&m),
        vec![
            warning(
                "use of deprecated module",
                at(30, 33),
                "this module will be deprecated eventually",
                at(500, 510)
            ),
            error(
                "reference to undefined function",
                at(40, 48),
                "the function zip/2 is not defined or imported in this module"
            ),
        ]
    );
}

#[test]
fn unresolved_local_reference_anchors_by_the_kind_of_fact() {
    let m = importing(vec![
        call(
            unresolved(None, Name::Atom(ident("old", at(14, 17))), Arity::Int(1), at(10, 19)),
            vars(1),
            at(10, 22),
        ),
        call(
            unresolved(None, Name::Atom(ident("gone", at(34, 38))), Arity::Int(0), at(30, 40)),
            vars(0),
            at(30, 42),
        ),
    ]);
    assert_eq!(
        check(&m),
        vec![
            warning(
                "use of deprecated module",
                at(10, 19),
                "this module will be deprecated eventually",
                at(500, 510)
            ),
            warning(
                "use of deprecated function",
                at(34, 38),
                "this function will be deprecated in the next version",
                at(600, 610)
            ),
        ]
    );
}

#[test]
fn unresolved_reference_with_a_known_number_of_arguments() {
    let f = || Name::Var(ident("F", at(10, 11)));
    let m = body(vec![
        call(unresolved(None, f(), Arity::Int(2), at(10, 11)), vars(1), at(10, 14)),
        call(unresolved(None, f(), Arity::Int(2), at(20, 21)), vars(2), at(20, 26)),
        call(unresolved(None, f(), Arity::Int(2), at(30, 31)), vars(3), at(30, 38)),
        call(unresolved(None, f(), Arity::Any, at(40, 41)), vars(3), at(40, 48)),
    ]);
    assert_eq!(
        check(&m),
        vec![
            error(
                "missing arguments",
                at(10, 14),
                "this call requires 2 arguments, but only 1 were provided"
            ),
            error(
                "too many arguments",
                at(30, 38),
                "this call should only have 2 arguments, but 3 were provided"
            ),
        ]
    );
}

#[test]
fn unresolved_reference_with_variables_on_both_sides_reports_nothing() {
    let m = body(vec![call(
        unresolved(
            Some(Name::Var(ident("M", at(10, 11)))),
            Name::Var(ident("F", at(12, 13))),
            Arity::Any,
            at(10, 13),
        ),
        vars(4),
        at(10, 20),
    )]);
    assert_eq!(check(&m), vec![]);
}

#[test]
fn bare_atom_is_a_local_call() {
    let m = importing(vec![
        call(atom("f", at(10, 11)), vars(1), at(10, 14)),
        call(atom("map", at(20, 23)), vars(2), at(20, 28)),
        call(atom("f", at(30, 31)), vars(0), at(30, 33)),
        call(atom("gone", at(40, 44)), vars(0), at(40, 46)),
        call(atom("old", at(50, 53)), vars(1), at(50, 56)),
    ]);
    assert_eq!(
        check(&m),
        vec![
            error(
                "reference to undefined function",
                at(30, 33),
                "the function f/0 is not defined or imported in this module"
            ),
            warning(
                "use of deprecated function",
                at(40, 44),
                "this function will be deprecated in the next version",
                at(600, 610)
            ),
            warning(
                "use of deprecated module",
                at(50, 53),
                "this module will be deprecated eventually",
                at(500, 510)
            ),
        ]
    );
}

#[test]
fn definition_shadows_import() {
    let m = module(
        vec![define("main", 0, vec![
            call(atom("old", at(10, 13)), vars(1), at(10, 16)),
            call(partially("old", 1, at(20, 23)), vars(1), at(20, 26)),
            call(unresolved(None, Name::Atom(ident("old", at(30, 33))), Arity::Any, at(30, 33)), vars(1), at(30, 36)),
        ]), define("old", 1, vec![])],
        vec![Import { name: local("old", 1), origin: qualified("legacy", "old", 1) }],
    );
    assert_eq!(check(&m), vec![]);
}

#[test]
fn arguments_are_checked_before_the_call_itself() {
    let m = body(vec![call(
        atom("outer", at(10, 15)),
        vec![
            call(atom("first", at(16, 21)), vars(0), at(16, 23)),
            call(atom("f", at(24, 25)), vec![call(atom("inner", at(26, 31)), vars(3), at(26, 36))], at(24, 37)),
        ],
        at(10, 38),
    )]);
    let reported = check(&m);
    let notes: Vec<&str> = reported.iter().map(|d| d.labels[0].message.as_str()).collect();
    assert_eq!(
        notes,
        vec![
            "the function first/0 is not defined or imported in this module",
            "the function inner/3 is not defined or imported in this module",
            "the function outer/2 is not defined or imported in this module",
        ]
    );
}

#[test]
fn callee_is_judged_but_not_walked() {
    let m = body(vec![call(
        call(atom("make", at(10, 14)), vars(0), at(10, 16)),
        vars(1),
        at(10, 20),
    )]);
    assert_eq!(check(&m), vec![]);
}

#[test]
fn calls_inside_other_expressions_are_found() {
    let m = body(vec![
        Expr::Other(vec![
            var("X", at(1, 2)),
            call(atom("a", at(10, 11)), vars(0), at(10, 13)),
            Expr::Other(vec![call(atom("b", at(20, 21)), vars(0), at(20, 23))]),
        ]),
        remote(
            call(atom("c", at(30, 31)), vars(0), at(30, 33)),
            call(atom("d", at(40, 41)), vars(0), at(40, 43)),
            at(30, 43),
        ),
        atom("e", at(50, 51)),
        resolved(qualified("legacy", "run", 0), at(60, 70)),
    ]);
    let reported = check(&m);
    let spans: Vec<SourceSpan> = reported.iter().map(|d| d.labels[0].span).collect();
    assert_eq!(spans, vec![at(10, 13), at(20, 23), at(30, 33), at(40, 43)]);
}

#[test]
fn functions_are_walked_in_the_order_of_the_table() {
    let m = module(
        vec![
            define("a", 0, vec![call(atom("x", at(10, 11)), vars(0), at(10, 13))]),
            define("b", 0, vec![]),
            define("c", 0, vec![call(atom("y", at(20, 21)), vars(0), at(20, 23)), call(atom("a", at(30, 31)), vars(0), at(30, 33))]),
        ],
        vec![],
    );
    let reported = check(&m);
    let spans: Vec<SourceSpan> = reported.iter().map(|d| d.labels[0].span).collect();
    assert_eq!(spans, vec![at(10, 13), at(20, 23)]);
}

#[test]
fn call_with_many_arguments_is_counted_in_full() {
    let m = module(vec![define("main", 0, vec![call(atom("wide", at(10, 14)), vars(256), at(10, 20))]), define("wide", 0, vec![])], vec![]);
    assert_eq!(
        check(&m),
        vec![error(
            "reference to undefined function",
            at(10, 20),
            "the function wide/256 is not defined or imported in this module"
        )]
    );
}

#[test]
fn visitor_judges_a_single_callee() {
    let m = importing(vec![]);
    let app = metadata();
    let visitor = VerifyCallsVisitor { app: &app, module: &m };
    let mut reporter = Reporter::new();
    visitor.check_callee(&atom("f", at(1, 2)), 1, at(1, 5), &mut reporter);
    assert_eq!(reporter.len(), 0);
    visitor.check_callee(&atom("f", at(1, 2)), 2, at(1, 5), &mut reporter);
    assert_eq!(reporter.len(), 1);
    visitor.visit_expr(&call(atom("g", at(1, 2)), vars(0), at(1, 4)), &mut reporter);
    assert_eq!(reporter.len(), 2);
    assert_eq!(reporter.diagnostics()[1].labels[0].message, "the function g/0 is not defined or imported in this module");
}

#[test]
fn second_run_reports_the_same_again() {
    let m = importing(vec![
        call(atom("zip", at(10, 13)), vars(2), at(10, 18)),
        call(atom("old", at(20, 23)), vars(1), at(20, 26)),
    ]);
    let app = metadata();
    let once = check_with(&m, &app);
    let mut pass = VerifyCalls::new(Reporter::new(), &app);
    pass.run(&m);
    pass.run(&m);
    let twice = pass.into_reporter().into_diagnostics();
    assert_eq!(once.len(), 2);
    assert_eq!(twice.len(), 4);
    assert_eq!(&twice[..2], &once[..]);
    assert_eq!(&twice[2..], &once[..]);
}
