//! The call check: every call in every function body must reach a callable
//! target, with the right number of arguments, that is not deprecated.

use vstd::prelude::*;
use vstd::string::*;
use crate::ast::{
    defined_names, imported_names, position, Apply, Expr, FunctionDefinition, FunctionVar, Module,
    PartiallyResolvedFunctionName, Remote, SpannedName, UnresolvedFunctionName,
};
use crate::diagnostics::{
    diagnostic2, error1, DiagnosticView, Label, LabelView, Reporter, Severity, SourceSpan,
};
use crate::metadata::{ApplicationMetadata, Deprecation};
use crate::names::{local_string, local_text, Arity, FunctionNameView, Ident, Name};
use crate::text::{decimal, decimal_string, join3};

verus! {

/// The error for a call of `name`, owned by this module, that the module
/// does not define.
pub open spec fn undefined_in_module(name: FunctionNameView, at: SourceSpan) -> DiagnosticView {
    error1(
        "reference to undefined function"@,
        at,
        "the function "@ + name.text() + " is not defined in this module"@,
    )
}

/// The error for a call of the local name `name` that the module neither
/// defines nor imports.
pub open spec fn undefined_or_unimported(name: FunctionNameView, at: SourceSpan) -> DiagnosticView {
    error1(
        "reference to undefined function"@,
        at,
        "the function "@ + name.text() + " is not defined or imported in this module"@,
    )
}

/// The note on the use of something deprecated.
pub open spec fn deprecation_note(subject: Seq<char>, flag: Seq<char>) -> Seq<char> {
    subject + " will be deprecated "@ + flag
}

/// What a deprecation fact reports. A fact on a whole module is anchored at
/// `module_at`, where `subject` names what stands there; a fact on one
/// function is anchored at `function_at`. The second label of either points
/// at the declaration of the deprecation. No fact reports nothing, and a
/// fact in the form that normalization removes has no report: the check
/// runs on normalized metadata only and never meets one.
pub open spec fn deprecation_diagnostics(
    fact: Option<Deprecation>,
    module_at: SourceSpan,
    subject: Seq<char>,
    function_at: SourceSpan,
) -> Seq<DiagnosticView> {
    match fact {
        Some(Deprecation::Module { span, flag }) => seq![
            diagnostic2(
                Severity::Warning,
                "use of deprecated module"@,
                LabelView { span: module_at, message: deprecation_note(subject, flag@) },
                LabelView { span, message: "deprecation declared here"@ },
            ),
        ],
        Some(Deprecation::Function { span, flag, .. }) => seq![
            diagnostic2(
                Severity::Warning,
                "use of deprecated function"@,
                LabelView { span: function_at, message: deprecation_note("this function"@, flag@) },
                LabelView { span, message: "deprecation declared here"@ },
            ),
        ],
        _ => Seq::empty(),
    }
}

/// What a call with `actual` arguments reports of a target, shown as
/// `subject`, that is declared with `declared` arguments.
pub open spec fn arity_diagnostics(
    subject: Seq<char>,
    declared: nat,
    actual: nat,
    at: SourceSpan,
) -> Seq<DiagnosticView> {
    if declared > actual {
        seq![
            error1(
                "missing arguments"@,
                at,
                subject + " requires "@ + decimal(declared) + " arguments, but only "@ + decimal(
                    actual,
                ) + " were provided"@,
            ),
        ]
    } else if declared < actual {
        seq![
            error1(
                "too many arguments"@,
                at,
                subject + " only takes "@ + decimal(declared) + " arguments, but "@ + decimal(
                    actual,
                ) + " were provided"@,
            ),
        ]
    } else {
        Seq::empty()
    }
}

/// What a call with `actual` arguments reports where the reference that is
/// called says how many it expects but not what it calls.
pub open spec fn call_arity_diagnostics(expected: Arity, actual: nat, at: SourceSpan) -> Seq<DiagnosticView> {
    match expected {
        Arity::Int(declared) => if declared > actual {
            seq![
                error1(
                    "missing arguments"@,
                    at,
                    "this call requires "@ + decimal(declared as nat) + " arguments, but only "@
                        + decimal(actual) + " were provided"@,
                ),
            ]
        } else if declared < actual {
            seq![
                error1(
                    "too many arguments"@,
                    at,
                    "this call should only have "@ + decimal(declared as nat) + " arguments, but "@
                        + decimal(actual) + " were provided"@,
                ),
            ]
        } else {
            Seq::empty()
        },
        Arity::Any => Seq::empty(),
    }
}

/// What a call of `function/arity`, written without a module, reports.
/// A definition in the module settles it without a word; else an import
/// does, and the function it stands for is looked up in the metadata; a
/// name that is neither defined nor imported is an error at the call, `at`.
///
/// A reference written without a module has no token for the module of an
/// import, so a fact on that whole module is anchored at the whole
/// reference, `reference_at`; a fact on the function is anchored where the
/// function is named, `function_at`.
pub open spec fn local_call_diagnostics(
    module: Module,
    app: ApplicationMetadata,
    function: Seq<char>,
    arity: nat,
    at: SourceSpan,
    reference_at: SourceSpan,
    function_at: SourceSpan,
) -> Seq<DiagnosticView> {
    let name = FunctionNameView::local(function, arity);
    if position(defined_names(module.functions@), name) is Some {
        Seq::empty()
    } else {
        match position(imported_names(module.imports@), name) {
            None => seq![undefined_or_unimported(name, at)],
            Some(i) => deprecation_diagnostics(
                app.function_deprecation(module.imports@[i].origin@),
                reference_at,
                "this module"@,
                function_at,
            ),
        }
    }
}

/// What a reference to a function of this very module reports.
pub open spec fn own_call_diagnostics(module: Module, name: FunctionNameView, at: SourceSpan) -> Seq<DiagnosticView> {
    if position(defined_names(module.functions@), name) is Some {
        Seq::empty()
    } else {
        seq![undefined_in_module(name, at)]
    }
}

/// The atom that an expression is, if it is one.
pub open spec fn atom_of(e: Expr) -> Option<Ident> {
    match e {
        Expr::Atom(id) => Some(id),
        _ => None,
    }
}

/// What a call of `module:function` reports. Where either side is not an
/// atom the call is dynamic and nothing is reported.
pub open spec fn remote_call_diagnostics(
    module: Module,
    app: ApplicationMetadata,
    remote: Remote,
    arity: nat,
) -> Seq<DiagnosticView> {
    match (atom_of(*remote.module), atom_of(*remote.function)) {
        (Some(m), Some(f)) => if m.name@ == module.name.name@ {
            own_call_diagnostics(module, FunctionNameView::local(f.name@, arity), remote.span)
        } else {
            deprecation_diagnostics(
                app.function_deprecation(FunctionNameView::qualified(m.name@, f.name@, arity)),
                m.span,
                "this module"@,
                f.span,
            )
        },
        _ => Seq::empty(),
    }
}

/// What the target of a resolved reference reports: as a function of this
/// module it must be defined; as one of another module it is looked up in
/// the metadata. Either way the whole reference is the anchor.
pub open spec fn resolved_target_diagnostics(
    module: Module,
    app: ApplicationMetadata,
    target: SpannedName,
) -> Seq<DiagnosticView> {
    if target.name@.module == Some(module.name.name@) {
        own_call_diagnostics(module, target.name@.to_local(), target.span)
    } else {
        deprecation_diagnostics(
            app.function_deprecation(target.name@),
            target.span,
            "this function"@,
            target.span,
        )
    }
}

/// What a call of a resolved reference reports: first of the target, then
/// of the number of arguments.
pub open spec fn resolved_call_diagnostics(
    module: Module,
    app: ApplicationMetadata,
    target: SpannedName,
    arity: nat,
    at: SourceSpan,
) -> Seq<DiagnosticView> {
    resolved_target_diagnostics(module, app, target) + arity_diagnostics(
        target.name@.text(),
        target.name@.arity,
        arity,
        at,
    )
}

/// What a call of a partially resolved reference reports. The reference
/// as a whole is where its function is named.
pub open spec fn partially_resolved_call_diagnostics(
    module: Module,
    app: ApplicationMetadata,
    target: PartiallyResolvedFunctionName,
    arity: nat,
    at: SourceSpan,
) -> Seq<DiagnosticView> {
    local_call_diagnostics(
        module,
        app,
        target.function@,
        arity,
        at,
        target.span,
        target.span,
    ) + arity_diagnostics(
        local_text(target.function@, target.arity as nat),
        target.arity as nat,
        arity,
        at,
    )
}

/// What the module position of an unresolved reference reports. Only a
/// fact on the whole module can answer, and it is anchored at the whole
/// reference.
pub open spec fn unresolved_module_diagnostics(
    app: ApplicationMetadata,
    target: UnresolvedFunctionName,
) -> Seq<DiagnosticView> {
    match target.module {
        Some(Name::Atom(m)) => deprecation_diagnostics(
            app.module_deprecation(m.name@),
            target.span,
            "this module"@,
            target.span,
        ),
        _ => Seq::empty(),
    }
}

/// What the function position of an unresolved reference reports.
pub open spec fn unresolved_function_diagnostics(
    module: Module,
    app: ApplicationMetadata,
    target: UnresolvedFunctionName,
    arity: nat,
    at: SourceSpan,
) -> Seq<DiagnosticView> {
    match (target.module, target.function) {
        (None, Name::Atom(a)) => local_call_diagnostics(
            module,
            app,
            a.name@,
            arity,
            at,
            target.span,
            a.span,
        ),
        _ => Seq::empty(),
    }
}

/// What a call of an unresolved reference reports.
pub open spec fn unresolved_call_diagnostics(
    module: Module,
    app: ApplicationMetadata,
    target: UnresolvedFunctionName,
    arity: nat,
    at: SourceSpan,
) -> Seq<DiagnosticView> {
    unresolved_module_diagnostics(app, target) + unresolved_function_diagnostics(
        module,
        app,
        target,
        arity,
        at,
    ) + call_arity_diagnostics(target.arity, arity, at)
}

/// What the callee of a call with `arity` arguments, standing at `at`,
/// reports.
pub open spec fn callee_diagnostics(
    module: Module,
    app: ApplicationMetadata,
    callee: Expr,
    arity: nat,
    at: SourceSpan,
) -> Seq<DiagnosticView> {
    match callee {
        Expr::Remote(remote) => remote_call_diagnostics(module, app, remote, arity),
        Expr::FunctionVar(FunctionVar::Resolved(target)) => resolved_call_diagnostics(
            module,
            app,
            target,
            arity,
            at,
        ),
        Expr::FunctionVar(FunctionVar::PartiallyResolved(target)) => partially_resolved_call_diagnostics(
            module,
            app,
            target,
            arity,
            at,
        ),
        Expr::FunctionVar(FunctionVar::Unresolved(target)) => unresolved_call_diagnostics(
            module,
            app,
            target,
            arity,
            at,
        ),
        Expr::Atom(id) => local_call_diagnostics(module, app, id.name@, arity, at, id.span, id.span),
        _ => Seq::empty(),
    }
}

/// What an expression reports: every call in it, the calls among a call's
/// arguments before the call itself. The callee of a call is judged, not
/// walked.
pub open spec fn expr_diagnostics(module: Module, app: ApplicationMetadata, e: Expr) -> Seq<DiagnosticView>
    decreases e, 0nat,
{
    match e {
        Expr::Apply(apply) => apply_diagnostics(module, app, apply),
        Expr::Remote(remote) => expr_diagnostics(module, app, *remote.module) + expr_diagnostics(
            module,
            app,
            *remote.function,
        ),
        Expr::Other(children) => exprs_diagnostics(module, app, children@, children@.len()),
        _ => Seq::empty(),
    }
}

/// What a call reports: its arguments first, then its callee.
pub open spec fn apply_diagnostics(module: Module, app: ApplicationMetadata, apply: Apply) -> Seq<DiagnosticView>
    decreases apply, 0nat,
{
    exprs_diagnostics(module, app, apply.args@, apply.args@.len()) + callee_diagnostics(
        module,
        app,
        *apply.callee,
        apply.args@.len(),
        apply.span,
    )
}

/// What the first `n` of `es` report, in order.
pub open spec fn exprs_diagnostics(
    module: Module,
    app: ApplicationMetadata,
    es: Seq<Expr>,
    n: nat,
) -> Seq<DiagnosticView>
    decreases es, n,
{
    if n == 0 || n > es.len() {
        Seq::empty()
    } else {
        exprs_diagnostics(module, app, es, (n - 1) as nat) + expr_diagnostics(module, app, es[n - 1])
    }
}

/// What the bodies of the first `n` functions of the module report.
pub open spec fn functions_diagnostics(module: Module, app: ApplicationMetadata, n: nat) -> Seq<DiagnosticView>
    decreases n,
{
    if n == 0 || n > module.functions@.len() {
        Seq::empty()
    } else {
        let body = module.functions@[n - 1].body@;
        functions_diagnostics(module, app, (n - 1) as nat) + exprs_diagnostics(
            module,
            app,
            body,
            body.len(),
        )
    }
}

/// Everything the call check reports of a module.
pub open spec fn calls_diagnostics(module: Module, app: ApplicationMetadata) -> Seq<DiagnosticView> {
    functions_diagnostics(module, app, module.functions@.len())
}

/// Whether nothing about a callee is known before the program runs: a
/// remote call with a side that is no atom, an unresolved reference of
/// which neither the module nor the function is an atom, or an expression
/// of any other form that is evaluated to find the function.
pub open spec fn is_dynamic_callee(callee: Expr) -> bool {
    match callee {
        Expr::Remote(remote) => atom_of(*remote.module) is None || atom_of(*remote.function)
            is None,
        Expr::FunctionVar(FunctionVar::Unresolved(target)) => !(target.module matches Some(
            Name::Atom(_),
        )) && !(target.function is Atom),
        Expr::Var(_) => true,
        Expr::Apply(_) => true,
        Expr::Other(_) => true,
        _ => false,
    }
}

/// A call with a dynamic callee reports nothing, whatever the module
/// defines or imports and whatever is deprecated. The one thing an
/// unresolved reference can still be held to is the number of arguments it
/// states, so that must be open or agree with the call.
pub proof fn lemma_dynamic_callee_is_silent(
    module: Module,
    app: ApplicationMetadata,
    callee: Expr,
    arity: nat,
    at: SourceSpan,
)
    requires
        is_dynamic_callee(callee),
        callee matches Expr::FunctionVar(FunctionVar::Unresolved(target)) ==> (target.arity
            matches Arity::Int(expected) ==> expected == arity),
    ensures
        callee_diagnostics(module, app, callee, arity, at) == Seq::<DiagnosticView>::empty(),
{
    assert(callee_diagnostics(module, app, callee, arity, at) =~= Seq::<DiagnosticView>::empty());
}

/// A call of a resolved reference declared with `n` arguments reports,
/// after what it reports of the target: with fewer than `n` arguments, that
/// arguments are missing; with more, that there are too many, either time
/// naming both numbers; with exactly `n`, nothing. What is reported of the
/// target never speaks of arguments.
pub proof fn lemma_arity_symmetry(
    module: Module,
    app: ApplicationMetadata,
    target: SpannedName,
    arity: nat,
    at: SourceSpan,
)
    ensures
        ({
            let n = target.name@.arity;
            let of_target = resolved_target_diagnostics(module, app, target);
            let all = resolved_call_diagnostics(module, app, target, arity, at);
            &&& arity < n ==> all == of_target.push(
                error1(
                    "missing arguments"@,
                    at,
                    target.name@.text() + " requires "@ + decimal(n) + " arguments, but only "@
                        + decimal(arity) + " were provided"@,
                ),
            )
            &&& arity > n ==> all == of_target.push(
                error1(
                    "too many arguments"@,
                    at,
                    target.name@.text() + " only takes "@ + decimal(n) + " arguments, but "@
                        + decimal(arity) + " were provided"@,
                ),
            )
            &&& arity == n ==> all == of_target
            &&& forall|i: int|
                0 <= i < of_target.len() ==> (#[trigger] of_target[i]).message
                    != "missing arguments"@ && of_target[i].message != "too many arguments"@
        }),
{
    let n = target.name@.arity;
    let of_target = resolved_target_diagnostics(module, app, target);
    let all = resolved_call_diagnostics(module, app, target, arity, at);
    if arity < n {
        assert(all =~= of_target.push(arity_diagnostics(target.name@.text(), n, arity, at)[0]));
    } else if arity > n {
        assert(all =~= of_target.push(arity_diagnostics(target.name@.text(), n, arity, at)[0]));
    } else {
        assert(all =~= of_target);
    }
    reveal_strlit("missing arguments");
    reveal_strlit("too many arguments");
    reveal_strlit("reference to undefined function");
    reveal_strlit("use of deprecated module");
    reveal_strlit("use of deprecated function");
    assert("missing arguments"@.len() == 17);
    assert("too many arguments"@.len() == 18);
    assert("reference to undefined function"@.len() == 31);
    assert("use of deprecated module"@.len() == 24);
    assert("use of deprecated function"@.len() == 26);
}

/// A name that the module defines is called without a word, whether or not
/// the module imports it too: the definition shadows the import, and what
/// the metadata says of the import's origin plays no part.
pub proof fn lemma_definition_shadows_import(
    module: Module,
    app: ApplicationMetadata,
    function: Seq<char>,
    arity: nat,
    at: SourceSpan,
    reference_at: SourceSpan,
    function_at: SourceSpan,
)
    requires
        position(defined_names(module.functions@), FunctionNameView::local(function, arity))
            is Some,
    ensures
        local_call_diagnostics(module, app, function, arity, at, reference_at, function_at)
            == Seq::<DiagnosticView>::empty(),
{
}

/// A deprecation fact is reported as one warning with two labels. The first
/// stands at the module's anchor for a fact on a whole module and at the
/// function's anchor for a fact on one function; the second stands where
/// the deprecation was declared.
pub proof fn lemma_deprecation_anchoring(
    fact: Deprecation,
    module_at: SourceSpan,
    subject: Seq<char>,
    function_at: SourceSpan,
)
    requires
        !(fact is FunctionAnyArity),
    ensures
        ({
            let reported = deprecation_diagnostics(Some(fact), module_at, subject, function_at);
            &&& reported.len() == 1
            &&& reported[0].severity == Severity::Warning
            &&& reported[0].labels.len() == 2
            &&& reported[0].labels[0].span == (if fact is Module {
                module_at
            } else {
                function_at
            })
            &&& reported[0].labels[1].span == fact.declared_at()
        }),
{
}

/// In a call `m:f(..)` into another module, a fact on the whole module is
/// anchored at the atom `m` and a fact on the function at the atom `f`.
pub proof fn lemma_remote_call_anchoring(
    module: Module,
    app: ApplicationMetadata,
    remote: Remote,
    arity: nat,
    m: Ident,
    f: Ident,
    fact: Deprecation,
)
    requires
        atom_of(*remote.module) == Some(m),
        atom_of(*remote.function) == Some(f),
        m.name@ != module.name.name@,
        app.function_deprecation(FunctionNameView::qualified(m.name@, f.name@, arity)) == Some(
            fact,
        ),
        !(fact is FunctionAnyArity),
    ensures
        ({
            let reported = remote_call_diagnostics(module, app, remote, arity);
            &&& reported.len() == 1
            &&& reported[0].labels.len() == 2
            &&& reported[0].labels[0].span == (if fact is Module {
                m.span
            } else {
                f.span
            })
            &&& reported[0].labels[1].span == fact.declared_at()
        }),
{
}

/// In a call of an unresolved reference whose module is an atom, a fact on
/// that module is anchored at the whole reference, since the reference has
/// no token of its own for the module.
pub proof fn lemma_unresolved_call_anchoring(
    app: ApplicationMetadata,
    target: UnresolvedFunctionName,
    m: Ident,
    fact: Deprecation,
)
    requires
        target.module == Some(Name::Atom(m)),
        app.module_deprecation(m.name@) == Some(fact),
    ensures
        ({
            let reported = unresolved_module_diagnostics(app, target);
            &&& reported.len() == 1
            &&& reported[0].labels.len() == 2
            &&& reported[0].labels[0].span == target.span
            &&& reported[0].labels[1].span == fact.declared_at()
        }),
{
    app.lemma_module_answers(m.name@);
}

/// In a call of a name that the module imports and does not define, a fact
/// on the whole module of the import's origin is anchored at the whole
/// reference and a fact on the function where the function is named.
pub proof fn lemma_local_call_anchoring(
    module: Module,
    app: ApplicationMetadata,
    function: Seq<char>,
    arity: nat,
    at: SourceSpan,
    reference_at: SourceSpan,
    function_at: SourceSpan,
    import: int,
    fact: Deprecation,
)
    requires
        position(defined_names(module.functions@), FunctionNameView::local(function, arity))
            is None,
        position(imported_names(module.imports@), FunctionNameView::local(function, arity))
            == Some(import),
        app.function_deprecation(module.imports@[import].origin@) == Some(fact),
        !(fact is FunctionAnyArity),
    ensures
        ({
            let reported = local_call_diagnostics(
                module,
                app,
                function,
                arity,
                at,
                reference_at,
                function_at,
            );
            &&& reported.len() == 1
            &&& reported[0].labels.len() == 2
            &&& reported[0].labels[0].span == (if fact is Module {
                reference_at
            } else {
                function_at
            })
            &&& reported[0].labels[1].span == fact.declared_at()
        }),
{
}

/// A deprecation fact as a value, where a query handed out a reference.
pub open spec fn fact_view(fact: Option<&Deprecation>) -> Option<Deprecation> {
    match fact {
        Some(d) => Some(*d),
        None => None,
    }
}

fn report_deprecation(
    reporter: &mut Reporter,
    fact: Option<&Deprecation>,
    module_at: SourceSpan,
    subject: &str,
    function_at: SourceSpan,
)
    requires
        !(fact matches Some(d) && d is FunctionAnyArity),
    ensures
        final(reporter)@ == old(reporter)@ + deprecation_diagnostics(
            fact_view(fact),
            module_at,
            subject@,
            function_at,
        ),
{
    match fact {
        Some(Deprecation::Module { span, flag }) => {
            let note = join3(subject, " will be deprecated ", flag.as_str());
            reporter.show2(
                Severity::Warning,
                "use of deprecated module",
                Label::new(module_at, note),
                Label::new(*span, String::from_str("deprecation declared here")),
            );
        },
        Some(Deprecation::Function { span, flag, .. }) => {
            let note = join3("this function", " will be deprecated ", flag.as_str());
            reporter.show2(
                Severity::Warning,
                "use of deprecated function",
                Label::new(function_at, note),
                Label::new(*span, String::from_str("deprecation declared here")),
            );
        },
        Some(Deprecation::FunctionAnyArity { .. }) => unreached(),
        None => {},
    }
    assert(reporter@ =~= old(reporter)@ + deprecation_diagnostics(
        fact_view(fact),
        module_at,
        subject@,
        function_at,
    ));
}

fn report_arity(reporter: &mut Reporter, subject: &str, declared: usize, actual: usize, at: SourceSpan)
    ensures
        final(reporter)@ == old(reporter)@ + arity_diagnostics(
            subject@,
            declared as nat,
            actual as nat,
            at,
        ),
{
    if declared > actual {
        let mut note = String::from_str(subject);
        note.append(" requires ");
        note.append(decimal_string(declared).as_str());
        note.append(" arguments, but only ");
        note.append(decimal_string(actual).as_str());
        note.append(" were provided");
        reporter.show_error1("missing arguments", at, note);
    } else if declared < actual {
        let mut note = String::from_str(subject);
        note.append(" only takes ");
        note.append(decimal_string(declared).as_str());
        note.append(" arguments, but ");
        note.append(decimal_string(actual).as_str());
        note.append(" were provided");
        reporter.show_error1("too many arguments", at, note);
    }
    assert(reporter@ =~= old(reporter)@ + arity_diagnostics(
        subject@,
        declared as nat,
        actual as nat,
        at,
    ));
}

fn report_call_arity(reporter: &mut Reporter, expected: Arity, actual: usize, at: SourceSpan)
    ensures
        final(reporter)@ == old(reporter)@ + call_arity_diagnostics(expected, actual as nat, at),
{
    if let Arity::Int(declared) = expected {
        if declared > actual {
            let mut note = String::from_str("this call requires ");
            note.append(decimal_string(declared).as_str());
            note.append(" arguments, but only ");
            note.append(decimal_string(actual).as_str());
            note.append(" were provided");
            reporter.show_error1("missing arguments", at, note);
        } else if declared < actual {
            let mut note = String::from_str("this call should only have ");
            note.append(decimal_string(declared).as_str());
            note.append(" arguments, but ");
            note.append(decimal_string(actual).as_str());
            note.append(" were provided");
            reporter.show_error1("too many arguments", at, note);
        }
    }
    assert(reporter@ =~= old(reporter)@ + call_arity_diagnostics(expected, actual as nat, at));
}

/// Checks that every call in a module reaches a callable target with the
/// right number of arguments, and warns where the target is deprecated.
pub struct VerifyCalls<'app> {
    reporter: Reporter,
    app: &'app ApplicationMetadata,
}

impl<'app> VerifyCalls<'app> {
    /// What the reporter of this pass holds.
    pub closed spec fn reported(&self) -> Seq<DiagnosticView> {
        self.reporter@
    }

    /// The metadata that this pass asks.
    pub closed spec fn metadata(&self) -> ApplicationMetadata {
        *self.app
    }

    pub fn new(reporter: Reporter, app: &'app ApplicationMetadata) -> (pass: Self)
        ensures
            pass.reported() == reporter@,
            pass.metadata() == *app,
    {
        VerifyCalls { reporter, app }
    }

    /// Reports, after what the reporter already holds, what the calls in
    /// the bodies of the module's functions give rise to, function by
    /// function in the order of the module's table.
    pub fn run(&mut self, module: &Module)
        requires
            old(self).metadata().is_normalized(),
        ensures
            final(self).metadata() == old(self).metadata(),
            final(self).reported() == old(self).reported() + calls_diagnostics(
                *module,
                old(self).metadata(),
            ),
    {
        let visitor = VerifyCallsVisitor { app: self.app, module };
        let mut i: usize = 0;
        assert(self.reporter@ =~= old(self).reporter@ + functions_diagnostics(*module, *self.app, 0));
        while i < module.functions.len()
            invariant
                i <= module.functions.len(),
                self.app == old(self).app,
                visitor.app == self.app,
                visitor.module == module,
                self.app.is_normalized(),
                self.reporter@ == old(self).reporter@ + functions_diagnostics(
                    *module,
                    *self.app,
                    i as nat,
                ),
            decreases module.functions.len() - i,
        {
            visitor.visit_function(&module.functions[i], &mut self.reporter);
            i += 1;
            assert(self.reporter@ =~= old(self).reporter@ + functions_diagnostics(
                *module,
                *self.app,
                i as nat,
            ));
        }
    }

    /// The reporter, with all that the pass reported.
    pub fn into_reporter(self) -> (reporter: Reporter)
        ensures
            reporter@ == self.reported(),
    {
        self.reporter
    }
}

/// Walks one function body on behalf of `VerifyCalls`.
pub struct VerifyCallsVisitor<'a> {
    pub app: &'a ApplicationMetadata,
    pub module: &'a Module,
}

impl<'a> VerifyCallsVisitor<'a> {
    /// Reports what the body of `function` gives rise to.
    pub fn visit_function(&self, function: &FunctionDefinition, reporter: &mut Reporter)
        requires
            self.app.is_normalized(),
        ensures
            final(reporter)@ == old(reporter)@ + exprs_diagnostics(
                *self.module,
                *self.app,
                function.body@,
                function.body@.len(),
            ),
    {
        self.visit_exprs(&function.body, reporter);
    }

    fn visit_exprs(&self, es: &Vec<Expr>, reporter: &mut Reporter)
        requires
            self.app.is_normalized(),
        ensures
            final(reporter)@ == old(reporter)@ + exprs_diagnostics(
                *self.module,
                *self.app,
                es@,
                es@.len(),
            ),
        decreases es,
    {
        let mut i: usize = 0;
        assert(reporter@ =~= old(reporter)@ + exprs_diagnostics(*self.module, *self.app, es@, 0));
        while i < es.len()
            invariant
                i <= es.len(),
                self.app.is_normalized(),
                reporter@ == old(reporter)@ + exprs_diagnostics(
                    *self.module,
                    *self.app,
                    es@,
                    i as nat,
                ),
            decreases es.len() - i,
        {
            self.visit_expr(&es[i], reporter);
            i += 1;
            assert(reporter@ =~= old(reporter)@ + exprs_diagnostics(
                *self.module,
                *self.app,
                es@,
                i as nat,
            ));
        }
    }

    /// Reports what the calls in `e` give rise to.
    pub fn visit_expr(&self, e: &Expr, reporter: &mut Reporter)
        requires
            self.app.is_normalized(),
        ensures
            final(reporter)@ == old(reporter)@ + expr_diagnostics(*self.module, *self.app, *e),
        decreases e,
    {
        match e {
            Expr::Apply(apply) => {
                self.visit_apply(apply, reporter);
            },
            Expr::Remote(remote) => {
                self.visit_expr(&*remote.module, reporter);
                self.visit_expr(&*remote.function, reporter);
            },
            Expr::Other(children) => {
                self.visit_exprs(children, reporter);
            },
            _ => {},
        }
        assert(reporter@ =~= old(reporter)@ + expr_diagnostics(*self.module, *self.app, *e));
    }

    /// Reports what a call gives rise to: first what its arguments do, then
    /// what its callee does.
    pub fn visit_apply(&self, apply: &Apply, reporter: &mut Reporter)
        requires
            self.app.is_normalized(),
        ensures
            final(reporter)@ == old(reporter)@ + apply_diagnostics(*self.module, *self.app, *apply),
        decreases apply,
    {
        self.visit_exprs(&apply.args, reporter);
        self.check_callee(&*apply.callee, apply.args.len(), apply.span, reporter);
        assert(reporter@ =~= old(reporter)@ + apply_diagnostics(*self.module, *self.app, *apply));
    }

    /// Judges the callee of a call with `arity` arguments that stands at `at`.
    pub fn check_callee(&self, callee: &Expr, arity: usize, at: SourceSpan, reporter: &mut Reporter)
        requires
            self.app.is_normalized(),
        ensures
            final(reporter)@ == old(reporter)@ + callee_diagnostics(
                *self.module,
                *self.app,
                *callee,
                arity as nat,
                at,
            ),
    {
        match callee {
            Expr::Remote(remote) => {
                match (&*remote.module, &*remote.function) {
                    (Expr::Atom(m), Expr::Atom(f)) => {
                        if m.name == self.module.name.name {
                            self.check_own(&f.name, arity, remote.span, reporter);
                        } else {
                            let fact = self.app.function_deprecation_of(&m.name, &f.name, arity);
                            proof {
                                self.app.lemma_normalized_answers(
                                    FunctionNameView::qualified(m.name@, f.name@, arity as nat),
                                );
                            }
                            report_deprecation(reporter, fact, m.span, "this module", f.span);
                        }
                    },
                    _ => {},
                }
            },
            Expr::FunctionVar(FunctionVar::Resolved(target)) => {
                if target.name.in_module(&self.module.name.name) {
                    self.check_own(&target.name.function, target.name.arity, target.span, reporter);
                } else {
                    let fact = self.app.get_function_deprecation(&target.name);
                    proof {
                        self.app.lemma_normalized_answers(target.name@);
                    }
                    report_deprecation(reporter, fact, target.span, "this function", target.span);
                }
                let subject = target.name.to_string();
                report_arity(reporter, subject.as_str(), target.name.arity, arity, at);
            },
            Expr::FunctionVar(FunctionVar::PartiallyResolved(target)) => {
                self.check_local(&target.function, arity, at, target.span, target.span, reporter);
                let subject = local_string(&target.function, target.arity);
                report_arity(reporter, subject.as_str(), target.arity, arity, at);
            },
            Expr::FunctionVar(FunctionVar::Unresolved(target)) => {
                if let Some(Name::Atom(m)) = &target.module {
                    let fact = self.app.get_module_deprecation(&m.name);
                    proof {
                        self.app.lemma_module_answers(m.name@);
                    }
                    report_deprecation(reporter, fact, target.span, "this module", target.span);
                }
                let ghost first = reporter@;
                assert(first =~= old(reporter)@ + unresolved_module_diagnostics(*self.app, *target));
                if target.module.is_none() {
                    if let Name::Atom(a) = &target.function {
                        self.check_local(&a.name, arity, at, target.span, a.span, reporter);
                    }
                }
                assert(reporter@ =~= first + unresolved_function_diagnostics(
                    *self.module,
                    *self.app,
                    *target,
                    arity as nat,
                    at,
                ));
                report_call_arity(reporter, target.arity, arity, at);
            },
            Expr::Atom(id) => {
                self.check_local(&id.name, arity, at, id.span, id.span, reporter);
            },
            _ => {},
        }
        assert(reporter@ =~= old(reporter)@ + callee_diagnostics(
            *self.module,
            *self.app,
            *callee,
            arity as nat,
            at,
        ));
    }

    fn check_own(&self, function: &String, arity: usize, at: SourceSpan, reporter: &mut Reporter)
        ensures
            final(reporter)@ == old(reporter)@ + own_call_diagnostics(
                *self.module,
                FunctionNameView::local(function@, arity as nat),
                at,
            ),
    {
        if !self.module.defines_local(function, arity) {
            let name = local_string(function, arity);
            let note = join3("the function ", name.as_str(), " is not defined in this module");
            reporter.show_error1("reference to undefined function", at, note);
        }
        assert(reporter@ =~= old(reporter)@ + own_call_diagnostics(
            *self.module,
            FunctionNameView::local(function@, arity as nat),
            at,
        ));
    }

    fn check_local(
        &self,
        function: &String,
        arity: usize,
        at: SourceSpan,
        reference_at: SourceSpan,
        function_at: SourceSpan,
        reporter: &mut Reporter,
    )
        requires
            self.app.is_normalized(),
        ensures
            final(reporter)@ == old(reporter)@ + local_call_diagnostics(
                *self.module,
                *self.app,
                function@,
                arity as nat,
                at,
                reference_at,
                function_at,
            ),
    {
        if !self.module.defines_local(function, arity) {
            match self.module.find_import(function, arity) {
                None => {
                    let name = local_string(function, arity);
                    let note = join3(
                        "the function ",
                        name.as_str(),
                        " is not defined or imported in this module",
                    );
                    reporter.show_error1("reference to undefined function", at, note);
                },
                Some(i) => {
                    let fact = self.app.get_function_deprecation(&self.module.imports[i].origin);
                    proof {
                        self.app.lemma_normalized_answers(self.module.imports@[i as int].origin@);
                    }
                    report_deprecation(reporter, fact, reference_at, "this module", function_at);
                },
            }
        }
        assert(reporter@ =~= old(reporter)@ + local_call_diagnostics(
            *self.module,
            *self.app,
            function@,
            arity as nat,
            at,
            reference_at,
            function_at,
        ));
    }
}

} // verus!
