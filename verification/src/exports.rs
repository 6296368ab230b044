//! The export check: every export must name a function that the module
//! defines. For one that does not, the closest name among the defined
//! functions is suggested, if any comes close enough.

use vstd::prelude::*;
use vstd::string::*;
use crate::ast::{defined_names, position, FunctionDefinition, Module, SpannedName};
use crate::diagnostics::{
    diagnostic2, error1, DiagnosticView, Label, LabelView, Reporter, Severity,
};
use crate::ast::index_view;
use crate::similarity::{
    best_match, lemma_best_match, most_similar, similarities, SIMILARITY_THRESHOLD,
};
use crate::text::join3;

verus! {

/// The text of each defined function's name, in the table's order: the
/// candidates for a suggestion.
pub open spec fn candidate_texts(functions: Seq<FunctionDefinition>) -> Seq<Seq<char>> {
    functions.map_values(|f: FunctionDefinition| f.name@.text())
}

/// The defined function to suggest in place of `export`, if any.
pub open spec fn suggestion(module: Module, export: SpannedName) -> Option<int> {
    best_match(similarities(export.name@.text(), candidate_texts(module.functions@)))
}

/// The error for an export that names no defined function. With a
/// suggestion it has a second label, at the definition of the suggested
/// function.
pub open spec fn invalid_export(module: Module, export: SpannedName) -> DiagnosticView {
    match suggestion(module, export) {
        None => error1(
            "invalid export"@,
            export.span,
            "the referenced function is not defined in this module"@,
        ),
        Some(i) => diagnostic2(
            Severity::Error,
            "invalid export"@,
            LabelView {
                span: export.span,
                message: "the referenced function is not defined in this module"@,
            },
            LabelView {
                span: module.functions@[i].span,
                message: "maybe you meant to export "@ + module.functions@[i].name@.text()
                    + " instead?"@,
            },
        ),
    }
}

/// An invalid export gets a suggestion if and only if the name of some
/// defined function scores at least the threshold against it. The
/// suggestion then points at the definition of a function whose name scores
/// highest; without one the error has its single label.
pub proof fn lemma_suggestion_threshold(module: Module, export: SpannedName)
    ensures
        ({
            let scores = similarities(export.name@.text(), candidate_texts(module.functions@));
            let reported = invalid_export(module, export);
            if exists|j: int| 0 <= j < scores.len() && #[trigger] scores[j] >= SIMILARITY_THRESHOLD {
                &&& reported.labels.len() == 2
                &&& reported.labels[0].span == export.span
                &&& exists|i: int|
                    0 <= i < module.functions@.len() && reported.labels[1].span
                        == module.functions@[i].span && scores[i] >= SIMILARITY_THRESHOLD
                        && forall|j: int| 0 <= j < scores.len() ==> #[trigger] scores[j] <= scores[i]
            } else {
                &&& reported.labels.len() == 1
                &&& reported.labels[0].span == export.span
            }
        }),
{
    let scores = similarities(export.name@.text(), candidate_texts(module.functions@));
    lemma_best_match(scores);
}

/// What one export reports.
pub open spec fn export_diagnostics(module: Module, export: SpannedName) -> Seq<DiagnosticView> {
    if position(defined_names(module.functions@), export.name@) is Some {
        Seq::empty()
    } else {
        seq![invalid_export(module, export)]
    }
}

/// What the first `n` exports of the module report, in order.
pub open spec fn exports_diagnostics(module: Module, n: nat) -> Seq<DiagnosticView>
    decreases n,
{
    if n == 0 || n > module.exports@.len() {
        Seq::empty()
    } else {
        exports_diagnostics(module, (n - 1) as nat) + export_diagnostics(
            module,
            module.exports@[n - 1],
        )
    }
}

/// Everything the export check reports of a module: one error for each
/// export that names no defined function.
pub open spec fn invalid_exports(module: Module) -> Seq<DiagnosticView> {
    exports_diagnostics(module, module.exports@.len())
}

/// The texts of the names of the module's functions.
pub open spec fn text_views(texts: Seq<String>) -> Seq<Seq<char>> {
    texts.map_values(|c: String| c@)
}

/// Writes out the name of every function that the module defines.
pub fn similar_functions(module: &Module) -> (texts: Vec<String>)
    ensures
        text_views(texts@) == candidate_texts(module.functions@),
{
    let mut texts: Vec<String> = Vec::new();
    let mut i: usize = 0;
    while i < module.functions.len()
        invariant
            i <= module.functions.len(),
            texts@.len() == i,
            forall|j: int| 0 <= j < i ==> (#[trigger] texts@[j])@ == module.functions@[j].name@.text(),
        decreases module.functions.len() - i,
    {
        texts.push(module.functions[i].name.to_string());
        i += 1;
    }
    assert(text_views(texts@) =~= candidate_texts(module.functions@));
    texts
}

/// Checks that every export names a function that the module defines.
pub struct VerifyExports {
    reporter: Reporter,
}

impl VerifyExports {
    /// What the reporter of this pass holds.
    pub closed spec fn reported(&self) -> Seq<DiagnosticView> {
        self.reporter@
    }

    pub fn new(reporter: Reporter) -> (pass: Self)
        ensures
            pass.reported() == reporter@,
    {
        VerifyExports { reporter }
    }

    /// Reports, after what the reporter already holds, one error for each
    /// export that names no defined function, in the exports' order.
    pub fn run(&mut self, module: &Module)
        ensures
            final(self).reported() == old(self).reported() + invalid_exports(*module),
    {
        // The names of the defined functions are written out when the first
        // invalid export turns up, and once only.
        let mut similar: Option<Vec<String>> = None;
        let mut i: usize = 0;
        assert(self.reporter@ =~= old(self).reporter@ + exports_diagnostics(*module, 0));
        while i < module.exports.len()
            invariant
                i <= module.exports.len(),
                similar matches Some(texts) ==> text_views(texts@) == candidate_texts(
                    module.functions@,
                ),
                self.reporter@ == old(self).reporter@ + exports_diagnostics(*module, i as nat),
            decreases module.exports.len() - i,
        {
            let export = &module.exports[i];
            if !module.defines(&export.name) {
                if similar.is_none() {
                    similar = Some(similar_functions(module));
                }
                let texts = similar.as_ref().unwrap();
                let name = export.name.to_string();
                self.report_invalid(module, export, most_similar(name.as_str(), texts), texts);
            }
            i += 1;
            assert(self.reporter@ =~= old(self).reporter@ + exports_diagnostics(*module, i as nat));
        }
    }

    fn report_invalid(
        &mut self,
        module: &Module,
        export: &SpannedName,
        best: Option<usize>,
        texts: &Vec<String>,
    )
        requires
            text_views(texts@) == candidate_texts(module.functions@),
            suggestion(*module, *export) == index_view(best),
        ensures
            final(self).reporter@ == old(self).reporter@.push(invalid_export(*module, *export)),
    {
        proof {
            lemma_best_match(similarities(export.name@.text(), candidate_texts(module.functions@)));
        }
        match best {
            None => {
                self.reporter.show_error1(
                    "invalid export",
                    export.span,
                    String::from_str("the referenced function is not defined in this module"),
                );
            },
            Some(i) => {
                assert(texts@[i as int]@ == text_views(texts@)[i as int]);
                let hint = join3("maybe you meant to export ", texts[i].as_str(), " instead?");
                self.reporter.show2(
                    Severity::Error,
                    "invalid export",
                    Label::new(
                        export.span,
                        String::from_str("the referenced function is not defined in this module"),
                    ),
                    Label::new(module.functions[i].span, hint),
                );
            },
        }
    }

    /// The reporter, with all that the pass reported.
    pub fn into_reporter(self) -> (reporter: Reporter)
        ensures
            reporter@ == self.reported(),
    {
        self.reporter
    }
}

} // verus!
