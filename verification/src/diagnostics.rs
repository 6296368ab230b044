//! Diagnostics: what a pass reports, and the reporter that collects it.

use vstd::prelude::*;
use vstd::string::*;

verus! {

/// A region of source text, as byte offsets into one source file.
#[derive(Clone, Copy, Debug, PartialEq, Eq, Structural)]
pub struct SourceSpan {
    pub source: u32,
    pub start: u32,
    pub end: u32,
}

impl SourceSpan {
    pub fn new(source: u32, start: u32, end: u32) -> (span: Self)
        ensures
            span == (SourceSpan { source, start, end }),
    {
        SourceSpan { source, start, end }
    }
}

/// How serious a diagnostic is. An error is expected to fail the compilation
/// once its driver looks at the reporter; a warning never does.
#[derive(Clone, Copy, Debug, PartialEq, Eq, Structural)]
pub enum Severity {
    Error,
    Warning,
}

/// One annotated source location of a diagnostic.
#[derive(Debug, PartialEq, Eq)]
pub struct Label {
    pub span: SourceSpan,
    pub message: String,
}

/// A reported error or warning: a primary message and one or more labels,
/// the first of which is the primary one.
#[derive(Debug, PartialEq, Eq)]
pub struct Diagnostic {
    pub severity: Severity,
    pub message: String,
    pub labels: Vec<Label>,
}

/// What a `Label` says.
pub struct LabelView {
    pub span: SourceSpan,
    pub message: Seq<char>,
}

/// What a `Diagnostic` says.
pub struct DiagnosticView {
    pub severity: Severity,
    pub message: Seq<char>,
    pub labels: Seq<LabelView>,
}

impl View for Label {
    type V = LabelView;

    open spec fn view(&self) -> LabelView {
        LabelView { span: self.span, message: self.message@ }
    }
}

impl View for Diagnostic {
    type V = DiagnosticView;

    open spec fn view(&self) -> DiagnosticView {
        DiagnosticView {
            severity: self.severity,
            message: self.message@,
            labels: label_views(self.labels@),
        }
    }
}

/// What each label of a list says, in order.
pub open spec fn label_views(labels: Seq<Label>) -> Seq<LabelView> {
    labels.map_values(|l: Label| l@)
}

/// What each diagnostic of a list says, in order.
pub open spec fn diagnostic_views(diagnostics: Seq<Diagnostic>) -> Seq<DiagnosticView> {
    diagnostics.map_values(|d: Diagnostic| d@)
}

/// An error with a single label.
pub open spec fn error1(message: Seq<char>, at: SourceSpan, note: Seq<char>) -> DiagnosticView {
    DiagnosticView {
        severity: Severity::Error,
        message,
        labels: seq![LabelView { span: at, message: note }],
    }
}

/// A warning with a single label.
pub open spec fn warning1(message: Seq<char>, at: SourceSpan, note: Seq<char>) -> DiagnosticView {
    DiagnosticView {
        severity: Severity::Warning,
        message,
        labels: seq![LabelView { span: at, message: note }],
    }
}

/// A diagnostic with two labels.
pub open spec fn diagnostic2(
    severity: Severity,
    message: Seq<char>,
    first: LabelView,
    second: LabelView,
) -> DiagnosticView {
    DiagnosticView { severity, message, labels: seq![first, second] }
}

impl Label {
    pub fn new(span: SourceSpan, message: String) -> (label: Self)
        ensures
            label@ == (LabelView { span, message: message@ }),
    {
        Label { span, message }
    }
}

/// Collects diagnostics in the order in which they are submitted.
#[derive(Debug)]
pub struct Reporter {
    diagnostics: Vec<Diagnostic>,
}

impl View for Reporter {
    type V = Seq<DiagnosticView>;

    closed spec fn view(&self) -> Seq<DiagnosticView> {
        diagnostic_views(self.diagnostics@)
    }
}

impl Reporter {
    /// A reporter that holds nothing yet.
    pub fn new() -> (reporter: Self)
        ensures
            reporter@ == Seq::<DiagnosticView>::empty(),
    {
        let reporter = Reporter { diagnostics: Vec::new() };
        assert(reporter@ =~= Seq::<DiagnosticView>::empty());
        reporter
    }

    fn show(&mut self, severity: Severity, message: &str, labels: Vec<Label>)
        ensures
            final(self)@ == old(self)@.push(
                DiagnosticView { severity, message: message@, labels: label_views(labels@) },
            ),
    {
        let diagnostic = Diagnostic { severity, message: String::from_str(message), labels };
        self.diagnostics.push(diagnostic);
        assert(self@ =~= old(self)@.push(
            DiagnosticView { severity, message: message@, labels: label_views(labels@) },
        ));
    }

    /// Submits an error with its labels.
    pub fn show_error(&mut self, message: &str, labels: Vec<Label>)
        ensures
            final(self)@ == old(self)@.push(
                DiagnosticView {
                    severity: Severity::Error,
                    message: message@,
                    labels: label_views(labels@),
                },
            ),
    {
        self.show(Severity::Error, message, labels)
    }

    /// Submits a warning with its labels.
    pub fn show_warning(&mut self, message: &str, labels: Vec<Label>)
        ensures
            final(self)@ == old(self)@.push(
                DiagnosticView {
                    severity: Severity::Warning,
                    message: message@,
                    labels: label_views(labels@),
                },
            ),
    {
        self.show(Severity::Warning, message, labels)
    }

    /// Submits an error with one label.
    pub fn show_error1(&mut self, message: &str, at: SourceSpan, note: String)
        ensures
            final(self)@ == old(self)@.push(error1(message@, at, note@)),
    {
        let mut labels: Vec<Label> = Vec::new();
        labels.push(Label::new(at, note));
        assert(label_views(labels@) =~= seq![LabelView { span: at, message: note@ }]);
        self.show(Severity::Error, message, labels)
    }

    /// Submits a warning with one label.
    pub fn show_warning1(&mut self, message: &str, at: SourceSpan, note: String)
        ensures
            final(self)@ == old(self)@.push(warning1(message@, at, note@)),
    {
        let mut labels: Vec<Label> = Vec::new();
        labels.push(Label::new(at, note));
        assert(label_views(labels@) =~= seq![LabelView { span: at, message: note@ }]);
        self.show(Severity::Warning, message, labels)
    }

    /// Submits a diagnostic with two labels.
    pub fn show2(
        &mut self,
        severity: Severity,
        message: &str,
        first: Label,
        second: Label,
    )
        ensures
            final(self)@ == old(self)@.push(diagnostic2(severity, message@, first@, second@)),
    {
        let mut labels: Vec<Label> = Vec::new();
        labels.push(first);
        labels.push(second);
        assert(label_views(labels@) =~= seq![first@, second@]);
        self.show(severity, message, labels)
    }

    /// How many diagnostics were submitted.
    pub fn len(&self) -> (n: usize)
        ensures
            n == self@.len(),
    {
        self.diagnostics.len()
    }

    /// The diagnostics submitted so far, oldest first.
    pub fn diagnostics(&self) -> (all: &Vec<Diagnostic>)
        ensures
            diagnostic_views(all@) == self@,
    {
        &self.diagnostics
    }

    /// Gives up the reporter for what it collected, oldest first.
    pub fn into_diagnostics(self) -> (all: Vec<Diagnostic>)
        ensures
            diagnostic_views(all@) == self@,
    {
        self.diagnostics
    }
}

} // verus!
