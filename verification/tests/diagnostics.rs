use erl_sema::diagnostics::{Diagnostic, Label, Reporter, Severity, SourceSpan};

fn at(start: u32, end: u32) -> SourceSpan {
    SourceSpan::new(3, start, end)
}

#[test]
fn new_reporter_is_empty() {
    let reporter = Reporter::new();
    assert_eq!(reporter.len(), 0);
    assert!(reporter.diagnostics().is_empty());
}

#[test]
fn reporter_keeps_the_order_of_submission() {
    let mut reporter = Reporter::new();
    reporter.show_error("first", vec![Label::new(at(1, 2), "a".to_string())]);
    reporter.show_warning("second", vec![Label::new(at(3, 4), "b".to_string())]);
    reporter.show_error1("third", at(5, 6), "c".to_string());
    reporter.show_warning1("fourth", at(7, 8), "d".to_string());
    reporter.show2(
        Severity::Warning,
        "fifth",
        Label::new(at(9, 10), "e".to_string()),
        Label::new(at(11, 12), "f".to_string()),
    );
    assert_eq!(reporter.len(), 5);
    let one = |severity, message: &str, span, note: &str| Diagnostic {
        severity,
        message: message.to_string(),
        labels: vec![Label { span, message: note.to_string() }],
    };
    assert_eq!(
        reporter.into_diagnostics(),
        vec![
            one(Severity::Error, "first", at(1, 2), "a"),
            one(Severity::Warning, "second", at(3, 4), "b"),
            one(Severity::Error, "third", at(5, 6), "c"),
            one(Severity::Warning, "fourth", at(7, 8), "d"),
            Diagnostic {
                severity: Severity::Warning,
                message: "fifth".to_string(),
                labels: vec![
                    Label { span: at(9, 10), message: "e".to_string() },
                    Label { span: at(11, 12), message: "f".to_string() },
                ],
            },
        ]
    );
}

#[test]
fn span_holds_its_parts() {
    let span = SourceSpan::new(1, 2, 3);
    assert_eq!(span.source, 1);
    assert_eq!(span.start, 2);
    assert_eq!(span.end, 3);
}
