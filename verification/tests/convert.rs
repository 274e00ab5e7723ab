use rc_codegen::convert::{
    Diagnostic, DiagnosticSeverity, IntoLspDiagnostic, IntoLspSeverity, LineColumn,
    LineColumnRegion, LoadingProblem, Position, Range, RenderedProblem, Severity,
};

fn region() -> LineColumnRegion {
    LineColumnRegion {
        start: LineColumn { line: 2, column: 4 },
        end: LineColumn { line: 3, column: 9 },
    }
}

#[test]
fn region_becomes_range() {
    assert_eq!(
        region().to_range(),
        Range {
            start: Position { line: 2, character: 4 },
            end: Position { line: 3, character: 9 },
        }
    );
}

#[test]
fn range_becomes_region_with_its_own_columns() {
    let range = Range {
        start: Position { line: 2, character: 4 },
        end: Position { line: 3, character: 9 },
    };
    assert_eq!(range.to_region(), region());
    assert_eq!(range.to_region().to_range(), range);
}

#[test]
fn position_becomes_line_and_column() {
    assert_eq!(
        Position { line: 7, character: 11 }.to_roc_position(),
        LineColumn { line: 7, column: 11 }
    );
}

#[test]
fn severities_are_mapped() {
    assert_eq!(Severity::RuntimeError.into_lsp_severity(), DiagnosticSeverity::Error);
    assert_eq!(Severity::Warning.into_lsp_severity(), DiagnosticSeverity::Warning);
}

fn loading(problem: LoadingProblem) -> Diagnostic {
    problem.into_lsp_diagnostic(&()).unwrap()
}

#[test]
fn loading_problems_are_errors_at_the_start_of_the_file() {
    let d = loading(LoadingProblem::MsgChannelDied);
    assert_eq!(
        d.range,
        Range {
            start: Position { line: 0, character: 0 },
            end: Position { line: 0, character: 1 },
        }
    );
    assert_eq!(d.severity, Some(DiagnosticSeverity::Error));
    assert_eq!(d.source, Some("load".to_string()));
    assert_eq!(d.message, "Internal error: message channel died");
}

#[test]
fn loading_problems_have_their_messages() {
    assert_eq!(
        loading(LoadingProblem::FileProblem {
            filename: "src/Main.roc".to_string(),
            error: "permission denied".to_string(),
        })
        .message,
        "Failed to load src/Main.roc due to an I/O error: permission denied"
    );
    assert_eq!(
        loading(LoadingProblem::UnexpectedHeader("platform".to_string())).message,
        "Unexpected header: platform"
    );
    assert_eq!(
        loading(LoadingProblem::ErrJoiningWorkerThreads).message,
        "Internal error: analysis worker threads died"
    );
    assert_eq!(
        loading(LoadingProblem::TriedToImportAppModule).message,
        "Attempted to import app module"
    );
    assert_eq!(
        loading(LoadingProblem::FormattedReport("a report".to_string())).message,
        "a report"
    );
}

#[test]
fn rendered_problem_keeps_place_weight_and_words() {
    let d = RenderedProblem {
        region: region(),
        severity: Severity::Warning,
        message: "unused definition".to_string(),
    }
    .into_lsp_diagnostic(&())
    .unwrap();
    assert_eq!(d.range, region().to_range());
    assert_eq!(d.severity, Some(DiagnosticSeverity::Warning));
    assert_eq!(d.source, None);
    assert_eq!(d.message, "unused definition");
}
