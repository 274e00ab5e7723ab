//! Diagnostics for an editor: positions, ranges and messages in the form
//! that the language server protocol asks for.

use vstd::prelude::*;
use vstd::string::StringExecFns;

verus! {

/// A place in a text as the protocol counts it: line and character, from 0.
#[derive(Clone, Copy, PartialEq, Eq, Structural, Debug)]
pub struct Position {
    pub line: u32,
    pub character: u32,
}

/// A stretch of text between two places of the protocol.
#[derive(Clone, Copy, PartialEq, Eq, Structural, Debug)]
pub struct Range {
    pub start: Position,
    pub end: Position,
}

/// A place in a source file as the compiler counts it: line and column, from
/// 0.
#[derive(Clone, Copy, PartialEq, Eq, Structural, Debug)]
pub struct LineColumn {
    pub line: u32,
    pub column: u32,
}

/// A stretch of a source file between two places of the compiler.
#[derive(Clone, Copy, PartialEq, Eq, Structural, Debug)]
pub struct LineColumnRegion {
    pub start: LineColumn,
    pub end: LineColumn,
}

/// How grave the compiler takes a problem to be.
#[derive(Clone, Copy, PartialEq, Eq, Structural, Debug)]
pub enum Severity {
    RuntimeError,
    Warning,
}

/// How grave a diagnostic is, in the protocol's terms.
#[derive(Clone, Copy, PartialEq, Eq, Structural, Debug)]
pub enum DiagnosticSeverity {
    Error,
    Warning,
    Information,
    Hint,
}

/// What went wrong while a module was loaded.
#[derive(Clone, PartialEq, Eq, Debug)]
pub enum LoadingProblem {
    /// The file could not be read; `error` says why.
    FileProblem { filename: String, error: String },
    /// The file could not be parsed. Such a problem is turned into a
    /// `FormattedReport` before it is shown.
    ParsingFailed,
    UnexpectedHeader(String),
    MsgChannelDied,
    ErrJoiningWorkerThreads,
    TriedToImportAppModule,
    /// A problem that was formatted for the user already.
    FormattedReport(String),
}

/// A diagnostic as the protocol shows it. The fields of the protocol that
/// are not here are never set.
#[derive(Clone, PartialEq, Eq, Debug)]
pub struct Diagnostic {
    pub range: Range,
    pub severity: Option<DiagnosticSeverity>,
    pub source: Option<String>,
    pub message: String,
}

/// Mathematical form of a `Diagnostic`.
pub struct DiagnosticV {
    pub range: Range,
    pub severity: Option<DiagnosticSeverity>,
    pub source: Option<Seq<char>>,
    pub message: Seq<char>,
}

impl View for Diagnostic {
    type V = DiagnosticV;

    open spec fn view(&self) -> DiagnosticV {
        DiagnosticV {
            range: self.range,
            severity: self.severity,
            source: match self.source {
                Some(s) => Some(s@),
                None => None,
            },
            message: self.message@,
        }
    }
}

/// A place of the compiler as a place of the protocol.
pub open spec fn position_of(place: LineColumn) -> Position {
    Position { line: place.line, character: place.column }
}

/// A place of the protocol as a place of the compiler.
pub open spec fn line_column_of(position: Position) -> LineColumn {
    LineColumn { line: position.line, column: position.character }
}

impl LineColumnRegion {
    pub open spec fn spec_to_range(&self) -> Range {
        Range { start: position_of(self.start), end: position_of(self.end) }
    }

    /// The same stretch in the protocol's terms.
    #[verifier::when_used_as_spec(spec_to_range)]
    pub fn to_range(&self) -> (range: Range)
        ensures
            range == self.spec_to_range(),
    {
        Range {
            start: Position { line: self.start.line, character: self.start.column },
            end: Position { line: self.end.line, character: self.end.column },
        }
    }
}

impl Range {
    pub open spec fn spec_to_region(&self) -> LineColumnRegion {
        LineColumnRegion { start: line_column_of(self.start), end: line_column_of(self.end) }
    }

    /// The same stretch in the compiler's terms.
    #[verifier::when_used_as_spec(spec_to_region)]
    pub fn to_region(&self) -> (region: LineColumnRegion)
        ensures
            region == self.spec_to_region(),
    {
        LineColumnRegion {
            start: LineColumn { line: self.start.line, column: self.start.character },
            end: LineColumn { line: self.end.line, column: self.end.character },
        }
    }
}

impl Position {
    /// The same place in the compiler's terms.
    pub fn to_roc_position(&self) -> (place: LineColumn)
        ensures
            place == line_column_of(*self),
    {
        LineColumn { line: self.line, column: self.character }
    }
}

/// Going to the protocol's terms and back gives the stretch one started
/// from, and so does the other way round.
pub proof fn range_and_region_are_inverse(region: LineColumnRegion, range: Range)
    ensures
        region.to_range().to_region() == region,
        range.to_region().to_range() == range,
{
}

pub trait IntoLspSeverity {
    fn into_lsp_severity(self) -> DiagnosticSeverity;
}

impl IntoLspSeverity for Severity {
    /// A runtime error is an error, a warning a warning.
    fn into_lsp_severity(self) -> (severity: DiagnosticSeverity)
        ensures
            severity == lsp_severity_of(self),
    {
        match self {
            Severity::RuntimeError => DiagnosticSeverity::Error,
            Severity::Warning => DiagnosticSeverity::Warning,
        }
    }
}

/// How grave the protocol takes what the compiler takes to be `severity`.
pub open spec fn lsp_severity_of(severity: Severity) -> DiagnosticSeverity {
    match severity {
        Severity::RuntimeError => DiagnosticSeverity::Error,
        Severity::Warning => DiagnosticSeverity::Warning,
    }
}

pub trait IntoLspDiagnostic<'a>: Sized {
    type Feed;

    spec fn can_be_shown(&self) -> bool;

    fn into_lsp_diagnostic(self, feed: &'a Self::Feed) -> Option<Diagnostic>
        requires
            self.can_be_shown(),
    ;
}

/// The message that a loading problem is shown with.
pub open spec fn loading_message(problem: LoadingProblem) -> Seq<char> {
    match problem {
        LoadingProblem::FileProblem { filename, error } => "Failed to load "@ + filename@
            + " due to an I/O error: "@ + error@,
        LoadingProblem::ParsingFailed => Seq::empty(),
        LoadingProblem::UnexpectedHeader(header) => "Unexpected header: "@ + header@,
        LoadingProblem::MsgChannelDied => "Internal error: message channel died"@,
        LoadingProblem::ErrJoiningWorkerThreads => "Internal error: analysis worker threads died"@,
        LoadingProblem::TriedToImportAppModule => "Attempted to import app module"@,
        LoadingProblem::FormattedReport(report) => report@,
    }
}

/// Where a loading problem is shown: the first character of the file.
pub open spec fn loading_range() -> Range {
    Range {
        start: Position { line: 0, character: 0 },
        end: Position { line: 0, character: 1 },
    }
}

impl<'a> IntoLspDiagnostic<'a> for LoadingProblem {
    type Feed = ();

    open spec fn can_be_shown(&self) -> bool {
        !(self is ParsingFailed)
    }

    /// A loading problem becomes an error at the start of the file, from
    /// the source `load`, with the message that names the problem.
    fn into_lsp_diagnostic(self, feed: &'a ()) -> (diagnostic: Option<Diagnostic>)
        ensures
            diagnostic.is_some(),
            diagnostic.unwrap()@ == (DiagnosticV {
                range: loading_range(),
                severity: Some(DiagnosticSeverity::Error),
                source: Some("load"@),
                message: loading_message(self),
            }),
    {
        let range = Range {
            start: Position { line: 0, character: 0 },
            end: Position { line: 0, character: 1 },
        };
        let msg = match self {
            LoadingProblem::FileProblem { filename, error } => {
                let mut msg = String::from_str("Failed to load ");
                msg.append(filename.as_str());
                msg.append(" due to an I/O error: ");
                msg.append(error.as_str());
                msg
            },
            LoadingProblem::ParsingFailed => String::new(),
            LoadingProblem::UnexpectedHeader(header) => {
                let mut msg = String::from_str("Unexpected header: ");
                msg.append(header.as_str());
                msg
            },
            LoadingProblem::MsgChannelDied => String::from_str(
                "Internal error: message channel died",
            ),
            LoadingProblem::ErrJoiningWorkerThreads => String::from_str(
                "Internal error: analysis worker threads died",
            ),
            LoadingProblem::TriedToImportAppModule => String::from_str(
                "Attempted to import app module",
            ),
            LoadingProblem::FormattedReport(report) => report,
        };
        Some(
            Diagnostic {
                range,
                severity: Some(DiagnosticSeverity::Error),
                source: Some(String::from_str("load")),
                message: msg,
            },
        )
    }
}

/// A problem of a source file after the compiler has found its place,
/// weighed it and put it into words.
#[derive(Clone, PartialEq, Eq, Debug)]
pub struct RenderedProblem {
    pub region: LineColumnRegion,
    pub severity: Severity,
    pub message: String,
}

impl<'a> IntoLspDiagnostic<'a> for RenderedProblem {
    type Feed = ();

    open spec fn can_be_shown(&self) -> bool {
        true
    }

    /// A problem of a source file becomes a diagnostic over its stretch of
    /// the file, as grave as the compiler took it to be, without a source.
    fn into_lsp_diagnostic(self, feed: &'a ()) -> (diagnostic: Option<Diagnostic>)
        ensures
            diagnostic.is_some(),
            diagnostic.unwrap()@ == (DiagnosticV {
                range: self.region.to_range(),
                severity: Some(lsp_severity_of(self.severity)),
                source: None,
                message: self.message@,
            }),
    {
        let range = self.region.to_range();
        let severity = self.severity.into_lsp_severity();
        Some(Diagnostic { range, severity: Some(severity), source: None, message: self.message })
    }
}

} // verus!
