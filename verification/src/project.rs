//! Project-level export: which compilations a project needs, and where the
//! output of its export task goes.

use vstd::prelude::*;
use vstd::string::StrSliceExecFns;
use typst::diag::SourceDiagnostic;
use crate::compute::{ExportHtmlTask, ExportPdfTask, ExportPngTask, ExportSvgTask};
use crate::timing::{spec_export_needs_run, spec_needs_run, CompileSignal, ExportTimings, TaskWhen};
use crate::transform::ExportTask;

pub use crate::compute::{HtmlExport, PdfExport, PngExport, SvgExport};

verus! {

/// The configuration of a Markdown export.
#[derive(Debug)]
pub struct ExportMarkdownTask {
    pub export: ExportTask,
}

/// The configuration of a plain-text export.
#[derive(Debug)]
pub struct ExportTextTask {
    pub export: ExportTask,
}

/// The timings configured for each export of a project; `None` where the
/// project configures no such export.
#[derive(Clone, Copy, Debug)]
pub struct ExportTimingConfig {
    pub pdf: Option<TaskWhen>,
    pub svg: Option<TaskWhen>,
    pub png: Option<TaskWhen>,
    pub html: Option<TaskWhen>,
    pub markdown: Option<TaskWhen>,
    pub text: Option<TaskWhen>,
}

/// Which compilations a project needs.
#[derive(Clone, Copy, Debug, PartialEq, Eq, Structural)]
pub struct CompilationFlags {
    /// Compile to a paged document.
    pub compile_paged: bool,
    /// Compile to an HTML document.
    pub compile_html: bool,
}

/// Whether a task with `timing` may need a compilation: a decision that
/// needs the (not yet compiled) document counts as "yes".
pub open spec fn spec_may_run(signal: CompileSignal, timing: Option<TaskWhen>) -> bool {
    match spec_needs_run(signal, timing, None) {
        Some(b) => b,
        None => true,
    }
}

/// The compilations that a project needs on `signal`: paged diagnostics run
/// on every edit, HTML diagnostics never; each export needs the compilation
/// of its document kind.
pub open spec fn spec_preconfig(signal: CompileSignal, timings: ExportTimingConfig) -> CompilationFlags {
    CompilationFlags {
        compile_paged: spec_may_run(signal, Some(TaskWhen::OnType))
            || spec_may_run(signal, timings.pdf)
            || spec_may_run(signal, timings.svg)
            || spec_may_run(signal, timings.png)
            || spec_may_run(signal, timings.text)
            || spec_may_run(signal, timings.markdown),
        compile_html: spec_may_run(signal, Some(TaskWhen::Never)) || spec_may_run(signal, timings.html),
    }
}

impl CompilationFlags {
    /// Some compilation is needed.
    pub fn any(&self) -> (res: bool)
        ensures
            res == (self.compile_paged || self.compile_html),
    {
        self.compile_paged || self.compile_html
    }
}

/// Compilation decisions of a project.
pub struct ProjectCompilation;

impl ProjectCompilation {
    /// Whether a task with `timing` may need a compilation before the
    /// document exists.
    fn may_run(signal: CompileSignal, timing: Option<TaskWhen>) -> (res: bool)
        ensures
            res == spec_may_run(signal, timing),
    {
        match ExportTimings::needs_run(signal, timing, None) {
            Some(b) => b,
            None => true,
        }
    }

    /// Decides, before compiling, which document kinds the project has to
    /// compile on `signal`, from the timings of its exports.
    pub fn preconfig_timings(signal: CompileSignal, timings: ExportTimingConfig) -> (res: CompilationFlags)
        ensures
            res == spec_preconfig(signal, timings),
    {
        let paged_diag = Some(TaskWhen::OnType);
        let html_diag = Some(TaskWhen::Never);
        let compile_paged = Self::may_run(signal, paged_diag)
            || Self::may_run(signal, timings.pdf)
            || Self::may_run(signal, timings.svg)
            || Self::may_run(signal, timings.png)
            || Self::may_run(signal, timings.text)
            || Self::may_run(signal, timings.markdown);
        let compile_html = Self::may_run(signal, html_diag) || Self::may_run(signal, timings.html);
        CompilationFlags { compile_paged, compile_html }
    }
}

/// Every edit of a document, and every update of the entry file, compiles
/// the paged document: its diagnostics run on type.
pub proof fn lemma_edit_compiles_paged(signal: CompileSignal, timings: ExportTimingConfig)
    requires
        signal.by_mem_events || signal.by_entry_update,
    ensures
        spec_preconfig(signal, timings).compile_paged,
{
}

/// Every export of a paged document that may run gets the paged document
/// compiled, and the HTML export gets the HTML document compiled; and the
/// paged document is compiled only for its diagnostics or such an export.
pub proof fn lemma_exports_get_their_document(signal: CompileSignal, timings: ExportTimingConfig)
    ensures
        spec_may_run(signal, timings.pdf) ==> spec_preconfig(signal, timings).compile_paged,
        spec_may_run(signal, timings.svg) ==> spec_preconfig(signal, timings).compile_paged,
        spec_may_run(signal, timings.png) ==> spec_preconfig(signal, timings).compile_paged,
        spec_may_run(signal, timings.text) ==> spec_preconfig(signal, timings).compile_paged,
        spec_may_run(signal, timings.markdown) ==> spec_preconfig(signal, timings).compile_paged,
        spec_may_run(signal, timings.html) ==> spec_preconfig(signal, timings).compile_html,
        spec_preconfig(signal, timings).compile_paged ==> signal.by_mem_events || signal.by_entry_update
            || spec_may_run(signal, timings.pdf) || spec_may_run(signal, timings.svg)
            || spec_may_run(signal, timings.png) || spec_may_run(signal, timings.text)
            || spec_may_run(signal, timings.markdown),
{
}

/// An export of a paged document that is due on a save, such as an `OnSave`
/// one, compiles the paged document on that save.
pub proof fn lemma_save_compiles_for_on_save_export(signal: CompileSignal, timings: ExportTimingConfig)
    requires
        signal.by_fs_events,
        timings.pdf == Some(TaskWhen::OnSave) || timings.svg == Some(TaskWhen::OnSave)
            || timings.png == Some(TaskWhen::OnSave) || timings.text == Some(TaskWhen::OnSave)
            || timings.markdown == Some(TaskWhen::OnSave),
    ensures
        spec_preconfig(signal, timings).compile_paged,
{
}

/// The HTML document is compiled exactly when the HTML export may run.
pub proof fn lemma_html_follows_export(signal: CompileSignal, timings: ExportTimingConfig)
    ensures
        spec_preconfig(signal, timings).compile_html == spec_may_run(signal, timings.html),
{
}

/// An export that runs on `signal` gets its document compiled: whenever
/// `needs_run` says yes for some document, the compilation is requested.
pub proof fn lemma_running_export_is_compiled(
    signal: CompileSignal,
    timings: ExportTimingConfig,
    doc_has_title: Option<bool>,
)
    ensures
        spec_export_needs_run(signal, timings.pdf.unwrap_or(TaskWhen::Never), doc_has_title)
            ==> spec_preconfig(signal, timings).compile_paged,
        spec_export_needs_run(signal, timings.html.unwrap_or(TaskWhen::Never), doc_has_title)
            ==> spec_preconfig(signal, timings).compile_html,
{
}

/// The task of a project.
#[derive(Debug)]
pub enum ProjectTask {
    Preview,
    ExportPdf(ExportPdfTask),
    ExportPng(ExportPngTask),
    ExportSvg(ExportSvgTask),
    ExportHtml(ExportHtmlTask),
    ExportMarkdown(ExportMarkdownTask),
    ExportText(ExportTextTask),
    Query,
}

/// The export that an export task makes.
#[derive(Clone, Copy, Debug, PartialEq, Eq, Structural)]
pub enum ExportKind {
    Pdf,
    Png,
    Svg,
    Html,
    Markdown,
    Text,
}

impl ProjectTask {
    /// The kind of export that a project task makes; `None` for a preview or a query.
    pub open spec fn spec_export_kind(&self) -> Option<ExportKind> {
        match self {
            ProjectTask::Preview => None,
            ProjectTask::ExportPdf(_) => Some(ExportKind::Pdf),
            ProjectTask::ExportPng(_) => Some(ExportKind::Png),
            ProjectTask::ExportSvg(_) => Some(ExportKind::Svg),
            ProjectTask::ExportHtml(_) => Some(ExportKind::Html),
            ProjectTask::ExportMarkdown(_) => Some(ExportKind::Markdown),
            ProjectTask::ExportText(_) => Some(ExportKind::Text),
            ProjectTask::Query => None,
        }
    }

    /// The kind of export that a project task makes; `None` for a preview or a query.
    pub fn export_kind(&self) -> (res: Option<ExportKind>)
        ensures
            res == self.spec_export_kind(),
    {
        match self {
            ProjectTask::Preview => None,
            ProjectTask::ExportPdf(_) => Some(ExportKind::Pdf),
            ProjectTask::ExportPng(_) => Some(ExportKind::Png),
            ProjectTask::ExportSvg(_) => Some(ExportKind::Svg),
            ProjectTask::ExportHtml(_) => Some(ExportKind::Html),
            ProjectTask::ExportMarkdown(_) => Some(ExportKind::Markdown),
            ProjectTask::ExportText(_) => Some(ExportKind::Text),
            ProjectTask::Query => None,
        }
    }
}

/// The artifact of an export: bytes (PDF, PNG) or text (SVG, HTML,
/// Markdown, plain text).
#[derive(Debug)]
pub enum ExportArtifact {
    Bytes(Vec<u8>),
    Text(String),
}

impl ExportArtifact {
    /// The bytes to write: text in UTF-8.
    pub open spec fn spec_bytes(&self) -> Seq<u8> {
        match self {
            ExportArtifact::Bytes(b) => b@,
            ExportArtifact::Text(s) => vstd::utf8::encode_utf8(s@),
        }
    }
}

/// The project's export, which writes the output of its export task.
pub struct ProjectExport;

impl ProjectExport {
    /// The bytes of an export's output, text turned into UTF-8.
    pub fn output_bytes(output: Option<Result<ExportArtifact, Vec<SourceDiagnostic>>>) -> (res: Option<Result<Vec<u8>, Vec<SourceDiagnostic>>>)
        ensures
            output is None <==> res is None,
            output matches Some(Err(d)) ==> res == Some(Err::<Vec<u8>, Vec<SourceDiagnostic>>(d)),
            output matches Some(Ok(a)) ==> res matches Some(Ok(b)) && b@ == a.spec_bytes(),
    {
        match output {
            None => None,
            Some(Err(d)) => Some(Err(d)),
            Some(Ok(ExportArtifact::Bytes(b))) => Some(Ok(b)),
            Some(Ok(ExportArtifact::Text(s))) => Some(Ok(s.as_str().as_bytes_vec())),
        }
    }

    /// Where the output is written: at the task's output path, when there is
    /// one and the export succeeded; nothing is written otherwise (not even
    /// for an export that failed with diagnostics).
    pub fn write_target(output_path: Option<String>, output: Option<Result<Vec<u8>, Vec<SourceDiagnostic>>>) -> (res: Option<(String, Vec<u8>)>)
        ensures
            res is Some <==> output_path is Some && output matches Some(Ok(_)),
            res matches Some((p, b)) ==> Some(p) == output_path && output == Some(Ok::<Vec<u8>, Vec<SourceDiagnostic>>(b)),
    {
        match output_path {
            Some(path) => match output {
                Some(Ok(bytes)) => Some((path, bytes)),
                _ => None,
            },
            None => None,
        }
    }
}

/// Converting a document to Markdown failed, with the converter's message.
#[derive(Debug, PartialEq, Eq)]
pub struct MarkdownConversionError(pub String);

/// The result of the Markdown export.
pub struct TypliteMarkdownExport(pub Option<Result<String, Vec<SourceDiagnostic>>>);

impl TypliteMarkdownExport {
    /// Whether the Markdown export runs on `signal`.
    pub fn needs_run(signal: CompileSignal, doc_has_title: Option<bool>, config: &ExportMarkdownTask) -> (res: bool)
        ensures
            res == spec_export_needs_run(signal, config.export.when, doc_has_title),
    {
        ExportTimings::export_needs_run(signal, config.export.when, doc_has_title)
    }

    /// The Markdown export: nothing when it does not run, else the converted
    /// text, or the converter's failure.
    pub fn run(should_run: bool, conversion: Result<String, String>) -> (res: Result<Option<Result<String, Vec<SourceDiagnostic>>>, MarkdownConversionError>)
        ensures
            !should_run ==> res == Ok::<Option<Result<String, Vec<SourceDiagnostic>>>, MarkdownConversionError>(None),
            should_run ==> match conversion {
                Ok(text) => res == Ok::<Option<Result<String, Vec<SourceDiagnostic>>>, MarkdownConversionError>(
                    Some(Ok(text)),
                ),
                Err(msg) => res == Err::<Option<Result<String, Vec<SourceDiagnostic>>>, MarkdownConversionError>(
                    MarkdownConversionError(msg),
                ),
            },
    {
        if !should_run {
            return Ok(None);
        }
        match conversion {
            Ok(text) => Ok(Some(Ok(text))),
            Err(msg) => Err(MarkdownConversionError(msg)),
        }
    }
}

/// The result of the plain-text export.
pub struct TextExport(pub Option<Result<String, Vec<SourceDiagnostic>>>);

impl TextExport {
    /// Whether the plain-text export runs on `signal`.
    pub fn needs_run(signal: CompileSignal, doc_has_title: Option<bool>, config: &ExportTextTask) -> (res: bool)
        ensures
            res == spec_export_needs_run(signal, config.export.when, doc_has_title),
    {
        ExportTimings::export_needs_run(signal, config.export.when, doc_has_title)
    }
}

} // verus!
