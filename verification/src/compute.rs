//! The export computations of a compiled document: when they run, and what
//! they make of it.

use vstd::prelude::*;
use typst::diag::SourceDiagnostic;
use typst::html::HtmlDocument;
use typst::layout::{Abs, Page, PagedDocument};
use typst::visualize::Color;
use typst_pdf::{PdfOptions, Timestamp};
use crate::color::{
    hex_color_error, hex_color_ok, is_hex_fill, named_color, named_color_value, parse_color,
    spec_fill_color, spec_fill_ok,
    spec_named_color, ColorError, NamedColor,
};
use crate::datetime::{
    chrono_utc_from_timestamp, clock_seconds, convert_datetime, convert_source_date_epoch,
    spec_timestamp, typst_represents, utc_from_timestamp, UtcDateTime,
};
use crate::length::{typst_gap_abs, GapLength, LengthError};
use crate::timing::{spec_export_needs_run, CompileSignal, ExportTimings};
use crate::transform::{get_page_selection, spec_page_selection, ExportTask, PageSelection};

verus! {

/// A finished paged document.
#[verifier::external_type_specification]
#[verifier::external_body]
pub struct ExPagedDocument(PagedDocument);

/// A finished page of a paged document.
#[verifier::external_type_specification]
#[verifier::external_body]
pub struct ExPage(Page);

/// A finished HTML document.
#[verifier::external_type_specification]
#[verifier::external_body]
pub struct ExHtmlDocument(HtmlDocument);

/// A diagnostic of typst, with its source location.
#[verifier::external_type_specification]
#[verifier::external_body]
pub struct ExSourceDiagnostic(SourceDiagnostic);

/// Marks the PDF export.
pub struct PdfFlag;

/// Marks the SVG export.
pub struct SvgFlag;

/// Marks the PNG export.
pub struct PngFlag;

/// Marks the HTML export.
pub struct HtmlFlag;

/// The configuration of a PDF export.
#[derive(Debug)]
pub struct ExportPdfTask {
    pub export: ExportTask,
    /// The creation timestamp, in seconds since the Unix epoch; the current
    /// time when absent.
    pub creation_timestamp: Option<i64>,
}

/// The configuration of an SVG export.
#[derive(Debug)]
pub struct ExportSvgTask {
    pub export: ExportTask,
}

/// The configuration of a PNG export, but for its pixels per inch, a
/// float that the caller checks and uses.
#[derive(Debug)]
pub struct ExportPngTask {
    pub export: ExportTask,
    /// The fill color; white when absent.
    pub fill: Option<String>,
}

/// The configuration of an HTML export.
#[derive(Debug)]
pub struct ExportHtmlTask {
    pub export: ExportTask,
}

/// Why an export failed before it reached the exporter.
#[derive(Debug, PartialEq, Eq)]
pub enum ExportError {
    /// The configured creation timestamp is out of chrono's range.
    CreationTimestamp,
    /// The creation time is a date that typst cannot represent.
    UnrepresentableTimestamp,
    /// No creation time is configured and the system clock reads before the
    /// Unix epoch or beyond chrono's range.
    Clock,
    /// The merge gap is not a length.
    Gap(LengthError),
    /// The fill is not a color.
    Fill(ColorError),
}

/// The result of the PDF export: the PDF's bytes or typst's diagnostics;
/// `None` when the export did not run.
pub struct PdfExport(pub Option<Result<Vec<u8>, Vec<SourceDiagnostic>>>);

/// The result of the SVG export.
pub struct SvgExport(pub Option<Result<String, Vec<SourceDiagnostic>>>);

/// The result of the PNG export.
pub struct PngExport(pub Option<Result<Vec<u8>, Vec<SourceDiagnostic>>>);

/// The result of the HTML export.
pub struct HtmlExport(pub Option<Result<String, Vec<SourceDiagnostic>>>);

/// What `typst_pdf::pdf` makes of `doc` with default options but for the
/// creation timestamp: the PDF's bytes, or typst's diagnostics.
pub uninterp spec fn typst_pdf_output(doc: PagedDocument, timestamp: Option<Timestamp>) -> Result<Vec<u8>, Vec<SourceDiagnostic>>;

/// The first page of a paged document, if it has one.
pub uninterp spec fn first_page_of(doc: PagedDocument) -> Option<Page>;

/// What `typst_svg::svg` makes of a page.
pub uninterp spec fn typst_svg_of_page(page: Page) -> String;

/// What `typst_svg::svg_merged` makes of a document, its pages `gap` apart.
pub uninterp spec fn typst_svg_of_document(doc: PagedDocument, gap: Abs) -> String;

/// What `typst_html::html` makes of a document: its HTML, or typst's
/// diagnostics.
pub uninterp spec fn typst_html_output(doc: HtmlDocument) -> Result<String, Vec<SourceDiagnostic>>;

/// `typst_pdf::pdf` with default options but for the creation timestamp;
/// the diagnostics are handed on as a `Vec`.
#[verifier::external_body]
fn typst_pdf(doc: &PagedDocument, timestamp: Option<Timestamp>) -> (res: Result<Vec<u8>, Vec<SourceDiagnostic>>)
    ensures
        res == typst_pdf_output(*doc, timestamp),
{
    match typst_pdf::pdf(doc, &PdfOptions { timestamp, ..Default::default() }) {
        Ok(bytes) => Ok(bytes),
        Err(diags) => Err(diags.to_vec()),
    }
}

/// The first page of a paged document (`doc.pages.first()`).
#[verifier::external_body]
pub(crate) fn first_page(doc: &PagedDocument) -> (res: Option<&Page>)
    ensures
        res is Some <==> first_page_of(*doc) is Some,
        res matches Some(p) ==> first_page_of(*doc) == Some(*p),
{
    doc.pages.first()
}

/// `typst_svg::svg`: the SVG of one page.
#[verifier::external_body]
fn typst_svg_page(page: &Page) -> (res: String)
    ensures
        res == typst_svg_of_page(*page),
{
    typst_svg::svg(page)
}

/// `typst_svg::svg_merged`: one SVG of all pages, `gap` apart.
#[verifier::external_body]
fn typst_svg_merged(doc: &PagedDocument, gap: Abs) -> (res: String)
    ensures
        res == typst_svg_of_document(*doc, gap),
{
    typst_svg::svg_merged(doc, gap)
}

/// `typst_html::html`: the HTML of a document, or typst's diagnostics.
#[verifier::external_body]
fn typst_html(doc: &HtmlDocument) -> (res: Result<String, Vec<SourceDiagnostic>>)
    ensures
        res == typst_html_output(*doc),
{
    match typst_html::html(doc) {
        Ok(s) => Ok(s),
        Err(diags) => Err(diags.to_vec()),
    }
}

/// The creation time of a PDF export: the configured one (an error when it
/// is out of chrono's range), else the clock's reading `now`.
pub open spec fn spec_creation_time(creation: Option<i64>, now: Option<UtcDateTime>) -> Result<UtcDateTime, ExportError> {
    match creation {
        Some(seconds) => match chrono_utc_from_timestamp(seconds) {
            Some(d) => Ok(d),
            None => Err(ExportError::CreationTimestamp),
        },
        None => match now {
            Some(d) => Ok(d),
            None => Err(ExportError::Clock),
        },
    }
}

/// The PDF export of `doc`: typst's PDF with the creation time's timestamp,
/// or the error of the creation time.
pub open spec fn spec_pdf_run(doc: PagedDocument, creation: Option<i64>, now: Option<UtcDateTime>) -> Result<Result<Vec<u8>, Vec<SourceDiagnostic>>, ExportError> {
    match spec_creation_time(creation, now) {
        Err(e) => Err(e),
        Ok(d) => if typst_represents(d) {
            Ok(typst_pdf_output(doc, Some(spec_timestamp(d))))
        } else {
            Err(ExportError::UnrepresentableTimestamp)
        },
    }
}

/// With a configured creation time, the PDF does not depend on the clock.
pub proof fn lemma_configured_time_ignores_clock(
    doc: PagedDocument,
    seconds: i64,
    now1: Option<UtcDateTime>,
    now2: Option<UtcDateTime>,
)
    ensures
        spec_pdf_run(doc, Some(seconds), now1) == spec_pdf_run(doc, Some(seconds), now2),
{
}

/// Without a configured creation time, the PDF is stamped with the clock's
/// reading: a reading of `seconds` that chrono dates at `d`, a date typst
/// represents, gives typst's PDF with the timestamp of `d`, the date that
/// lies `seconds` after the Unix epoch.
pub proof fn lemma_pdf_stamped_with_clock(doc: PagedDocument, seconds: i64, d: UtcDateTime)
    requires
        chrono_utc_from_timestamp(seconds) == Some(d),
        typst_represents(d),
    ensures
        spec_pdf_run(doc, None, chrono_utc_from_timestamp(seconds))
            == Ok::<Result<Vec<u8>, Vec<SourceDiagnostic>>, ExportError>(typst_pdf_output(doc, Some(spec_timestamp(d)))),
{
}

/// A creation time that is a valid date in the years -9999 to 9999 gives a
/// PDF stamped with it.
pub proof fn lemma_pdf_of_valid_time(doc: PagedDocument, creation: Option<i64>, now: Option<UtcDateTime>)
    requires
        spec_creation_time(creation, now) matches Ok(d) && d.wf() && -9999 <= d.year <= 9999,
    ensures
        spec_pdf_run(doc, creation, now) == Ok::<Result<Vec<u8>, Vec<SourceDiagnostic>>, ExportError>(
            typst_pdf_output(doc, Some(spec_timestamp(spec_creation_time(creation, now)->Ok_0))),
        ),
{
}

impl PdfExport {
    /// Whether the PDF export runs on `signal`.
    pub fn needs_run(signal: CompileSignal, doc_has_title: Option<bool>, config: &ExportPdfTask) -> (res: bool)
        ensures
            res == spec_export_needs_run(signal, config.export.when, doc_has_title),
    {
        ExportTimings::export_needs_run(signal, config.export.when, doc_has_title)
    }

    /// Exports `doc` as PDF stamped with `now` or the configured creation
    /// time: the configured time when there is one, `now` otherwise (`None`
    /// for a clock that could not be read).
    pub fn run_with_now(doc: &PagedDocument, config: &ExportPdfTask, now: Option<UtcDateTime>) -> (res: Result<Result<Vec<u8>, Vec<SourceDiagnostic>>, ExportError>)
        ensures
            res == spec_pdf_run(*doc, config.creation_timestamp, now),
    {
        let creation = match config.creation_timestamp {
            Some(seconds) => match convert_source_date_epoch(seconds) {
                Ok(d) => d,
                Err(_) => {
                    return Err(ExportError::CreationTimestamp);
                },
            },
            None => match now {
                Some(d) => d,
                None => {
                    return Err(ExportError::Clock);
                },
            },
        };
        match convert_datetime(creation) {
            Some(timestamp) => Ok(typst_pdf(doc, Some(timestamp))),
            None => Err(ExportError::UnrepresentableTimestamp),
        }
    }

    /// Exports `doc` as PDF, stamped with the configured creation time, or
    /// the system clock's time when none is configured (the clock is read
    /// only then).
    pub fn run(doc: &PagedDocument, config: &ExportPdfTask) -> (res: Result<Result<Vec<u8>, Vec<SourceDiagnostic>>, ExportError>)
        ensures
            config.creation_timestamp is Some ==> res == spec_pdf_run(*doc, config.creation_timestamp, None),
            config.creation_timestamp is None ==> res == Err::<Result<Vec<u8>, Vec<SourceDiagnostic>>, ExportError>(ExportError::Clock)
                || exists|seconds: i64| res == #[trigger] spec_pdf_run(*doc, None, chrono_utc_from_timestamp(seconds)),
    {
        let now = match config.creation_timestamp {
            Some(_) => None,
            None => match clock_seconds() {
                Some(seconds) => utc_from_timestamp(seconds),
                None => None,
            },
        };
        Self::run_with_now(doc, config, now)
    }
}

/// What an image export renders.
#[derive(Clone, Copy, Debug, PartialEq, Eq, Structural)]
pub enum RenderTarget {
    /// The first page alone.
    FirstPage,
    /// All pages, merged into one image.
    Merged,
}

impl RenderTarget {
    /// The first page alone when the selection asks for it and the document
    /// has one; all pages merged otherwise (also for an empty document).
    pub open spec fn spec_select(is_first: bool, has_first_page: bool) -> RenderTarget {
        if is_first && has_first_page {
            RenderTarget::FirstPage
        } else {
            RenderTarget::Merged
        }
    }

    /// What to render, from the page selection and whether the document
    /// has a first page.
    pub fn select(is_first: bool, has_first_page: bool) -> (res: RenderTarget)
        ensures
            res == Self::spec_select(is_first, has_first_page),
    {
        if is_first && has_first_page {
            RenderTarget::FirstPage
        } else {
            RenderTarget::Merged
        }
    }
}

/// The SVG export of `doc` with page selection `sel`: the first page alone
/// when it is selected and exists, else all pages merged at the selected gap.
pub open spec fn spec_svg(doc: PagedDocument, sel: PageSelection) -> String {
    if sel.is_first && first_page_of(doc) is Some {
        typst_svg_of_page(first_page_of(doc)->Some_0)
    } else {
        typst_svg_of_document(doc, typst_gap_abs(sel.gap))
    }
}

/// The SVG and PNG exports merge pages at the same gap: the typst length
/// of the selected gap, with its own unit, the one that
/// `get_page_selection` and `PngExport::prepare` give.
pub proof fn lemma_svg_merges_at_selected_gap(doc: PagedDocument, sel: PageSelection, l: GapLength)
    requires
        sel.gap == Some(l),
        !sel.is_first,
    ensures
        spec_svg(doc, sel) == typst_svg_of_document(doc, typst_gap_abs(Some(l))),
{
}

impl SvgExport {
    /// Whether the SVG export runs on `signal`.
    pub fn needs_run(signal: CompileSignal, doc_has_title: Option<bool>, config: &ExportSvgTask) -> (res: bool)
        ensures
            res == spec_export_needs_run(signal, config.export.when, doc_has_title),
    {
        ExportTimings::export_needs_run(signal, config.export.when, doc_has_title)
    }

    /// Exports `doc` as SVG: the first page alone when the task selects it
    /// and the document has one, else all pages merged, the selected gap
    /// apart.
    pub fn run(doc: &PagedDocument, config: &ExportSvgTask) -> (res: Result<String, ExportError>)
        ensures
            spec_page_selection(config.export.transform@) matches Ok(sel) ==> res == Ok::<String, ExportError>(
                spec_svg(*doc, sel),
            ),
            spec_page_selection(config.export.transform@) matches Ok(sel) ==> {
                &&& (sel.is_first && first_page_of(*doc) is Some) ==> res == Ok::<String, ExportError>(
                    typst_svg_of_page(first_page_of(*doc)->Some_0),
                )
                &&& !(sel.is_first && first_page_of(*doc) is Some) ==> res == Ok::<String, ExportError>(
                    typst_svg_of_document(*doc, typst_gap_abs(sel.gap)),
                )
            },
            res is Ok <==> spec_page_selection(config.export.transform@) is Ok,
            res matches Err(e) ==> spec_page_selection(config.export.transform@) matches Err(le)
                && e == ExportError::Gap(le),
    {
        let (is_first, merged_gap) = match get_page_selection(&config.export) {
            Ok(sel) => sel,
            Err(e) => {
                return Err(ExportError::Gap(e));
            },
        };
        let first = first_page(doc);
        match (RenderTarget::select(is_first, first.is_some()), first) {
            (RenderTarget::FirstPage, Some(page)) => Ok(typst_svg_page(page)),
            _ => Ok(typst_svg_merged(doc, merged_gap)),
        }
    }
}

/// What the PNG renderer is told, besides the pixels per inch.
pub struct PngSettings {
    /// The background fill.
    pub fill: Color,
    /// Render the first page alone.
    pub is_first: bool,
    /// The gap between merged pages.
    pub merged_gap: Abs,
}

/// A missing fill means white: no fill and the fill `"white"` are both
/// accepted and give the same fill color.
pub proof fn lemma_missing_fill_is_white(white: String)
    requires
        white@ == "white"@,
    ensures
        spec_fill_ok(white@),
        spec_png_fill(None) == spec_png_fill(Some(white)),
{
    reveal_strlit("white");
    reveal_strlit("black");
    assert(white@[0] != "black"@[0]);
    assert(spec_named_color(white@) == Some(NamedColor::White));
}

/// The fill of a PNG export that accepts its fill: the parsed color, white
/// when none is given.
pub open spec fn spec_png_fill(fill: Option<String>) -> Color {
    match fill {
        Some(f) => spec_fill_color(f@),
        None => named_color_value(NamedColor::White),
    }
}

impl PngExport {
    /// Prepares a PNG export: reads the fill (white when none is given),
    /// then the page selection. The pixels per inch, a float, are the
    /// caller's to check and use.
    pub fn prepare(config: &ExportPngTask) -> (res: Result<PngSettings, ExportError>)
        ensures
            res is Ok <==> (config.fill matches Some(f) ==> spec_fill_ok(f@))
                && spec_page_selection(config.export.transform@) is Ok,
            config.fill matches Some(f) && !spec_fill_ok(f@) ==> res matches Err(ExportError::Fill(_)),
            config.fill matches Some(f) && spec_named_color(f@) is None && !is_hex_fill(f@) ==> res
                == Err::<PngSettings, ExportError>(ExportError::Fill(ColorError::InvalidColor)),
            config.fill matches Some(f) ==> (spec_named_color(f@) is None && is_hex_fill(f@)
                && !hex_color_ok(f@.subrange(1, f@.len() as int)) ==> (res matches Err(
                ExportError::Fill(ColorError::InvalidHex(m)),
            ) && m@ == hex_color_error(f@.subrange(1, f@.len() as int)))),
            (config.fill matches Some(f) ==> spec_fill_ok(f@)) ==> match spec_page_selection(config.export.transform@) {
                Err(le) => res == Err::<PngSettings, ExportError>(ExportError::Gap(le)),
                Ok(sel) => res matches Ok(s) && s.is_first == sel.is_first
                    && s.merged_gap == typst_gap_abs(sel.gap) && s.fill == spec_png_fill(config.fill),
            },
    {
        let fill = match &config.fill {
            Some(f) => match parse_color(f.clone()) {
                Ok(c) => c,
                Err(e) => {
                    return Err(ExportError::Fill(e));
                },
            },
            None => named_color(NamedColor::White),
        };
        match get_page_selection(&config.export) {
            Ok((is_first, merged_gap)) => Ok(PngSettings { fill, is_first, merged_gap }),
            Err(e) => Err(ExportError::Gap(e)),
        }
    }

    /// Whether the PNG export runs on `signal`.
    pub fn needs_run(signal: CompileSignal, doc_has_title: Option<bool>, config: &ExportPngTask) -> (res: bool)
        ensures
            res == spec_export_needs_run(signal, config.export.when, doc_has_title),
    {
        ExportTimings::export_needs_run(signal, config.export.when, doc_has_title)
    }
}

impl HtmlExport {
    /// Whether the HTML export runs on `signal`.
    pub fn needs_run(signal: CompileSignal, doc_has_title: Option<bool>, config: &ExportHtmlTask) -> (res: bool)
        ensures
            res == spec_export_needs_run(signal, config.export.when, doc_has_title),
    {
        ExportTimings::export_needs_run(signal, config.export.when, doc_has_title)
    }

    /// Exports `doc` as HTML.
    pub fn run(doc: &HtmlDocument) -> (res: Result<String, Vec<SourceDiagnostic>>)
        ensures
            res == typst_html_output(*doc),
    {
        typst_html(doc)
    }
}

} // verus!
