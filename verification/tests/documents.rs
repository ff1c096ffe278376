use tinymist_task::compute::{ExportError, ExportPdfTask, ExportSvgTask, PdfExport, SvgExport};
use tinymist_task::datetime::UtcDateTime;
use tinymist_task::timing::TaskWhen;
use tinymist_task::transform::{ExportTask, ExportTransform, Pages};
use typst::foundations::{Content, Datetime, Smart};
use typst::layout::{Abs, Frame, Page, PagedDocument, Size};
use typst_pdf::{PdfOptions, Timestamp};

fn page(width: f64, height: f64, number: usize) -> Page {
    Page {
        frame: Frame::soft(Size::new(Abs::pt(width), Abs::pt(height))),
        fill: Smart::Auto,
        numbering: None,
        supplement: Content::empty(),
        number,
    }
}

fn two_pages() -> PagedDocument {
    PagedDocument { pages: vec![page(100.0, 50.0, 1), page(80.0, 40.0, 2)], ..Default::default() }
}

fn svg_task(transform: Vec<ExportTransform>) -> ExportSvgTask {
    ExportSvgTask { export: ExportTask { when: TaskWhen::OnSave, transform } }
}

#[test]
fn svg_first_page_alone() {
    let doc = two_pages();
    let config = svg_task(vec![ExportTransform::Pages { ranges: vec![Pages::first()] }]);
    assert_eq!(SvgExport::run(&doc, &config), Ok(typst_svg::svg(&doc.pages[0])));
}

#[test]
fn svg_merged_with_gap() {
    let doc = two_pages();
    let config = svg_task(vec![ExportTransform::Merge { gap: Some("5pt".to_string()) }]);
    let svg = SvgExport::run(&doc, &config).unwrap();
    assert_eq!(svg, typst_svg::svg_merged(&doc, Abs::pt(5.0)));
    assert_ne!(svg, typst_svg::svg_merged(&doc, Abs::zero()));
    let plain = SvgExport::run(&doc, &svg_task(vec![])).unwrap();
    assert_eq!(plain, typst_svg::svg_merged(&doc, Abs::zero()));
}

#[test]
fn pdf_carries_configured_timestamp() {
    let doc = two_pages();
    let config = ExportPdfTask {
        export: ExportTask { when: TaskWhen::OnSave, transform: vec![] },
        creation_timestamp: Some(86_400 + 3_600 + 60 + 1),
    };
    let stamp = Timestamp::new_utc(Datetime::from_ymd_hms(1970, 1, 2, 1, 1, 1).unwrap());
    let expected = typst_pdf::pdf(&doc, &PdfOptions { timestamp: Some(stamp), ..Default::default() })
        .map_err(|d| d.to_vec());
    let got = PdfExport::run(&doc, &config).unwrap();
    assert_eq!(got.is_ok(), expected.is_ok());
    assert_eq!(got.ok(), expected.ok());
}

fn expected_pdf(doc: &PagedDocument, y: i32, mo: u8, d: u8, h: u8, mi: u8, s: u8) -> Result<Vec<u8>, Vec<typst::diag::SourceDiagnostic>> {
    let stamp = Timestamp::new_utc(Datetime::from_ymd_hms(y, mo, d, h, mi, s).unwrap());
    typst_pdf::pdf(doc, &PdfOptions { timestamp: Some(stamp), ..Default::default() }).map_err(|d| d.to_vec())
}

#[test]
fn pdf_stamped_with_clock_reading() {
    let doc = two_pages();
    let config = ExportPdfTask { export: ExportTask { when: TaskWhen::OnSave, transform: vec![] }, creation_timestamp: None };
    let now = UtcDateTime { year: 2024, month: 5, day: 6, hour: 7, minute: 8, second: 9 };
    let got = PdfExport::run_with_now(&doc, &config, Some(now)).unwrap();
    assert_eq!(got.ok(), expected_pdf(&doc, 2024, 5, 6, 7, 8, 9).ok());
    assert!(matches!(PdfExport::run_with_now(&doc, &config, None), Err(ExportError::Clock)));
}

#[test]
fn configured_time_ignores_clock() {
    let doc = two_pages();
    let config = ExportPdfTask { export: ExportTask { when: TaskWhen::OnSave, transform: vec![] }, creation_timestamp: Some(0) };
    let a = PdfExport::run_with_now(&doc, &config, None).unwrap().ok();
    let b = PdfExport::run_with_now(&doc, &config, Some(UtcDateTime { year: 2030, month: 1, day: 1, hour: 0, minute: 0, second: 0 })).unwrap().ok();
    assert_eq!(a, b);
    assert_eq!(a, expected_pdf(&doc, 1970, 1, 1, 0, 0, 0).ok());
}
