use tinymist_task::color::{parse_color, ColorError};
use tinymist_task::compute::{
    ExportError, ExportPdfTask, ExportPngTask, ExportSvgTask, PdfExport, PngExport, RenderTarget,
    SvgExport,
};
use tinymist_task::length::LengthError;
use tinymist_task::project::{
    ExportArtifact, ExportKind, MarkdownConversionError, ProjectExport, ProjectTask,
    TypliteMarkdownExport,
};
use tinymist_task::timing::{CompileSignal, TaskWhen};
use tinymist_task::transform::{ExportTask, ExportTransform, Pages};
use typst::layout::{Abs, PagedDocument};
use typst::visualize::Color;

fn export(when: TaskWhen, transform: Vec<ExportTransform>) -> ExportTask {
    ExportTask { when, transform }
}

#[test]
fn export_needs_run_defaults_to_false() {
    let s = CompileSignal { by_entry_update: false, by_mem_events: false, by_fs_events: true };
    let pdf = ExportPdfTask { export: export(TaskWhen::OnDocumentHasTitle, vec![]), creation_timestamp: None };
    assert!(!PdfExport::needs_run(s, None, &pdf));
    assert!(PdfExport::needs_run(s, Some(true), &pdf));
    let svg = ExportSvgTask { export: export(TaskWhen::OnSave, vec![]) };
    assert!(SvgExport::needs_run(s, None, &svg));
}

#[test]
fn pdf_with_out_of_range_timestamp_fails() {
    let doc = PagedDocument::default();
    let config = ExportPdfTask { export: export(TaskWhen::Never, vec![]), creation_timestamp: Some(i64::MAX) };
    assert!(matches!(PdfExport::run(&doc, &config), Err(ExportError::CreationTimestamp)));
}

#[test]
fn pdf_with_far_future_timestamp_is_unrepresentable() {
    let doc = PagedDocument::default();
    // year 10000, beyond the years that typst's dates take
    let config = ExportPdfTask {
        export: export(TaskWhen::Never, vec![]),
        creation_timestamp: Some(253_402_300_800),
    };
    assert!(matches!(PdfExport::run(&doc, &config), Err(ExportError::UnrepresentableTimestamp)));
}

#[test]
fn pdf_export_runs_typst() {
    let doc = PagedDocument::default();
    let config = ExportPdfTask { export: export(TaskWhen::Never, vec![]), creation_timestamp: Some(0) };
    let res = PdfExport::run(&doc, &config);
    assert!(res.is_ok());
    if let Ok(Ok(bytes)) = res {
        assert!(bytes.starts_with(b"%PDF"));
    }
    let now = ExportPdfTask { export: export(TaskWhen::Never, vec![]), creation_timestamp: None };
    assert!(PdfExport::run(&doc, &now).is_ok());
}

#[test]
fn svg_of_empty_document_is_merged() {
    let doc = PagedDocument::default();
    let config = ExportSvgTask { export: export(TaskWhen::Never, vec![ExportTransform::Pages { ranges: vec![Pages::first()] }]) };
    let svg = SvgExport::run(&doc, &config).unwrap();
    assert!(svg.contains("<svg"));
}

#[test]
fn svg_with_bad_gap_fails() {
    let doc = PagedDocument::default();
    let config = ExportSvgTask { export: export(TaskWhen::Never, vec![ExportTransform::Merge { gap: Some("1fr".to_string()) }]) };
    assert!(matches!(SvgExport::run(&doc, &config), Err(ExportError::Gap(LengthError::InvalidUnit(_)))));
}

#[test]
fn png_settings() {
    let config = ExportPngTask { export: export(TaskWhen::Never, vec![ExportTransform::Merge { gap: Some("2pt".to_string()) }]), fill: None };
    let s = PngExport::prepare(&config).unwrap();
    assert_eq!(s.fill, Color::WHITE);
    assert!(!s.is_first);
    assert_eq!(s.merged_gap, Abs::pt(2.0));

    let config = ExportPngTask { export: export(TaskWhen::Never, vec![]), fill: Some("red".to_string()) };
    assert_eq!(PngExport::prepare(&config).unwrap().fill, Color::RED);
}

#[test]
fn png_fill_is_read_before_gap() {
    let config = ExportPngTask {
        export: export(TaskWhen::Never, vec![ExportTransform::Merge { gap: Some("bad".to_string()) }]),
        fill: Some("purple".to_string()),
    };
    assert!(matches!(PngExport::prepare(&config), Err(ExportError::Fill(ColorError::InvalidColor))));
    let config = ExportPngTask {
        export: export(TaskWhen::Never, vec![ExportTransform::Merge { gap: Some("bad".to_string()) }]),
        fill: Some("#000".to_string()),
    };
    assert!(matches!(PngExport::prepare(&config), Err(ExportError::Gap(LengthError::NotALength))));
}

#[test]
fn project_output_is_written_only_on_success() {
    let text = ProjectExport::output_bytes(Some(Ok(ExportArtifact::Text("<svg/>".to_string()))));
    assert_eq!(text.as_ref().map(|r| r.as_ref().ok().cloned()), Some(Some(b"<svg/>".to_vec())));
    let target = ProjectExport::write_target(Some("out.svg".to_string()), text);
    assert_eq!(target, Some(("out.svg".to_string(), b"<svg/>".to_vec())));
    assert_eq!(ProjectExport::write_target(None, Some(Ok(vec![1]))), None);
    assert_eq!(ProjectExport::write_target(Some("x".to_string()), None), None);
    assert_eq!(ProjectExport::write_target(Some("x".to_string()), Some(Err(vec![]))), None);
    assert!(ProjectExport::output_bytes(None).is_none());
}

#[test]
fn project_task_kinds() {
    assert_eq!(ProjectTask::Preview.export_kind(), None);
    assert_eq!(ProjectTask::Query.export_kind(), None);
    let pdf = ProjectTask::ExportPdf(ExportPdfTask { export: export(TaskWhen::Never, vec![]), creation_timestamp: None });
    assert_eq!(pdf.export_kind(), Some(ExportKind::Pdf));
}

#[test]
fn markdown_export() {
    assert_eq!(TypliteMarkdownExport::run(false, Ok("# t".to_string())), Ok(None));
    assert_eq!(TypliteMarkdownExport::run(true, Ok("# t".to_string())).unwrap().unwrap().unwrap(), "# t");
    assert_eq!(
        TypliteMarkdownExport::run(true, Err("boom".to_string())).err(),
        Some(MarkdownConversionError("boom".to_string()))
    );
}

#[test]
fn render_target_selection() {
    assert_eq!(RenderTarget::select(true, true), RenderTarget::FirstPage);
    assert_eq!(RenderTarget::select(true, false), RenderTarget::Merged);
    assert_eq!(RenderTarget::select(false, true), RenderTarget::Merged);
    assert_eq!(RenderTarget::select(false, false), RenderTarget::Merged);
}

#[test]
fn absent_fill_is_white() {
    let none = ExportPngTask { export: export(TaskWhen::Never, vec![]), fill: None };
    let white = ExportPngTask { export: export(TaskWhen::Never, vec![]), fill: Some("white".to_string()) };
    assert_eq!(PngExport::prepare(&none).unwrap().fill, PngExport::prepare(&white).unwrap().fill);
    let hex = ExportPngTask { export: export(TaskWhen::Never, vec![]), fill: Some("#0000ff".to_string()) };
    assert_eq!(PngExport::prepare(&hex).unwrap().fill, Color::from_u8(0, 0, 255, 255));
}

#[test]
fn hex_error_messages() {
    assert_eq!(
        parse_color("#12345".to_string()),
        Err(ColorError::InvalidHex("color string has wrong length".to_string()))
    );
    assert_eq!(
        parse_color("#xyz".to_string()),
        Err(ColorError::InvalidHex("color string contains non-hexadecimal letters".to_string()))
    );
}
