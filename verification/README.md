# tinymist_task

Verified export logic for typst documents, written in Verus.

- `src/timing.rs`: when an export task runs (`TaskWhen`, `CompileSignal`,
  `ExportTimings::needs_run`) and the laws of that decision.
- `src/transform.rs`: export transforms and the page selection of image
  exports (`get_page_selection`), with laws on first-page and merge transforms.
- `src/length.rs`: reading the merge gap as typst code: a mirror of typst's
  syntax tree, its pre-order `descendants`, and `parse_length`.
- `src/color.rs`: fill colors (`parse_color`).
- `src/datetime.rs`: creation timestamps (`convert_source_date_epoch`,
  `convert_datetime`).
- `src/compute.rs`: the PDF, SVG, PNG and HTML exports.
- `src/project.rs`: project-level decisions (`preconfig_timings`, where the
  output of a project's export task is written, the Markdown export, and
  when the text export runs).
- `app/lib.rs`: what the library cannot hold: PNG rendering (its scale is a
  float), writing output files, error messages.
