use tinymist_task::length::{
    descendants, length_literal, parse_code_tree, parse_length, LengthError, LengthUnit,
    NumericLiteral, NumericUnit, SyntaxTree,
};
use tinymist_task::timing::TaskWhen;
use tinymist_task::transform::{get_page_selection, select_pages, ExportTask, ExportTransform, Pages};
use typst::layout::Abs;
use typst::utils::Scalar;

fn task(transform: Vec<ExportTransform>) -> ExportTask {
    ExportTask { when: TaskWhen::Never, transform }
}

fn merge(gap: Option<&str>) -> ExportTransform {
    ExportTransform::Merge { gap: gap.map(|s| s.to_string()) }
}

#[test]
fn lengths_in_absolute_units() {
    assert_eq!(parse_length("12pt"), Ok(Abs::pt(12.0)));
    assert_eq!(parse_length("3mm"), Ok(Abs::mm(3.0)));
    assert_eq!(parse_length("0.5cm"), Ok(Abs::cm(0.5)));
    assert_eq!(parse_length("1in"), Ok(Abs::inches(1.0)));
}

#[test]
fn first_number_decides() {
    assert_eq!(parse_length("1pt + 2mm"), Ok(Abs::pt(1.0)));
    assert_eq!(parse_length("(2mm)"), Ok(Abs::mm(2.0)));
}

#[test]
fn length_errors() {
    assert_eq!(parse_length("2em"), Err(LengthError::InvalidUnit(NumericUnit::Em)));
    assert_eq!(parse_length("50%"), Err(LengthError::InvalidUnit(NumericUnit::Percent)));
    assert_eq!(parse_length("abc"), Err(LengthError::NotALength));
    assert_eq!(parse_length("12"), Err(LengthError::NotALength));
    assert_eq!(parse_length("(12pt"), Err(LengthError::Invalid));
}

fn leaf(numeric: Option<NumericLiteral>) -> SyntaxTree {
    SyntaxTree { erroneous: false, numeric, children: vec![] }
}

fn lit(v: f64, unit: NumericUnit) -> Option<NumericLiteral> {
    Some(NumericLiteral { value: Scalar::new(v), unit })
}

#[test]
fn descendants_in_preorder() {
    let tree = SyntaxTree {
        erroneous: false,
        numeric: None,
        children: vec![
            SyntaxTree { erroneous: false, numeric: None, children: vec![leaf(lit(1.0, NumericUnit::Fr))] },
            leaf(lit(2.0, NumericUnit::Pt)),
        ],
    };
    let d = descendants(&tree);
    assert_eq!(d.len(), 3);
    assert!(d[0].numeric.is_none());
    assert_eq!(d[1].numeric.unwrap().unit, NumericUnit::Fr);
    assert_eq!(d[2].numeric.unwrap().unit, NumericUnit::Pt);
    // the first numeric literal in pre-order is the `fr` one, so the gap fails
    assert_eq!(length_literal(&tree).err(), Some(LengthError::InvalidUnit(NumericUnit::Fr)));
}

#[test]
fn root_is_not_its_own_descendant() {
    let tree = leaf(lit(1.0, NumericUnit::Pt));
    assert!(descendants(&tree).is_empty());
    assert_eq!(length_literal(&tree).err(), Some(LengthError::NotALength));
}

#[test]
fn parsed_tree_mirrors_typst() {
    let tree = parse_code_tree("4pt");
    assert!(!tree.erroneous);
    let lit = length_literal(&tree).unwrap();
    assert_eq!(lit.unit, LengthUnit::Pt);
    assert_eq!(lit.value.get(), 4.0);
    assert!(parse_code_tree("(").erroneous);
}

#[test]
fn first_page_selection_ignores_gaps() {
    let t = task(vec![merge(Some("not a length")), ExportTransform::Pages { ranges: vec![Pages::first()] }]);
    assert_eq!(get_page_selection(&t), Ok((true, Abs::zero())));
}

#[test]
fn other_page_ranges_merge() {
    let t = task(vec![
        ExportTransform::Pages { ranges: vec![Pages::first(), Pages { start: Some(2), end: None }] },
        merge(Some("5pt")),
    ]);
    assert_eq!(get_page_selection(&t), Ok((false, Abs::pt(5.0))));
    let t = task(vec![ExportTransform::Pages { ranges: vec![Pages { start: Some(1), end: None }] }]);
    assert_eq!(get_page_selection(&t), Ok((false, Abs::zero())));
}

#[test]
fn last_merge_wins() {
    let t = task(vec![merge(Some("5pt")), merge(Some("2mm"))]);
    assert_eq!(get_page_selection(&t), Ok((false, Abs::mm(2.0))));
    let t = task(vec![merge(Some("5pt")), merge(None)]);
    assert_eq!(get_page_selection(&t), Ok((false, Abs::zero())));
    let t = task(vec![merge(Some("5pt")), ExportTransform::Script { script: None }]);
    assert_eq!(get_page_selection(&t), Ok((false, Abs::pt(5.0))));
}

#[test]
fn first_bad_gap_fails() {
    let t = task(vec![merge(Some("1em")), merge(Some("xyz"))]);
    assert_eq!(get_page_selection(&t), Err(LengthError::InvalidUnit(NumericUnit::Em)));
    let sel = select_pages(&task(vec![merge(Some("3cm"))])).unwrap();
    assert!(!sel.is_first);
    assert_eq!(sel.gap.unwrap().unit, LengthUnit::Cm);
}
