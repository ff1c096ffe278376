//! The transforms that an export task applies, and the page selection that
//! the image exporters read from them.

use vstd::prelude::*;
use typst::layout::Abs;
use crate::length::{
    abs_zero, length_literal, parse_code_tree, spec_gap_length, typst_gap_abs, GapLength, LengthError,
};
use crate::timing::TaskWhen;

verus! {

/// A range of pages, both ends inclusive and counted from 1; `None` leaves
/// that end open.
#[derive(Clone, Copy, Debug, PartialEq, Eq, Structural)]
pub struct Pages {
    pub start: Option<usize>,
    pub end: Option<usize>,
}

impl Pages {
    /// The range that holds the first page only.
    pub open spec fn spec_first() -> Pages {
        Pages { start: Some(1), end: Some(1) }
    }

    /// The range that holds the first page only.
    pub fn first() -> (p: Pages)
        ensures
            p == Self::spec_first(),
    {
        Pages { start: Some(1), end: Some(1) }
    }
}

/// A transform applied to an export.
#[derive(Debug)]
pub enum ExportTransform {
    /// Export only the given page ranges.
    Pages { ranges: Vec<Pages> },
    /// Merge the pages into one image, `gap` (typst code of a length) apart.
    Merge { gap: Option<String> },
    /// Transform the output with a script.
    Script { script: Option<String> },
    /// Pretty-print the output, optionally with a script.
    Pretty { script: Option<String> },
}

/// The settings that all export tasks share.
#[derive(Debug)]
pub struct ExportTask {
    /// When the task runs.
    pub when: TaskWhen,
    /// The transforms, in the order they were given.
    pub transform: Vec<ExportTransform>,
}

/// Which pages an image export renders.
#[derive(Clone, Copy, Debug)]
pub struct PageSelection {
    /// Only the first page is rendered.
    pub is_first: bool,
    /// The gap between merged pages; `None` is the zero gap.
    pub gap: Option<GapLength>,
}

/// `t` asks for exactly the first page.
pub open spec fn selects_first_page(t: ExportTransform) -> bool {
    match t {
        ExportTransform::Pages { ranges } => ranges@ == seq![Pages::spec_first()],
        _ => false,
    }
}

/// Some transform asks for exactly the first page.
pub open spec fn spec_is_first(ts: Seq<ExportTransform>) -> bool {
    exists|i: int| 0 <= i < ts.len() && #[trigger] selects_first_page(ts[i])
}

/// The merge gap after the first `k` transforms: each merge transform sets
/// it, an absent gap to zero (`None`); the first gap that is not a length
/// is the error.
pub open spec fn gap_upto(ts: Seq<ExportTransform>, k: int) -> Result<Option<GapLength>, LengthError>
    decreases k,
{
    if k <= 0 {
        Ok(None)
    } else {
        match gap_upto(ts, k - 1) {
            Err(e) => Err(e),
            Ok(g) => match ts[k - 1] {
                ExportTransform::Merge { gap: Some(s) } => match spec_gap_length(s@) {
                    Ok(l) => Ok(Some(l)),
                    Err(e) => Err(e),
                },
                ExportTransform::Merge { gap: None } => Ok(None),
                _ => Ok(g),
            },
        }
    }
}

/// The page selection of a task with transforms `ts`: the first page alone
/// with a zero gap, or all pages merged with the gap of the last merge
/// transform.
pub open spec fn spec_page_selection(ts: Seq<ExportTransform>) -> Result<PageSelection, LengthError> {
    if spec_is_first(ts) {
        Ok(PageSelection { is_first: true, gap: None })
    } else {
        match gap_upto(ts, ts.len() as int) {
            Ok(g) => Ok(PageSelection { is_first: false, gap: g }),
            Err(e) => Err(e),
        }
    }
}

/// Once a gap fails to parse, later transforms keep that error.
proof fn lemma_gap_error_persists(ts: Seq<ExportTransform>, k: int, m: int)
    requires
        0 <= k <= m,
        gap_upto(ts, k) is Err,
    ensures
        gap_upto(ts, m) == gap_upto(ts, k),
    decreases m - k,
{
    if k < m {
        lemma_gap_error_persists(ts, k, m - 1);
    }
}

/// Whether some transform of `task` asks for exactly the first page.
pub fn selects_first(task: &ExportTask) -> (res: bool)
    ensures
        res == spec_is_first(task.transform@),
{
    let n: usize = task.transform.len();
    let mut i: usize = 0;
    while i < n
        invariant
            n == task.transform@.len(),
            i <= n,
            forall|j: int| 0 <= j < i ==> !#[trigger] selects_first_page(task.transform@[j]),
        decreases n - i,
    {
        match &task.transform[i] {
            ExportTransform::Pages { ranges } => {
                if ranges.len() == 1 && ranges[0] == Pages::first() {
                    assert(ranges@ =~= seq![Pages::spec_first()]);
                    assert(selects_first_page(task.transform@[i as int]));
                    return true;
                }
                assert(ranges@ != seq![Pages::spec_first()]) by {
                    if ranges@ == seq![Pages::spec_first()] {
                        assert(ranges@[0] == Pages::spec_first());
                    }
                }
            },
            _ => {},
        }
        i = i + 1;
    }
    false
}

/// The page selection of `task`: the first page alone when a pages
/// transform asks for exactly the first page, otherwise all pages, merged
/// with the gap of the last merge transform (zero when it gives none).
pub fn select_pages(task: &ExportTask) -> (res: Result<PageSelection, LengthError>)
    ensures
        res == spec_page_selection(task.transform@),
{
    if selects_first(task) {
        return Ok(PageSelection { is_first: true, gap: None });
    }
    let ghost ts = task.transform@;
    let n: usize = task.transform.len();
    let mut gap: Option<GapLength> = None;
    let mut i: usize = 0;
    while i < n
        invariant
            n == ts.len(),
            ts == task.transform@,
            !spec_is_first(ts),
            i <= n,
            gap_upto(ts, i as int) == Ok::<Option<GapLength>, LengthError>(gap),
        decreases n - i,
    {
        match &task.transform[i] {
            ExportTransform::Merge { gap: merge_gap } => match merge_gap {
                Some(s) => {
                    let tree = parse_code_tree(s.as_str());
                    match length_literal(&tree) {
                        Ok(l) => {
                            gap = Some(l);
                        },
                        Err(e) => {
                            proof {
                                assert(spec_gap_length(s@) == Err::<GapLength, LengthError>(e));
                                assert(gap_upto(ts, i + 1) == Err::<Option<GapLength>, LengthError>(e));
                                lemma_gap_error_persists(ts, i + 1, n as int);
                            }
                            return Err(e);
                        },
                    }
                },
                None => {
                    gap = None;
                },
            },
            _ => {},
        }
        i = i + 1;
    }
    Ok(PageSelection { is_first: false, gap })
}

/// Gets the legacy page selection of an export task: whether only the
/// first page is exported, and the gap between merged pages.
pub fn get_page_selection(task: &ExportTask) -> (res: Result<(bool, Abs), LengthError>)
    ensures
        res is Ok <==> spec_page_selection(task.transform@) is Ok,
        res matches Ok((first, _)) ==> first == spec_is_first(task.transform@),
        res matches Err(e) ==> spec_page_selection(task.transform@) == Err::<PageSelection, LengthError>(e),
        res matches Ok((_, gap)) ==> spec_page_selection(task.transform@) matches Ok(sel)
            && gap == typst_gap_abs(sel.gap),
{
    match select_pages(task) {
        Ok(sel) => {
            let gap = match sel.gap {
                Some(l) => l.to_abs(),
                None => abs_zero(),
            };
            Ok((sel.is_first, gap))
        },
        Err(e) => Err(e),
    }
}

/// The gap after a prefix of the transforms does not depend on what follows.
proof fn lemma_gap_prefix(ts: Seq<ExportTransform>, t: ExportTransform, k: int)
    requires
        0 <= k <= ts.len(),
    ensures
        gap_upto(ts.push(t), k) == gap_upto(ts, k),
    decreases k,
{
    if k > 0 {
        lemma_gap_prefix(ts, t, k - 1);
        assert(ts.push(t)[k - 1] == ts[k - 1]);
    }
}

/// When a transform asks for exactly the first page, the first page alone is
/// exported with a zero gap; merge transforms are not read at all, so a gap
/// that is not a length does no harm.
pub proof fn lemma_first_page_ignores_merge(ts: Seq<ExportTransform>)
    requires
        spec_is_first(ts),
    ensures
        spec_page_selection(ts) == Ok::<PageSelection, LengthError>(PageSelection { is_first: true, gap: None }),
{
}

/// Script and pretty-printing transforms leave the page selection as it is.
pub proof fn lemma_other_transforms_keep_selection(ts: Seq<ExportTransform>, t: ExportTransform)
    requires
        t is Script || t is Pretty,
    ensures
        spec_page_selection(ts.push(t)) == spec_page_selection(ts),
{
    lemma_gap_prefix(ts, t, ts.len() as int);
    assert(!selects_first_page(t));
    if spec_is_first(ts) {
        let i = choose|i: int| 0 <= i < ts.len() && #[trigger] selects_first_page(ts[i]);
        assert(ts.push(t)[i] == ts[i]);
    }
    if spec_is_first(ts.push(t)) {
        let i = choose|i: int| 0 <= i < ts.push(t).len() && #[trigger] selects_first_page(ts.push(t)[i]);
        assert(i < ts.len());
        assert(ts.push(t)[i] == ts[i]);
    }
}

/// Only merge transforms change the gap: a transform that is not a merge
/// leaves the gap (or the error) of the transforms before it as it was.
pub proof fn lemma_only_merges_set_gap(ts: Seq<ExportTransform>, k: int)
    requires
        0 <= k < ts.len(),
        !(ts[k] is Merge),
    ensures
        gap_upto(ts, k + 1) == gap_upto(ts, k),
{
}

/// Without merge transforms the gap is zero (`None`), whatever else the
/// transforms hold.
pub proof fn lemma_no_merge_zero_gap(ts: Seq<ExportTransform>)
    requires
        forall|i: int| 0 <= i < ts.len() ==> !(#[trigger] ts[i] is Merge),
    ensures
        gap_upto(ts, ts.len() as int) == Ok::<Option<GapLength>, LengthError>(None),
        !spec_is_first(ts) ==> spec_page_selection(ts) == Ok::<PageSelection, LengthError>(
            PageSelection { is_first: false, gap: None },
        ),
{
    lemma_no_merge_zero_gap_upto(ts, ts.len() as int);
}

proof fn lemma_no_merge_zero_gap_upto(ts: Seq<ExportTransform>, k: int)
    requires
        0 <= k <= ts.len(),
        forall|i: int| 0 <= i < ts.len() ==> !(#[trigger] ts[i] is Merge),
    ensures
        gap_upto(ts, k) == Ok::<Option<GapLength>, LengthError>(None),
    decreases k,
{
    if k > 0 {
        lemma_no_merge_zero_gap_upto(ts, k - 1);
        assert(!(ts[k - 1] is Merge));
    }
}

/// A pages transform that does not ask for exactly the first page leaves
/// the page selection as it is: in particular it does not reset the gap of
/// an earlier merge transform.
pub proof fn lemma_pages_transform_keeps_selection(ts: Seq<ExportTransform>, ranges: Vec<Pages>)
    requires
        ranges@ != seq![Pages::spec_first()],
    ensures
        spec_page_selection(ts.push(ExportTransform::Pages { ranges })) == spec_page_selection(ts),
{
    let t = ExportTransform::Pages { ranges };
    lemma_gap_prefix(ts, t, ts.len() as int);
    assert(!selects_first_page(t));
    assert(ts.push(t)[ts.len() as int] == t);
    if spec_is_first(ts) {
        let i = choose|i: int| 0 <= i < ts.len() && #[trigger] selects_first_page(ts[i]);
        assert(ts.push(t)[i] == ts[i]);
    }
    if spec_is_first(ts.push(t)) {
        let i = choose|i: int| 0 <= i < ts.push(t).len() && #[trigger] selects_first_page(ts.push(t)[i]);
        assert(i < ts.len());
        assert(ts.push(t)[i] == ts[i]);
    }
}

/// The last merge transform decides the gap: appending one to transforms
/// that select no single first page and whose gaps are all lengths gives its
/// gap (zero when it has none), or its error.
pub proof fn lemma_last_merge_wins(ts: Seq<ExportTransform>, gap: Option<String>)
    requires
        !spec_is_first(ts),
        spec_page_selection(ts) is Ok,
    ensures
        spec_page_selection(ts.push(ExportTransform::Merge { gap })) == match gap {
            None => Ok::<PageSelection, LengthError>(PageSelection { is_first: false, gap: None }),
            Some(s) => match spec_gap_length(s@) {
                Ok(l) => Ok::<PageSelection, LengthError>(PageSelection { is_first: false, gap: Some(l) }),
                Err(e) => Err::<PageSelection, LengthError>(e),
            },
        },
{
    let t = ExportTransform::Merge { gap };
    lemma_gap_prefix(ts, t, ts.len() as int);
    assert(!selects_first_page(t));
    if spec_is_first(ts.push(t)) {
        let i = choose|i: int| 0 <= i < ts.push(t).len() && #[trigger] selects_first_page(ts.push(t)[i]);
        assert(i < ts.len());
        assert(ts.push(t)[i] == ts[i]);
    }
    assert(ts.push(t)[ts.len() as int] == t);
}

} // verus!
