//! Reading a length (the gap between merged pages) out of typst code.

use vstd::prelude::*;
use typst::layout::Abs;
use typst::syntax::ast;
use typst::syntax::SyntaxNode;
use typst::utils::Scalar;

verus! {

/// The unit of a typst numeric literal.
#[derive(Clone, Copy, Debug, PartialEq, Eq, Structural)]
pub enum NumericUnit {
    Pt,
    Mm,
    Cm,
    In,
    Rad,
    Deg,
    Em,
    Fr,
    Percent,
}

/// The units of absolute lengths that a gap may be written in.
#[derive(Clone, Copy, Debug, PartialEq, Eq, Structural)]
pub enum LengthUnit {
    Pt,
    Mm,
    Cm,
    In,
}

/// A numeric literal of typst code: its number and its unit.
#[derive(Clone, Copy, Debug)]
pub struct NumericLiteral {
    pub value: Scalar,
    pub unit: NumericUnit,
}

/// A number in one of the units of absolute length.
#[derive(Clone, Copy, Debug)]
pub struct GapLength {
    pub value: Scalar,
    pub unit: LengthUnit,
}

/// A parsed piece of typst code, as the length reader sees it: whether the
/// node or a node below it holds a syntax error, the numeric literal that
/// the node is (if it is one), and its children in source order.
#[derive(Debug)]
pub struct SyntaxTree {
    pub erroneous: bool,
    pub numeric: Option<NumericLiteral>,
    pub children: Vec<SyntaxTree>,
}

/// Why a gap could not be read as a length.
#[derive(Clone, Copy, Debug, PartialEq, Eq, Structural)]
pub enum LengthError {
    /// The code does not parse.
    Invalid,
    /// The code holds no numeric literal.
    NotALength,
    /// The first numeric literal is not in a unit of absolute length.
    InvalidUnit(NumericUnit),
}

/// The descendants of `t` (without `t` itself) under its first `k`
/// children, in pre-order: each child, then the child's own descendants.
pub open spec fn descendants_upto(t: SyntaxTree, k: int) -> Seq<SyntaxTree>
    decreases t, k,
{
    if k <= 0 || k > t.children@.len() {
        Seq::empty()
    } else {
        let c = t.children@[k - 1];
        descendants_upto(t, k - 1) + seq![c] + descendants_upto(c, c.children@.len() as int)
    }
}

/// All descendants of `t` in pre-order, `t` itself excluded.
pub open spec fn spec_descendants(t: SyntaxTree) -> Seq<SyntaxTree> {
    descendants_upto(t, t.children@.len() as int)
}

/// The first numeric literal among `nodes`.
pub open spec fn first_numeric(nodes: Seq<SyntaxTree>) -> Option<NumericLiteral>
    decreases nodes.len(),
{
    if nodes.len() == 0 {
        None
    } else if nodes[0].numeric is Some {
        nodes[0].numeric
    } else {
        first_numeric(nodes.drop_first())
    }
}

/// The unit of absolute length that a numeric unit is, if it is one.
pub open spec fn absolute_unit(unit: NumericUnit) -> Option<LengthUnit> {
    match unit {
        NumericUnit::Pt => Some(LengthUnit::Pt),
        NumericUnit::Mm => Some(LengthUnit::Mm),
        NumericUnit::Cm => Some(LengthUnit::Cm),
        NumericUnit::In => Some(LengthUnit::In),
        _ => None,
    }
}

/// The length that parsed code denotes: the first numeric literal below the
/// root, which must be in a unit of absolute length, in code free of errors.
pub open spec fn spec_length_literal(tree: SyntaxTree) -> Result<GapLength, LengthError> {
    if tree.erroneous {
        Err(LengthError::Invalid)
    } else {
        match first_numeric(spec_descendants(tree)) {
            None => Err(LengthError::NotALength),
            Some(n) => match absolute_unit(n.unit) {
                Some(u) => Ok(GapLength { value: n.value, unit: u }),
                None => Err(LengthError::InvalidUnit(n.unit)),
            },
        }
    }
}

/// All descendants of `node` (the node itself excluded), in pre-order.
pub fn descendants(node: &SyntaxTree) -> (res: Vec<&SyntaxTree>)
    ensures
        res@.map_values(|r: &SyntaxTree| *r) =~= spec_descendants(*node),
    decreases node,
{
    let mut res: Vec<&SyntaxTree> = Vec::new();
    let n: usize = node.children.len();
    let mut i: usize = 0;
    while i < n
        invariant
            n == node.children@.len(),
            i <= n,
            res@.map_values(|r: &SyntaxTree| *r) =~= descendants_upto(*node, i as int),
        decreases n - i,
    {
        let child = &node.children[i];
        proof {
            assert(decreases_to!(node => node.children));
            assert(decreases_to!(node.children => node.children@));
            assert(decreases_to!(node.children@ => node.children@[i as int]));
        }
        let mut sub = descendants(child);
        res.push(child);
        res.append(&mut sub);
        i = i + 1;
    }
    res
}

/// The first numeric literal among `nodes`, as `find_map` over their casts.
fn find_numeric(nodes: &Vec<&SyntaxTree>) -> (res: Option<NumericLiteral>)
    ensures
        res == first_numeric(nodes@.map_values(|r: &SyntaxTree| *r)),
{
    let ghost all = nodes@.map_values(|r: &SyntaxTree| *r);
    assert(all.subrange(0, all.len() as int) =~= all);
    let mut i: usize = 0;
    while i < nodes.len()
        invariant
            i <= nodes@.len(),
            all == nodes@.map_values(|r: &SyntaxTree| *r),
            first_numeric(all) == first_numeric(all.subrange(i as int, all.len() as int)),
        decreases nodes@.len() - i,
    {
        let node: &SyntaxTree = nodes[i];
        proof {
            assert(all.subrange(i as int, all.len() as int).drop_first()
                =~= all.subrange(i + 1, all.len() as int));
        }
        match node.numeric {
            Some(n) => {
                return Some(n);
            },
            None => {},
        }
        i = i + 1;
    }
    None
}

/// The length that parsed gap code denotes: an error if the code holds a
/// syntax error, else the first numeric literal below the root in pre-order,
/// which must be in pt, mm, cm or in.
pub fn length_literal(tree: &SyntaxTree) -> (res: Result<GapLength, LengthError>)
    ensures
        res == spec_length_literal(*tree),
{
    if tree.erroneous {
        return Err(LengthError::Invalid);
    }
    let nodes = descendants(tree);
    let found = find_numeric(&nodes);
    match found {
        None => Err(LengthError::NotALength),
        Some(n) => match n.unit {
            NumericUnit::Pt => Ok(GapLength { value: n.value, unit: LengthUnit::Pt }),
            NumericUnit::Mm => Ok(GapLength { value: n.value, unit: LengthUnit::Mm }),
            NumericUnit::Cm => Ok(GapLength { value: n.value, unit: LengthUnit::Cm }),
            NumericUnit::In => Ok(GapLength { value: n.value, unit: LengthUnit::In }),
            other => Err(LengthError::InvalidUnit(other)),
        },
    }
}

/// What typst's code parser makes of `code`, as a [`SyntaxTree`].
pub uninterp spec fn typst_code_tree(code: Seq<char>) -> SyntaxTree;

/// Parses `code` as typst code with `typst::syntax::parse_code` and mirrors
/// the resulting syntax tree. Trusted: the tree is the parser's result on
/// `code` and nothing else, so equal code gives equal trees.
#[verifier::external_body]
pub fn parse_code_tree(code: &str) -> (tree: SyntaxTree)
    ensures
        tree == typst_code_tree(code@),
{
    mirror_syntax(&typst::syntax::parse_code(code))
}

/// Mirrors a typst syntax node one for one: `SyntaxNode::erroneous`, the
/// number and unit that `ast::Numeric::get` reads from a numeric node, and
/// the mirrored children in order.
#[verifier::external_body]
fn mirror_syntax(node: &SyntaxNode) -> SyntaxTree {
    let numeric = match node.cast::<ast::Numeric>() {
        Some(n) => Some(NumericLiteral { value: Scalar::new(n.get().0), unit: numeric_unit(n.get().1) }),
        None => None,
    };
    SyntaxTree {
        erroneous: node.erroneous(),
        numeric,
        children: node.children().map(mirror_syntax).collect(),
    }
}

/// Converts typst's `ast::Unit` into [`NumericUnit`], variant by variant.
#[verifier::external_body]
fn numeric_unit(unit: ast::Unit) -> NumericUnit {
    match unit {
        ast::Unit::Pt => NumericUnit::Pt,
        ast::Unit::Mm => NumericUnit::Mm,
        ast::Unit::Cm => NumericUnit::Cm,
        ast::Unit::In => NumericUnit::In,
        ast::Unit::Rad => NumericUnit::Rad,
        ast::Unit::Deg => NumericUnit::Deg,
        ast::Unit::Em => NumericUnit::Em,
        ast::Unit::Fr => NumericUnit::Fr,
        ast::Unit::Percent => NumericUnit::Percent,
    }
}

/// The absolute length that typst makes of a gap: `Abs::pt`, `Abs::mm`,
/// `Abs::cm` or `Abs::inches` of the gap's number, by its unit, and
/// `Abs::default()` (the zero length) for no gap.
pub uninterp spec fn typst_gap_abs(gap: Option<GapLength>) -> Abs;

/// `Abs::pt`: the absolute length of `value` points.
#[verifier::external_body]
fn abs_pt(value: Scalar) -> (res: Abs)
    ensures
        res == typst_gap_abs(Some(GapLength { value, unit: LengthUnit::Pt })),
{
    Abs::pt(value.get())
}

/// `Abs::mm`: the absolute length of `value` millimeters.
#[verifier::external_body]
fn abs_mm(value: Scalar) -> (res: Abs)
    ensures
        res == typst_gap_abs(Some(GapLength { value, unit: LengthUnit::Mm })),
{
    Abs::mm(value.get())
}

/// `Abs::cm`: the absolute length of `value` centimeters.
#[verifier::external_body]
fn abs_cm(value: Scalar) -> (res: Abs)
    ensures
        res == typst_gap_abs(Some(GapLength { value, unit: LengthUnit::Cm })),
{
    Abs::cm(value.get())
}

/// `Abs::inches`: the absolute length of `value` inches.
#[verifier::external_body]
fn abs_inches(value: Scalar) -> (res: Abs)
    ensures
        res == typst_gap_abs(Some(GapLength { value, unit: LengthUnit::In })),
{
    Abs::inches(value.get())
}

/// `Abs::default()`: the zero length.
#[verifier::external_body]
pub(crate) fn abs_zero() -> (res: Abs)
    ensures
        res == typst_gap_abs(None),
{
    Abs::default()
}

/// The length that `gap` denotes as typst code.
pub open spec fn spec_gap_length(gap: Seq<char>) -> Result<GapLength, LengthError> {
    spec_length_literal(typst_code_tree(gap))
}

impl GapLength {
    /// The absolute length: the number taken in the unit.
    pub fn to_abs(&self) -> (res: Abs)
        ensures
            res == typst_gap_abs(Some(*self)),
    {
        match self.unit {
            LengthUnit::Pt => abs_pt(self.value),
            LengthUnit::Mm => abs_mm(self.value),
            LengthUnit::Cm => abs_cm(self.value),
            LengthUnit::In => abs_inches(self.value),
        }
    }
}

/// Parses a gap such as `"12pt"` or `"0.5cm"` as typst code and returns the
/// absolute length of its first numeric literal. Fails exactly as
/// [`length_literal`] does on the parsed code.
pub fn parse_length(gap: &str) -> (res: Result<Abs, LengthError>)
    ensures
        res is Ok <==> spec_gap_length(gap@) is Ok,
        res matches Err(e) ==> spec_gap_length(gap@) == Err::<GapLength, LengthError>(e),
        res matches Ok(a) ==> spec_gap_length(gap@) matches Ok(g) && a == typst_gap_abs(Some(g)),
{
    let tree = parse_code_tree(gap);
    match length_literal(&tree) {
        Ok(len) => Ok(len.to_abs()),
        Err(e) => Err(e),
    }
}

} // verus!
