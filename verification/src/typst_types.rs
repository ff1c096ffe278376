//! The typst types that the library carries through its logic. Verus sees
//! none of their contents.

use vstd::prelude::*;

verus! {

/// typst's 64-bit float that implements `Eq`; the number of a numeric literal.
#[verifier::external_type_specification]
#[verifier::external_body]
pub struct ExScalar(typst::utils::Scalar);

/// typst's absolute length.
#[verifier::external_type_specification]
#[verifier::external_body]
pub struct ExAbs(typst::layout::Abs);

/// A node of typst's syntax tree.
#[verifier::external_type_specification]
#[verifier::external_body]
pub struct ExSyntaxNode(typst::syntax::SyntaxNode);

/// The unit of a typst numeric literal.
#[verifier::external_type_specification]
#[verifier::external_body]
pub struct ExUnit(typst::syntax::ast::Unit);

} // verus!
