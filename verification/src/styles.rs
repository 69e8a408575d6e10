//! The style tables of a shape.
//!
//! A path borrows its style from the shape's fill-style or line-style table.
//! The tables belong to the decoded shape and are never changed here; what a
//! style holds is of no concern to the outline, which only carries the
//! reference through to the tessellator.

use vstd::prelude::*;

verus! {

/// The fill styles of `swf`, carried through without looking inside.
#[verifier::external_type_specification]
#[verifier::external_body]
pub struct ExFillStyle(swf::FillStyle);

/// The line styles of `swf`, carried through without looking inside.
#[verifier::external_type_specification]
#[verifier::external_body]
pub struct ExLineStyle(swf::LineStyle);

} // verus!
