//! The records of a shape, and the walk of the pen over them.
//!
//! A shape is a flat sequence of records. A style change may pick new styles
//! for the two fill sides and the stroke, and may lift the pen to another
//! position. An edge record moves the pen by its deltas, drawing on the way.
//! The pen starts at the origin.

use vstd::prelude::*;
use crate::geometry::Point;

verus! {

/// What a style change record carries. An absent style index leaves no style
/// selected for that role; index 0 selects none either.
#[derive(Clone, Copy, Debug, PartialEq, Eq)]
pub struct StyleChangeData {
    /// Where the pen is set down again, if it is lifted.
    pub move_to: Option<Point>,
    /// The fill on the negative side of the pen, counted from 1.
    pub fill_style_0: Option<u32>,
    /// The fill on the positive side of the pen, counted from 1.
    pub fill_style_1: Option<u32>,
    /// The stroke, counted from 1.
    pub line_style: Option<u32>,
}

/// One record of a shape.
#[derive(Clone, Copy, Debug, PartialEq, Eq)]
pub enum ShapeRecord {
    StyleChange(StyleChangeData),
    StraightEdge { delta_x: i32, delta_y: i32 },
    CurvedEdge {
        control_delta_x: i32,
        control_delta_y: i32,
        anchor_delta_x: i32,
        anchor_delta_y: i32,
    },
}

/// A position of the pen before it is known to fit the machine's integers.
pub struct Pen {
    pub x: int,
    pub y: int,
}

impl Pen {
    /// Where the pen stands before the first record.
    pub open spec fn origin() -> Pen {
        Pen { x: 0, y: 0 }
    }

    /// Both coordinates can be held in a `Point`.
    pub open spec fn fits(self) -> bool {
        i32::MIN <= self.x <= i32::MAX && i32::MIN <= self.y <= i32::MAX
    }

    /// The position of the point `p`.
    pub open spec fn of(p: Point) -> Pen {
        Pen { x: p.x as int, y: p.y as int }
    }

    /// The point with these coordinates; meaningful where `fits` holds.
    pub open spec fn point(self) -> Point {
        Point { x: self.x as i32, y: self.y as i32 }
    }
}

impl ShapeRecord {
    /// The control point of a curve drawn from `pen`: the pen moved by the
    /// first pair of deltas. For the other records, `pen` itself.
    pub open spec fn control_from(self, pen: Pen) -> Pen {
        match self {
            ShapeRecord::CurvedEdge { control_delta_x, control_delta_y, .. } => Pen {
                x: pen.x + control_delta_x,
                y: pen.y + control_delta_y,
            },
            _ => pen,
        }
    }

    /// Where the pen stands after this record, having stood at `pen` before it.
    /// A lifted pen is set down at the position the record gives; a straight
    /// edge adds its deltas; a curve adds its control deltas and then its
    /// anchor deltas.
    pub open spec fn advance(self, pen: Pen) -> Pen {
        match self {
            ShapeRecord::StyleChange(change) => match change.move_to {
                Some(target) => Pen::of(target),
                None => pen,
            },
            ShapeRecord::StraightEdge { delta_x, delta_y } => Pen {
                x: pen.x + delta_x,
                y: pen.y + delta_y,
            },
            ShapeRecord::CurvedEdge { anchor_delta_x, anchor_delta_y, .. } => Pen {
                x: self.control_from(pen).x + anchor_delta_x,
                y: self.control_from(pen).y + anchor_delta_y,
            },
        }
    }

    /// The points this record touches when the pen stands at `pen`: the target
    /// of a move, the end of a straight edge, the control point and then the
    /// anchor of a curve. A style change that leaves the pen down touches none.
    pub open spec fn touched_from(self, pen: Pen) -> Seq<Pen> {
        match self {
            ShapeRecord::StyleChange(change) => match change.move_to {
                Some(target) => seq![Pen::of(target)],
                None => Seq::empty(),
            },
            ShapeRecord::StraightEdge { .. } => seq![self.advance(pen)],
            ShapeRecord::CurvedEdge { .. } => seq![self.control_from(pen), self.advance(pen)],
        }
    }

    /// Every point this record touches from `pen` fits the machine's integers.
    pub open spec fn fits_from(self, pen: Pen) -> bool {
        self.control_from(pen).fits() && self.advance(pen).fits()
    }
}

/// Where the pen stands after all of `records`, having stood at `pen` before
/// the first of them.
pub open spec fn pen_after_from(pen: Pen, records: Seq<ShapeRecord>) -> Pen
    decreases records.len(),
{
    if records.len() == 0 {
        pen
    } else {
        pen_after_from(records.first().advance(pen), records.drop_first())
    }
}

/// Every point the pen touches over `records`, in the order it touches them,
/// having stood at `pen` before the first of them.
pub open spec fn touched_from(pen: Pen, records: Seq<ShapeRecord>) -> Seq<Pen>
    decreases records.len(),
{
    if records.len() == 0 {
        Seq::empty()
    } else {
        records.first().touched_from(pen) + touched_from(
            records.first().advance(pen),
            records.drop_first(),
        )
    }
}

/// The pen never leaves the range of the machine's integers over `records`,
/// having stood at `pen` before the first of them.
pub open spec fn pen_in_range_from(pen: Pen, records: Seq<ShapeRecord>) -> bool
    decreases records.len(),
{
    records.len() == 0 || (records.first().fits_from(pen) && pen_in_range_from(
        records.first().advance(pen),
        records.drop_first(),
    ))
}

/// Every point the pen touches over `records`, starting at the origin.
pub open spec fn touched(records: Seq<ShapeRecord>) -> Seq<Pen> {
    touched_from(Pen::origin(), records)
}

/// The pen, starting at the origin, never leaves the range of the machine's
/// integers over `records`.
pub open spec fn pen_in_range(records: Seq<ShapeRecord>) -> bool {
    pen_in_range_from(Pen::origin(), records)
}

/// Tells whether the pen, starting at the origin, stays within the machine's
/// integers over `records`.
pub fn check_pen_in_range(records: &[ShapeRecord]) -> (ok: bool)
    ensures
        ok == pen_in_range(records@),
{
    let mut x: i32 = 0;
    let mut y: i32 = 0;
    let mut i: usize = 0;
    proof {
        assert(records@.skip(0) =~= records@);
    }
    while i < records.len()
        invariant
            0 <= i <= records.len(),
            pen_in_range(records@) == pen_in_range_from(
                Pen { x: x as int, y: y as int },
                records@.skip(i as int),
            ),
        decreases records.len() - i,
    {
        proof {
            assert(records@.skip(i as int).first() == records@[i as int]);
            assert(records@.skip(i as int).drop_first() =~= records@.skip(i as int + 1));
        }
        let next = match records[i] {
            ShapeRecord::StyleChange(change) => match change.move_to {
                Some(target) => Some((target.x, target.y)),
                None => Some((x, y)),
            },
            ShapeRecord::StraightEdge { delta_x, delta_y } => match (
                x.checked_add(delta_x),
                y.checked_add(delta_y),
            ) {
                (Some(nx), Some(ny)) => Some((nx, ny)),
                _ => None,
            },
            ShapeRecord::CurvedEdge {
                control_delta_x,
                control_delta_y,
                anchor_delta_x,
                anchor_delta_y,
            } => match (x.checked_add(control_delta_x), y.checked_add(control_delta_y)) {
                (Some(cx), Some(cy)) => match (
                    cx.checked_add(anchor_delta_x),
                    cy.checked_add(anchor_delta_y),
                ) {
                    (Some(nx), Some(ny)) => Some((nx, ny)),
                    _ => None,
                },
                _ => None,
            },
        };
        match next {
            Some((nx, ny)) => {
                x = nx;
                y = ny;
            },
            None => {
                return false;
            },
        }
        i = i + 1;
    }
    true
}

} // verus!
