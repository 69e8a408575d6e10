//! The rectangle that encloses a shape.

use vstd::prelude::*;
use crate::geometry::Rectangle;
use crate::records::{ShapeRecord, Pen, pen_in_range, pen_in_range_from, touched, touched_from};

verus! {

/// `bounds` is the smallest rectangle that holds every one of `points`, or the
/// empty rectangle where there are no points.
pub open spec fn is_bounds_of(bounds: Rectangle, points: Seq<Pen>) -> bool {
    if points.len() == 0 {
        bounds == Rectangle::empty()
    } else {
        &&& forall|i: int| 0 <= i < points.len() ==> bounds.holds(#[trigger] points[i].x, points[i].y)
        &&& exists|i: int| 0 <= i < points.len() && #[trigger] points[i].x == bounds.x_min
        &&& exists|i: int| 0 <= i < points.len() && #[trigger] points[i].x == bounds.x_max
        &&& exists|i: int| 0 <= i < points.len() && #[trigger] points[i].y == bounds.y_min
        &&& exists|i: int| 0 <= i < points.len() && #[trigger] points[i].y == bounds.y_max
    }
}

/// At most one rectangle is the bounds of given points.
pub proof fn lemma_bounds_unique(a: Rectangle, b: Rectangle, points: Seq<Pen>)
    requires
        is_bounds_of(a, points),
        is_bounds_of(b, points),
    ensures
        a == b,
{
    if points.len() > 0 {
        let a0 = choose|i: int| 0 <= i < points.len() && #[trigger] points[i].x == a.x_min;
        let a1 = choose|i: int| 0 <= i < points.len() && #[trigger] points[i].x == a.x_max;
        let a2 = choose|i: int| 0 <= i < points.len() && #[trigger] points[i].y == a.y_min;
        let a3 = choose|i: int| 0 <= i < points.len() && #[trigger] points[i].y == a.y_max;
        let b0 = choose|i: int| 0 <= i < points.len() && #[trigger] points[i].x == b.x_min;
        let b1 = choose|i: int| 0 <= i < points.len() && #[trigger] points[i].x == b.x_max;
        let b2 = choose|i: int| 0 <= i < points.len() && #[trigger] points[i].y == b.y_min;
        let b3 = choose|i: int| 0 <= i < points.len() && #[trigger] points[i].y == b.y_max;
        assert(b.holds(points[a0].x, points[a0].y) && a.holds(points[b0].x, points[b0].y));
        assert(b.holds(points[a1].x, points[a1].y) && a.holds(points[b1].x, points[b1].y));
        assert(b.holds(points[a2].x, points[a2].y) && a.holds(points[b2].x, points[b2].y));
        assert(b.holds(points[a3].x, points[a3].y) && a.holds(points[b3].x, points[b3].y));
    }
}

/// The bounds of any points are the empty rectangle, or run from their minimum
/// to their maximum along both axes.
pub proof fn lemma_bounds_are_ordered(bounds: Rectangle, points: Seq<Pen>)
    requires
        is_bounds_of(bounds, points),
    ensures
        bounds == Rectangle::empty() || bounds.is_ordered(),
{
    if points.len() > 0 {
        assert(bounds.holds(points[0].x, points[0].y));
    }
}

/// A shape without records has the empty rectangle as its bounds.
pub proof fn lemma_no_records_empty_bounds(bounds: Rectangle)
    requires
        is_bounds_of(bounds, touched(Seq::empty())),
    ensures
        bounds == Rectangle::empty(),
{
}

/// What the search holds after `points`: the sentinel extremes while nothing
/// was seen, the tight rectangle round the points afterwards.
spec fn tracks(bounds: Rectangle, points: Seq<Pen>) -> bool {
    if points.len() == 0 {
        bounds == (Rectangle { x_min: i32::MAX, y_min: i32::MAX, x_max: i32::MIN, y_max: i32::MIN })
    } else {
        is_bounds_of(bounds, points)
    }
}

/// Widens `bounds` just enough to hold the point `(x, y)`.
fn include_point(bounds: &mut Rectangle, x: i32, y: i32, Ghost(points): Ghost<Seq<Pen>>)
    requires
        tracks(*old(bounds), points),
    ensures
        tracks(*final(bounds), points.push(Pen { x: x as int, y: y as int })),
{
    let ghost before = *bounds;
    let ghost after_points = points.push(Pen { x: x as int, y: y as int });
    if x < bounds.x_min {
        bounds.x_min = x;
    }
    if x > bounds.x_max {
        bounds.x_max = x;
    }
    if y < bounds.y_min {
        bounds.y_min = y;
    }
    if y > bounds.y_max {
        bounds.y_max = y;
    }
    proof {
        let last = points.len() as int;
        assert(after_points[last] == Pen { x: x as int, y: y as int });
        assert forall|i: int| 0 <= i < after_points.len() implies bounds.holds(
            #[trigger] after_points[i].x,
            after_points[i].y,
        ) by {
            if i < last {
                assert(after_points[i] == points[i]);
            }
        }
        if points.len() == 0 {
            assert(after_points[last].x == bounds.x_min);
            assert(after_points[last].x == bounds.x_max);
            assert(after_points[last].y == bounds.y_min);
            assert(after_points[last].y == bounds.y_max);
        } else {
            let i0 = choose|i: int| 0 <= i < points.len() && #[trigger] points[i].x == before.x_min;
            let i1 = choose|i: int| 0 <= i < points.len() && #[trigger] points[i].x == before.x_max;
            let i2 = choose|i: int| 0 <= i < points.len() && #[trigger] points[i].y == before.y_min;
            let i3 = choose|i: int| 0 <= i < points.len() && #[trigger] points[i].y == before.y_max;
            let j0 = if bounds.x_min == before.x_min { i0 } else { last };
            let j1 = if bounds.x_max == before.x_max { i1 } else { last };
            let j2 = if bounds.y_min == before.y_min { i2 } else { last };
            let j3 = if bounds.y_max == before.y_max { i3 } else { last };
            assert(after_points[i0] == points[i0]);
            assert(after_points[i1] == points[i1]);
            assert(after_points[i2] == points[i2]);
            assert(after_points[i3] == points[i3]);
            assert(after_points[j0].x == bounds.x_min);
            assert(after_points[j1].x == bounds.x_max);
            assert(after_points[j2].y == bounds.y_min);
            assert(after_points[j3].y == bounds.y_max);
        }
    }
}

/// The rectangle that encloses a shape: the smallest one that holds every
/// point the pen touches over `shape_records`, the control points of curves
/// among them. A shape whose pen touches nothing has the empty rectangle.
pub fn calculate_shape_bounds(shape_records: &[ShapeRecord]) -> (bounds: Rectangle)
    requires
        pen_in_range(shape_records@),
    ensures
        is_bounds_of(bounds, touched(shape_records@)),
        bounds == Rectangle::empty() || bounds.is_ordered(),
{
    let mut bounds = Rectangle {
        x_min: i32::MAX,
        y_min: i32::MAX,
        x_max: i32::MIN,
        y_max: i32::MIN,
    };
    let mut x: i32 = 0;
    let mut y: i32 = 0;
    let mut i: usize = 0;
    let ghost mut seen: Seq<Pen> = Seq::empty();
    proof {
        assert(shape_records@.skip(0) =~= shape_records@);
        assert(seen + touched(shape_records@) =~= touched(shape_records@));
    }
    while i < shape_records.len()
        invariant
            0 <= i <= shape_records.len(),
            pen_in_range_from(Pen { x: x as int, y: y as int }, shape_records@.skip(i as int)),
            seen + touched_from(Pen { x: x as int, y: y as int }, shape_records@.skip(i as int))
                == touched(shape_records@),
            tracks(bounds, seen),
        decreases shape_records.len() - i,
    {
        let ghost rest = shape_records@.skip(i as int);
        let ghost pen = Pen { x: x as int, y: y as int };
        let ghost record = shape_records@[i as int];
        proof {
            assert(rest.first() == record);
            assert(rest.drop_first() =~= shape_records@.skip(i as int + 1));
            assert(touched_from(pen, rest) == record.touched_from(pen) + touched_from(
                record.advance(pen),
                rest.drop_first(),
            ));
        }
        match shape_records[i] {
            ShapeRecord::StyleChange(style_change) => {
                if let Some(target) = style_change.move_to {
                    x = target.x;
                    y = target.y;
                    include_point(&mut bounds, x, y, Ghost(seen));
                }
            },
            ShapeRecord::StraightEdge { delta_x, delta_y } => {
                x = x + delta_x;
                y = y + delta_y;
                include_point(&mut bounds, x, y, Ghost(seen));
            },
            ShapeRecord::CurvedEdge {
                control_delta_x,
                control_delta_y,
                anchor_delta_x,
                anchor_delta_y,
            } => {
                x = x + control_delta_x;
                y = y + control_delta_y;
                include_point(&mut bounds, x, y, Ghost(seen));
                x = x + anchor_delta_x;
                y = y + anchor_delta_y;
                include_point(&mut bounds, x, y, Ghost(seen.push(record.control_from(pen))));
            },
        }
        proof {
            let wider = seen + record.touched_from(pen);
            assert(record.touched_from(pen) =~= match record {
                ShapeRecord::StyleChange(change) => match change.move_to {
                    Some(target) => Seq::<Pen>::empty().push(Pen::of(target)),
                    None => Seq::<Pen>::empty(),
                },
                ShapeRecord::StraightEdge { .. } => Seq::<Pen>::empty().push(record.advance(pen)),
                ShapeRecord::CurvedEdge { .. } => Seq::<Pen>::empty().push(
                    record.control_from(pen),
                ).push(record.advance(pen)),
            });
            assert(wider =~= match record {
                ShapeRecord::StyleChange(change) => match change.move_to {
                    Some(target) => seen.push(Pen::of(target)),
                    None => seen,
                },
                ShapeRecord::StraightEdge { .. } => seen.push(record.advance(pen)),
                ShapeRecord::CurvedEdge { .. } => seen.push(record.control_from(pen)).push(
                    record.advance(pen),
                ),
            });
            assert(wider + touched_from(record.advance(pen), rest.drop_first()) =~= seen
                + touched_from(pen, rest));
            seen = wider;
        }
        i = i + 1;
    }
    proof {
        assert(seen =~= touched(shape_records@));
    }
    if bounds.x_max < bounds.x_min || bounds.y_max < bounds.y_min {
        bounds = Default::default();
    }
    bounds
}

} // verus!
