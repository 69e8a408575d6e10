use player_core::bounds::calculate_shape_bounds;
use player_core::geometry::{Point, Rectangle};
use player_core::records::{check_pen_in_range, ShapeRecord, StyleChangeData};

fn move_to(x: i32, y: i32) -> ShapeRecord {
    ShapeRecord::StyleChange(StyleChangeData {
        move_to: Some(Point { x, y }),
        fill_style_0: None,
        fill_style_1: None,
        line_style: None,
    })
}

fn line(delta_x: i32, delta_y: i32) -> ShapeRecord {
    ShapeRecord::StraightEdge { delta_x, delta_y }
}

fn bounds_of(records: &[ShapeRecord]) -> Rectangle {
    assert!(check_pen_in_range(records));
    calculate_shape_bounds(records)
}

#[test]
fn no_records_give_the_empty_rectangle() {
    assert_eq!(
        bounds_of(&[]),
        Rectangle { x_min: 0, y_min: 0, x_max: 0, y_max: 0 }
    );
    assert_eq!(bounds_of(&[]), Rectangle::default());
}

#[test]
fn style_change_without_move_touches_nothing() {
    let records = [ShapeRecord::StyleChange(StyleChangeData {
        move_to: None,
        fill_style_0: Some(1),
        fill_style_1: None,
        line_style: Some(2),
    })];
    assert_eq!(bounds_of(&records), Rectangle::default());
}

#[test]
fn closed_square_has_its_own_bounds() {
    let records = [
        move_to(0, 0),
        line(10, 0),
        line(0, 10),
        line(-10, 0),
        line(0, -10),
    ];
    assert_eq!(
        bounds_of(&records),
        Rectangle { x_min: 0, y_min: 0, x_max: 10, y_max: 10 }
    );
}

#[test]
fn a_move_alone_is_a_point() {
    assert_eq!(
        bounds_of(&[move_to(3, -4)]),
        Rectangle { x_min: 3, y_min: -4, x_max: 3, y_max: -4 }
    );
}

#[test]
fn the_origin_counts_only_when_touched() {
    // The pen starts at the origin, but the first point it touches is (5, 7).
    assert_eq!(
        bounds_of(&[line(5, 7)]),
        Rectangle { x_min: 5, y_min: 7, x_max: 5, y_max: 7 }
    );
}

#[test]
fn curve_bounds_include_the_control_point() {
    let records = [
        move_to(0, 0),
        ShapeRecord::CurvedEdge {
            control_delta_x: 5,
            control_delta_y: 5,
            anchor_delta_x: 5,
            anchor_delta_y: -5,
        },
    ];
    assert_eq!(
        bounds_of(&records),
        Rectangle { x_min: 0, y_min: 0, x_max: 10, y_max: 5 }
    );
}

#[test]
fn curve_control_point_can_be_the_only_extreme() {
    let records = [ShapeRecord::CurvedEdge {
        control_delta_x: -20,
        control_delta_y: 30,
        anchor_delta_x: 25,
        anchor_delta_y: -40,
    }];
    // control (-20, 30), anchor (5, -10)
    assert_eq!(
        bounds_of(&records),
        Rectangle { x_min: -20, y_min: -10, x_max: 5, y_max: 30 }
    );
}

#[test]
fn a_move_is_absolute_and_edges_are_relative() {
    let records = [move_to(100, 100), line(-30, 5), move_to(-7, 2), line(1, 1)];
    // touched: (100,100), (70,105), (-7,2), (-6,3)
    assert_eq!(
        bounds_of(&records),
        Rectangle { x_min: -7, y_min: 2, x_max: 100, y_max: 105 }
    );
}

#[test]
fn bounds_are_ordered_or_empty() {
    let shapes: Vec<Vec<ShapeRecord>> = vec![
        vec![],
        vec![move_to(-5, -5)],
        vec![line(-1, -1), line(-1, 3)],
        vec![move_to(9, 9), line(-20, 0), move_to(0, 40)],
    ];
    for records in shapes {
        let b = bounds_of(&records);
        assert!(b == Rectangle::default() || (b.x_min <= b.x_max && b.y_min <= b.y_max));
    }
}

#[test]
fn extreme_coordinates_that_fit_are_accepted() {
    let records = [move_to(i32::MAX, i32::MIN), line(-1, 1)];
    assert!(check_pen_in_range(&records));
    assert_eq!(
        calculate_shape_bounds(&records),
        Rectangle {
            x_min: i32::MAX - 1,
            y_min: i32::MIN,
            x_max: i32::MAX,
            y_max: i32::MIN + 1
        }
    );
}

#[test]
fn a_pen_that_leaves_the_range_is_detected() {
    assert!(!check_pen_in_range(&[move_to(i32::MAX, 0), line(1, 0)]));
    assert!(!check_pen_in_range(&[move_to(0, i32::MIN), line(0, -1)]));
    // The control point leaves the range although the anchor comes back.
    assert!(!check_pen_in_range(&[
        move_to(i32::MAX, 0),
        ShapeRecord::CurvedEdge {
            control_delta_x: 1,
            control_delta_y: 0,
            anchor_delta_x: -1,
            anchor_delta_y: 0,
        },
    ]));
    // A move brings the pen back before the next edge.
    assert!(check_pen_in_range(&[
        move_to(i32::MAX, 0),
        move_to(0, 0),
        line(1, 0)
    ]));
}
