use player_core::bounds::calculate_shape_bounds;
use player_core::draw::{
    check_styles_in_range, swf_shape_to_draws, DrawCommand, Shape, ShapeStyles,
};
use player_core::geometry::{Point, Rectangle};
use player_core::path::Edge;
use player_core::records::{check_pen_in_range, ShapeRecord, StyleChangeData};
use swf::{Color, FillStyle, LineStyle, Twips};

fn pt(x: i32, y: i32) -> Point {
    Point { x, y }
}

fn line_to(x: i32, y: i32) -> Edge {
    Edge::LineTo { x, y }
}

fn line(delta_x: i32, delta_y: i32) -> ShapeRecord {
    ShapeRecord::StraightEdge { delta_x, delta_y }
}

fn styles(
    move_to: Option<(i32, i32)>,
    fill_style_0: Option<u32>,
    fill_style_1: Option<u32>,
    line_style: Option<u32>,
) -> ShapeRecord {
    ShapeRecord::StyleChange(StyleChangeData {
        move_to: move_to.map(|(x, y)| Point { x, y }),
        fill_style_0,
        fill_style_1,
        line_style,
    })
}

fn red() -> FillStyle {
    FillStyle::Color(Color::from_rgb(0xff0000, 255))
}

fn blue() -> FillStyle {
    FillStyle::Color(Color::from_rgb(0x0000ff, 255))
}

fn thin() -> LineStyle {
    LineStyle::new().with_width(Twips::new(20))
}

fn thick() -> LineStyle {
    LineStyle::new().with_width(Twips::new(200))
}

fn shape(records: Vec<ShapeRecord>) -> Shape {
    let shape = Shape {
        styles: ShapeStyles {
            fill_styles: vec![red(), blue()],
            line_styles: vec![thin(), thick()],
        },
        shape: records,
    };
    assert!(shape.check_drawable());
    shape
}

#[test]
fn no_records_no_commands() {
    let shape = shape(vec![]);
    let mut draws = swf_shape_to_draws(&shape);
    assert!(draws.next().is_none());
    assert!(draws.next().is_none());
    assert_eq!(calculate_shape_bounds(&shape.shape), Rectangle::default());
}

#[test]
fn edges_without_a_style_draw_nothing() {
    let shape = shape(vec![line(10, 0), line(0, 10)]);
    assert!(swf_shape_to_draws(&shape).drain().is_empty());
}

#[test]
fn style_zero_opens_no_path() {
    let shape = shape(vec![
        styles(Some((0, 0)), Some(0), Some(0), Some(0)),
        line(10, 0),
    ]);
    assert!(swf_shape_to_draws(&shape).drain().is_empty());
}

#[test]
fn closed_square_is_one_fill() {
    let shape = shape(vec![
        styles(Some((0, 0)), None, Some(1), None),
        line(10, 0),
        line(0, 10),
        line(-10, 0),
        line(0, -10),
    ]);
    let commands = swf_shape_to_draws(&shape).drain();
    assert_eq!(commands.len(), 1);
    match &commands[0] {
        DrawCommand::Fill(path) => {
            assert_eq!(path.start(), pt(0, 0));
            assert_eq!(path.end(), pt(0, 0));
            assert_eq!(path.style_id(), 1);
            assert_eq!(*path.style(), red());
            assert_eq!(
                path.edges(),
                &[line_to(10, 0), line_to(10, 10), line_to(0, 10), line_to(0, 0)]
            );
        }
        DrawCommand::Stroke(_) => panic!("a fill was expected"),
    }
    assert_eq!(
        calculate_shape_bounds(&shape.shape),
        Rectangle { x_min: 0, y_min: 0, x_max: 10, y_max: 10 }
    );
}

#[test]
fn a_curve_becomes_one_curved_edge() {
    let shape = shape(vec![
        styles(Some((0, 0)), None, Some(2), None),
        ShapeRecord::CurvedEdge {
            control_delta_x: 5,
            control_delta_y: 5,
            anchor_delta_x: 5,
            anchor_delta_y: -5,
        },
    ]);
    let commands = swf_shape_to_draws(&shape).drain();
    assert_eq!(commands.len(), 1);
    match &commands[0] {
        DrawCommand::Fill(path) => {
            assert_eq!(path.style_id(), 2);
            assert_eq!(*path.style(), blue());
            assert_eq!(
                path.edges(),
                &[Edge::CurveTo { x1: 5, y1: 5, x2: 10, y2: 0 }]
            );
            assert_eq!(path.start(), pt(0, 0));
            assert_eq!(path.end(), pt(10, 0));
        }
        DrawCommand::Stroke(_) => panic!("a fill was expected"),
    }
    let bounds = calculate_shape_bounds(&shape.shape);
    assert!(bounds.x_min <= 5 && 5 <= bounds.x_max);
    assert!(bounds.y_min <= 5 && 5 <= bounds.y_max);
    assert_eq!(bounds, Rectangle { x_min: 0, y_min: 0, x_max: 10, y_max: 5 });
}

#[test]
fn disjoint_sub_paths_of_one_style_stay_separate() {
    let shape = shape(vec![
        styles(Some((0, 0)), None, Some(1), None),
        line(10, 0),
        line(0, 10),
        styles(Some((100, 100)), None, Some(1), None),
        line(10, 0),
        line(0, 10),
        styles(Some((200, 200)), None, Some(1), None),
        line(10, 0),
    ]);
    let commands = swf_shape_to_draws(&shape).drain();
    assert_eq!(commands.len(), 3);
    let starts: Vec<Point> = commands
        .iter()
        .map(|command| match command {
            DrawCommand::Fill(path) => path.start(),
            DrawCommand::Stroke(_) => panic!("a fill was expected"),
        })
        .collect();
    assert_eq!(starts, vec![pt(0, 0), pt(100, 100), pt(200, 200)]);
    match &commands[1] {
        DrawCommand::Fill(path) => {
            assert_eq!(path.edges(), &[line_to(110, 100), line_to(110, 110)]);
            assert_eq!(path.end(), pt(110, 110));
        }
        DrawCommand::Stroke(_) => panic!("a fill was expected"),
    }
}

#[test]
fn fragments_that_touch_are_joined() {
    // The same fill is selected again without lifting the pen: the second
    // fragment starts where the first one ended.
    let shape = shape(vec![
        styles(Some((0, 0)), None, Some(1), None),
        line(10, 0),
        styles(None, None, Some(1), None),
        line(0, 10),
    ]);
    let commands = swf_shape_to_draws(&shape).drain();
    assert_eq!(commands.len(), 1);
    match &commands[0] {
        DrawCommand::Fill(path) => {
            assert_eq!(path.start(), pt(0, 0));
            assert_eq!(path.end(), pt(10, 10));
            assert_eq!(path.edges(), &[line_to(10, 0), line_to(10, 10)]);
        }
        DrawCommand::Stroke(_) => panic!("a fill was expected"),
    }
}

#[test]
fn touching_fragments_of_different_styles_are_not_joined() {
    let shape = shape(vec![
        styles(Some((0, 0)), None, Some(1), None),
        line(10, 0),
        styles(None, None, Some(2), None),
        line(0, 10),
    ]);
    let commands = swf_shape_to_draws(&shape).drain();
    assert_eq!(commands.len(), 2);
    match (&commands[0], &commands[1]) {
        (DrawCommand::Fill(first), DrawCommand::Fill(second)) => {
            assert_eq!(first.style_id(), 1);
            assert_eq!(first.edges(), &[line_to(10, 0)]);
            assert_eq!(second.style_id(), 2);
            assert_eq!(*second.style(), blue());
            assert_eq!(second.start(), pt(10, 0));
            assert_eq!(second.edges(), &[line_to(10, 10)]);
        }
        _ => panic!("two fills were expected"),
    }
}

#[test]
fn the_negative_fill_is_turned_round() {
    let shape = shape(vec![
        styles(Some((0, 0)), Some(1), None, None),
        line(10, 0),
        line(0, 10),
    ]);
    let commands = swf_shape_to_draws(&shape).drain();
    assert_eq!(commands.len(), 1);
    match &commands[0] {
        DrawCommand::Fill(path) => {
            assert_eq!(path.start(), pt(10, 10));
            assert_eq!(path.end(), pt(0, 0));
            assert_eq!(path.edges(), &[line_to(10, 10), line_to(10, 0)]);
        }
        DrawCommand::Stroke(_) => panic!("a fill was expected"),
    }
}

#[test]
fn fills_come_before_strokes() {
    let shape = shape(vec![
        styles(Some((0, 0)), None, None, Some(2)),
        line(10, 0),
        styles(Some((50, 50)), None, Some(1), Some(1)),
        line(0, 10),
    ]);
    let commands = swf_shape_to_draws(&shape).drain();
    assert_eq!(commands.len(), 3);
    match (&commands[0], &commands[1], &commands[2]) {
        (DrawCommand::Fill(fill), DrawCommand::Stroke(first), DrawCommand::Stroke(second)) => {
            assert_eq!(fill.style_id(), 1);
            assert_eq!(fill.edges(), &[line_to(50, 60)]);
            assert_eq!(first.style_id(), 2);
            assert_eq!(*first.style(), thick());
            assert_eq!(first.edges(), &[line_to(10, 0)]);
            assert_eq!(second.style_id(), 1);
            assert_eq!(*second.style(), thin());
            assert_eq!(second.start(), pt(50, 50));
            assert_eq!(second.edges(), &[line_to(50, 60)]);
        }
        _ => panic!("a fill and two strokes were expected"),
    }
}

#[test]
fn an_edge_goes_to_every_open_path() {
    let shape = shape(vec![
        styles(Some((1, 1)), Some(1), Some(2), Some(1)),
        line(4, 0),
    ]);
    let commands = swf_shape_to_draws(&shape).drain();
    assert_eq!(commands.len(), 3);
    match (&commands[0], &commands[1], &commands[2]) {
        (DrawCommand::Fill(negative), DrawCommand::Fill(positive), DrawCommand::Stroke(stroke)) => {
            assert_eq!(negative.style_id(), 1);
            assert_eq!(negative.start(), pt(5, 1));
            assert_eq!(negative.end(), pt(1, 1));
            assert_eq!(negative.edges(), &[line_to(5, 1)]);
            assert_eq!(positive.style_id(), 2);
            assert_eq!(positive.start(), pt(1, 1));
            assert_eq!(positive.end(), pt(5, 1));
            assert_eq!(positive.edges(), &[line_to(5, 1)]);
            assert_eq!(stroke.style_id(), 1);
            assert_eq!(stroke.edges(), &[line_to(5, 1)]);
        }
        _ => panic!("two fills and a stroke were expected"),
    }
}

#[test]
fn a_style_change_clears_the_roles_it_does_not_name() {
    let shape = shape(vec![
        styles(Some((0, 0)), None, Some(1), Some(1)),
        line(10, 0),
        // Only the stroke is selected again: the fill is closed.
        styles(None, None, None, Some(1)),
        line(0, 10),
    ]);
    let commands = swf_shape_to_draws(&shape).drain();
    assert_eq!(commands.len(), 2);
    match (&commands[0], &commands[1]) {
        (DrawCommand::Fill(fill), DrawCommand::Stroke(stroke)) => {
            assert_eq!(fill.edges(), &[line_to(10, 0)]);
            assert_eq!(stroke.start(), pt(0, 0));
            assert_eq!(stroke.end(), pt(10, 10));
            assert_eq!(stroke.edges(), &[line_to(10, 0), line_to(10, 10)]);
        }
        _ => panic!("a fill and a stroke were expected"),
    }
}

#[test]
fn an_open_path_without_edges_is_still_handed_over() {
    let shape = shape(vec![styles(Some((3, 4)), None, Some(1), None)]);
    let commands = swf_shape_to_draws(&shape).drain();
    assert_eq!(commands.len(), 1);
    match &commands[0] {
        DrawCommand::Fill(path) => {
            assert_eq!(path.start(), pt(3, 4));
            assert_eq!(path.end(), pt(3, 4));
            assert!(path.edges().is_empty());
        }
        DrawCommand::Stroke(_) => panic!("a fill was expected"),
    }
}

#[test]
fn each_command_comes_once_and_then_nothing() {
    let shape = shape(vec![
        styles(Some((0, 0)), None, Some(1), None),
        line(10, 0),
        styles(Some((100, 0)), None, Some(2), Some(1)),
        line(10, 0),
    ]);
    let mut draws = swf_shape_to_draws(&shape);
    let mut ids = Vec::new();
    while let Some(command) = draws.next() {
        ids.push(match command {
            DrawCommand::Fill(path) => (true, path.style_id()),
            DrawCommand::Stroke(path) => (false, path.style_id()),
        });
    }
    assert_eq!(ids, vec![(true, 1), (true, 2), (false, 1)]);
    assert!(draws.next().is_none());
    assert!(draws.next().is_none());
    assert!(draws.drain().is_empty());
}

#[test]
fn taking_some_commands_defers_the_rest() {
    let shape = shape(vec![
        styles(Some((0, 0)), None, Some(1), None),
        line(10, 0),
        styles(Some((100, 0)), None, Some(2), Some(1)),
        line(10, 0),
    ]);
    let mut draws = swf_shape_to_draws(&shape);
    match draws.next() {
        Some(DrawCommand::Fill(path)) => assert_eq!(path.style_id(), 1),
        _ => panic!("a fill was expected"),
    }
    let rest = draws.drain();
    assert_eq!(rest.len(), 2);
    match (&rest[0], &rest[1]) {
        (DrawCommand::Fill(fill), DrawCommand::Stroke(stroke)) => {
            assert_eq!(fill.style_id(), 2);
            assert_eq!(stroke.style_id(), 1);
        }
        _ => panic!("a fill and a stroke were expected"),
    }
    assert!(draws.next().is_none());
}

#[test]
fn a_shape_is_drawable_when_its_pen_and_styles_are_in_range() {
    let with = |records: Vec<ShapeRecord>| Shape {
        styles: ShapeStyles { fill_styles: vec![red()], line_styles: vec![] },
        shape: records,
    };
    assert!(with(vec![]).check_drawable());
    assert!(with(vec![styles(Some((1, 1)), Some(1), Some(1), None), line(5, 5)]).check_drawable());
    assert!(!with(vec![styles(None, Some(2), None, None)]).check_drawable());
    assert!(!with(vec![styles(None, None, None, Some(1))]).check_drawable());
    assert!(!with(vec![styles(Some((i32::MIN, 0)), None, None, None), line(-1, 0)]).check_drawable());
    assert!(check_pen_in_range(&with(vec![line(1, 1)]).shape));
}

#[test]
fn style_numbers_outside_the_tables_are_detected() {
    let records = vec![styles(None, Some(3), None, None)];
    assert!(!check_styles_in_range(&records, 2, 2));
    assert!(check_styles_in_range(&records, 3, 0));
    let records = vec![styles(None, None, Some(2), Some(3))];
    assert!(!check_styles_in_range(&records, 2, 2));
    assert!(check_styles_in_range(&records, 2, 3));
    assert!(!check_styles_in_range(&records, 1, 3));
    assert!(check_styles_in_range(&[line(1, 1)], 0, 0));
    assert!(check_styles_in_range(&[styles(None, Some(0), Some(0), Some(0))], 0, 0));
}
