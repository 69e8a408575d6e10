use player_core::active_paths::ActivePaths;
use player_core::geometry::Point;
use player_core::path::{Edge, Path};

fn pt(x: i32, y: i32) -> Point {
    Point { x, y }
}

fn line(x: i32, y: i32) -> Edge {
    Edge::LineTo { x, y }
}

fn segment<'a>(style: &'a u8, style_id: u32, from: (i32, i32), to: (i32, i32)) -> Path<'a, u8> {
    let mut path = Path::new(style, style_id, pt(from.0, from.1));
    path.add_edge(line(to.0, to.1));
    path
}

#[test]
fn a_new_set_is_empty() {
    let set: ActivePaths<u8> = ActivePaths::new();
    assert_eq!(set.len(), 0);
    assert!(set.into_paths().is_empty());
}

#[test]
fn the_first_path_becomes_an_entry() {
    let style = 0u8;
    let mut set = ActivePaths::new();
    set.merge_path(segment(&style, 1, (0, 0), (10, 0)));
    assert_eq!(set.len(), 1);
    assert_eq!(set.get(0).start(), pt(0, 0));
    assert_eq!(set.get(0).end(), pt(10, 0));
}

#[test]
fn a_continuing_path_is_absorbed() {
    let style = 0u8;
    let mut set = ActivePaths::new();
    set.merge_path(segment(&style, 1, (0, 0), (10, 0)));
    set.merge_path(segment(&style, 1, (10, 0), (10, 10)));
    assert_eq!(set.len(), 1);
    assert_eq!(set.get(0).start(), pt(0, 0));
    assert_eq!(set.get(0).end(), pt(10, 10));
    assert_eq!(set.get(0).edges(), &[line(10, 0), line(10, 10)]);
}

#[test]
fn paths_that_never_touch_stay_separate_in_order() {
    let style = 0u8;
    let mut set = ActivePaths::new();
    set.merge_path(segment(&style, 1, (0, 0), (10, 0)));
    set.merge_path(segment(&style, 1, (100, 0), (110, 0)));
    set.merge_path(segment(&style, 1, (200, 0), (210, 0)));
    let paths = set.into_paths();
    assert_eq!(paths.len(), 3);
    assert_eq!(paths[0].start(), pt(0, 0));
    assert_eq!(paths[1].start(), pt(100, 0));
    assert_eq!(paths[2].start(), pt(200, 0));
    assert_eq!(paths[0].edges(), &[line(10, 0)]);
    assert_eq!(paths[1].edges(), &[line(110, 0)]);
    assert_eq!(paths[2].edges(), &[line(210, 0)]);
}

#[test]
fn touching_paths_of_other_styles_stay_separate() {
    let style = 0u8;
    let mut set = ActivePaths::new();
    set.merge_path(segment(&style, 1, (0, 0), (10, 0)));
    set.merge_path(segment(&style, 2, (10, 0), (20, 0)));
    assert_eq!(set.len(), 2);
    assert_eq!(set.get(0).style_id(), 1);
    assert_eq!(set.get(0).edges(), &[line(10, 0)]);
    assert_eq!(set.get(1).style_id(), 2);
}

#[test]
fn only_the_first_entry_that_can_take_the_path_grows() {
    let style = 0u8;
    let mut set = ActivePaths::new();
    set.merge_path(segment(&style, 1, (0, 0), (10, 0)));
    set.merge_path(segment(&style, 1, (5, 5), (10, 0)));
    assert_eq!(set.len(), 2);
    // Both entries end at (10, 0); the first one takes the path.
    set.merge_path(segment(&style, 1, (10, 0), (30, 30)));
    assert_eq!(set.len(), 2);
    assert_eq!(set.get(0).end(), pt(30, 30));
    assert_eq!(set.get(0).edges(), &[line(10, 0), line(30, 30)]);
    assert_eq!(set.get(1).end(), pt(10, 0));
    assert_eq!(set.get(1).edges(), &[line(10, 0)]);
}

#[test]
fn a_later_entry_takes_what_earlier_ones_refuse() {
    let style = 0u8;
    let mut set = ActivePaths::new();
    set.merge_path(segment(&style, 1, (0, 0), (10, 0)));
    set.merge_path(segment(&style, 2, (50, 50), (60, 60)));
    set.merge_path(segment(&style, 2, (60, 60), (70, 70)));
    assert_eq!(set.len(), 2);
    assert_eq!(set.get(0).edges(), &[line(10, 0)]);
    assert_eq!(set.get(1).end(), pt(70, 70));
    assert_eq!(set.get(1).edges(), &[line(60, 60), line(70, 70)]);
}

#[test]
fn directed_sets_refuse_a_shared_end_and_undirected_sets_take_it() {
    let style = 0u8;
    let mut fills = ActivePaths::new();
    fills.merge_path(segment(&style, 1, (0, 0), (10, 0)));
    fills.merge_path(segment(&style, 1, (10, 10), (10, 0)));
    assert_eq!(fills.len(), 2);

    let mut strokes = ActivePaths::new();
    strokes.merge_path_undirected(segment(&style, 1, (0, 0), (10, 0)));
    strokes.merge_path_undirected(segment(&style, 1, (10, 10), (10, 0)));
    assert_eq!(strokes.len(), 1);
    assert_eq!(strokes.get(0).start(), pt(0, 0));
    assert_eq!(strokes.get(0).end(), pt(10, 0));
    assert_eq!(strokes.get(0).edges(), &[line(10, 0), line(10, 0)]);
}

#[test]
fn undirected_sets_keep_apart_what_does_not_touch() {
    let style = 0u8;
    let mut strokes = ActivePaths::new();
    strokes.merge_path_undirected(segment(&style, 1, (0, 0), (10, 0)));
    strokes.merge_path_undirected(segment(&style, 1, (20, 0), (30, 0)));
    assert_eq!(strokes.len(), 2);
}
