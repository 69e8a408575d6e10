//! From the records of a shape to the paths that draw it.
//!
//! The pen walks over the records once. While it draws, up to three paths are
//! open: the fill on its negative side, the fill on its positive side and the
//! stroke. Each edge is added to every open path. A style change closes the
//! open paths, hands them to the gathered fills and strokes, and opens new
//! ones for the styles it selects. When the records end, the gathered paths
//! are handed out one by one: the fills first, then the strokes, each kind in
//! the order in which its paths were first seen.

use vstd::prelude::*;
use swf::{FillStyle, LineStyle};
use crate::geometry::Point;
use crate::records::{
    ShapeRecord, Pen, check_pen_in_range, pen_after_from, pen_in_range, pen_in_range_from,
};
use crate::path::{Edge, Path, PathView, lemma_edges_add_up};
use crate::active_paths::{ActivePaths, absorb, first_taker, lemma_first_taker};

verus! {

/// A finished path, ready for the tessellator: to be filled or to be stroked.
#[derive(Debug)]
pub enum DrawCommand<'a> {
    Fill(Path<'a, FillStyle>),
    Stroke(Path<'a, LineStyle>),
}

/// What a draw command is: the kind of drawing and the path.
pub enum DrawCommandView {
    Fill(PathView<FillStyle>),
    Stroke(PathView<LineStyle>),
}

impl<'a> View for DrawCommand<'a> {
    type V = DrawCommandView;

    open spec fn view(&self) -> DrawCommandView {
        match self {
            DrawCommand::Fill(path) => DrawCommandView::Fill(path@),
            DrawCommand::Stroke(path) => DrawCommandView::Stroke(path@),
        }
    }
}

/// The styles of a shape: one table for fills, one for strokes. A style's
/// number is its place in its table, counted from 1.
#[derive(Debug)]
pub struct ShapeStyles {
    pub fill_styles: Vec<FillStyle>,
    pub line_styles: Vec<LineStyle>,
}

/// A shape as it was decoded: its styles and its records.
#[derive(Debug)]
pub struct Shape {
    pub styles: ShapeStyles,
    pub shape: Vec<ShapeRecord>,
}

/// `index` names no style, or one of the first `count` styles of a table.
pub open spec fn names_style(index: Option<u32>, count: nat) -> bool {
    match index {
        Some(id) => id <= count,
        None => true,
    }
}

/// Every style that a style change in `records` selects exists in its table:
/// there are `fills` fill styles and `lines` line styles.
pub open spec fn styles_in_range(records: Seq<ShapeRecord>, fills: nat, lines: nat) -> bool {
    forall|i: int|
        0 <= i < records.len() ==> match #[trigger] records[i] {
            ShapeRecord::StyleChange(change) => {
                &&& names_style(change.fill_style_0, fills)
                &&& names_style(change.fill_style_1, fills)
                &&& names_style(change.line_style, lines)
            },
            _ => true,
        }
}

/// Tells whether `index` names no style, or one of the first `count` styles of
/// a table.
fn check_names_style(index: Option<u32>, count: usize) -> (ok: bool)
    ensures
        ok == names_style(index, count as nat),
{
    match index {
        Some(id) => id as usize <= count,
        None => true,
    }
}

/// Tells whether every style that a style change in `records` selects exists,
/// in tables of `fills` fill styles and `lines` line styles.
pub fn check_styles_in_range(records: &[ShapeRecord], fills: usize, lines: usize) -> (ok: bool)
    ensures
        ok == styles_in_range(records@, fills as nat, lines as nat),
{
    let mut i: usize = 0;
    while i < records.len()
        invariant
            i <= records.len(),
            styles_in_range(records@.take(i as int), fills as nat, lines as nat),
        decreases records.len() - i,
    {
        let known = match records[i] {
            ShapeRecord::StyleChange(change) => check_names_style(change.fill_style_0, fills)
                && check_names_style(change.fill_style_1, fills) && check_names_style(
                change.line_style,
                lines,
            ),
            _ => true,
        };
        if !known {
            return false;
        }
        proof {
            let before = records@.take(i as int);
            let upto = records@.take(i as int + 1);
            assert forall|k: int| 0 <= k < upto.len() implies match #[trigger] upto[k] {
                ShapeRecord::StyleChange(change) => {
                    &&& names_style(change.fill_style_0, fills as nat)
                    &&& names_style(change.fill_style_1, fills as nat)
                    &&& names_style(change.line_style, lines as nat)
                },
                _ => true,
            } by {
                if k < i {
                    assert(upto[k] == before[k]);
                }
            }
        }
        i = i + 1;
    }
    proof {
        assert(records@.take(i as int) =~= records@);
    }
    true
}

impl Shape {
    /// The shape can be drawn: the pen stays within the machine's integers
    /// over its records, and every style they select exists.
    pub open spec fn is_drawable(&self) -> bool {
        &&& pen_in_range(self.shape@)
        &&& styles_in_range(
            self.shape@,
            self.styles.fill_styles@.len(),
            self.styles.line_styles@.len(),
        )
    }

    /// Tells whether the shape can be drawn.
    pub fn check_drawable(&self) -> (ok: bool)
        ensures
            ok == self.is_drawable(),
    {
        check_pen_in_range(self.shape.as_slice()) && check_styles_in_range(
            self.shape.as_slice(),
            self.styles.fill_styles.len(),
            self.styles.line_styles.len(),
        )
    }
}

/// The path that a style change opens at `at` for the style number `index`:
/// none where the number is absent or 0.
pub open spec fn opened<T>(styles: Seq<T>, index: Option<u32>, at: Point) -> Option<PathView<T>> {
    match index {
        Some(id) => if id != 0 {
            Some(PathView::fresh(styles[id - 1], id, at))
        } else {
            None
        },
        None => None,
    }
}

/// A path that may be open, with one more edge if it is.
pub open spec fn extended<T>(path: Option<PathView<T>>, edge: Edge) -> Option<PathView<T>> {
    match path {
        Some(path) => Some(path.with_edge(edge)),
        None => None,
    }
}

/// The edge that an edge record draws when the pen stands at `pen`.
pub open spec fn edge_from(record: ShapeRecord, pen: Pen) -> Edge {
    let end = record.advance(pen).point();
    match record {
        ShapeRecord::CurvedEdge { .. } => {
            let control = record.control_from(pen).point();
            Edge::CurveTo { x1: control.x, y1: control.y, x2: end.x, y2: end.y }
        },
        _ => Edge::LineTo { x: end.x, y: end.y },
    }
}

/// The pen walk at one moment: where the pen stands, the paths that are open,
/// and the fills and strokes gathered so far.
pub struct WalkState {
    pub pen: Pen,
    /// The open fill on the negative side of the pen.
    pub fill0: Option<PathView<FillStyle>>,
    /// The open fill on the positive side of the pen.
    pub fill1: Option<PathView<FillStyle>>,
    /// The open stroke.
    pub line: Option<PathView<LineStyle>>,
    pub fills: Seq<PathView<FillStyle>>,
    pub strokes: Seq<PathView<LineStyle>>,
}

impl WalkState {
    /// The walk before the first record: the pen at the origin, nothing open,
    /// nothing gathered.
    pub open spec fn start() -> WalkState {
        WalkState {
            pen: Pen::origin(),
            fill0: None,
            fill1: None,
            line: None,
            fills: Seq::empty(),
            strokes: Seq::empty(),
        }
    }

    /// The walk after the open paths were closed. The negative fill is turned
    /// round and offered to the fills head to tail, then the positive fill is
    /// offered to them head to tail, and the stroke is offered to the strokes
    /// where direction does not count. No path is open afterwards.
    pub open spec fn flushed(self) -> WalkState {
        let fills = match self.fill0 {
            Some(path) => absorb(self.fills, path.flipped(), false),
            None => self.fills,
        };
        let fills = match self.fill1 {
            Some(path) => absorb(fills, path, false),
            None => fills,
        };
        let strokes = match self.line {
            Some(path) => absorb(self.strokes, path, true),
            None => self.strokes,
        };
        WalkState { pen: self.pen, fill0: None, fill1: None, line: None, fills, strokes }
    }

    /// The walk after `edge` was added to every open path. The pen is not
    /// moved.
    pub open spec fn drawn(self, edge: Edge) -> WalkState {
        WalkState {
            fill0: extended(self.fill0, edge),
            fill1: extended(self.fill1, edge),
            line: extended(self.line, edge),
            ..self
        }
    }

    /// The walk after one more record. A style change closes the open paths,
    /// moves the pen if it lifts it, and opens a path at the pen for each
    /// style it selects. An edge is added to every open path and moves the pen
    /// to its end.
    pub open spec fn step(
        self,
        record: ShapeRecord,
        fill_styles: Seq<FillStyle>,
        line_styles: Seq<LineStyle>,
    ) -> WalkState {
        let pen = record.advance(self.pen);
        match record {
            ShapeRecord::StyleChange(change) => WalkState {
                pen,
                fill0: opened(fill_styles, change.fill_style_0, pen.point()),
                fill1: opened(fill_styles, change.fill_style_1, pen.point()),
                line: opened(line_styles, change.line_style, pen.point()),
                ..self.flushed()
            },
            _ => WalkState { pen, ..self.drawn(edge_from(record, self.pen)) },
        }
    }

    /// The gathered paths as draw commands: the fills, then the strokes.
    pub open spec fn commands(self) -> Seq<DrawCommandView> {
        Seq::new(
            self.fills.len() + self.strokes.len(),
            |i: int|
                if i < self.fills.len() {
                    DrawCommandView::Fill(self.fills[i])
                } else {
                    DrawCommandView::Stroke(self.strokes[i - self.fills.len()])
                },
        )
    }
}

/// The walk after all of `records`, taken up in the state `state`.
pub open spec fn walk_from(
    state: WalkState,
    records: Seq<ShapeRecord>,
    fill_styles: Seq<FillStyle>,
    line_styles: Seq<LineStyle>,
) -> WalkState
    decreases records.len(),
{
    if records.len() == 0 {
        state
    } else {
        walk_from(
            state.step(records.first(), fill_styles, line_styles),
            records.drop_first(),
            fill_styles,
            line_styles,
        )
    }
}

/// The draw commands of a shape: what is gathered when the pen has walked
/// over all of `records` from the origin and the last open paths were closed.
pub open spec fn draw_commands(
    records: Seq<ShapeRecord>,
    fill_styles: Seq<FillStyle>,
    line_styles: Seq<LineStyle>,
) -> Seq<DrawCommandView> {
    walk_from(WalkState::start(), records, fill_styles, line_styles).flushed().commands()
}

/// A shape without records draws nothing.
pub proof fn lemma_no_records_no_commands(
    fill_styles: Seq<FillStyle>,
    line_styles: Seq<LineStyle>,
)
    ensures
        draw_commands(Seq::empty(), fill_styles, line_styles) == Seq::<DrawCommandView>::empty(),
{
    assert(draw_commands(Seq::empty(), fill_styles, line_styles) =~= Seq::<
        DrawCommandView,
    >::empty());
}

/// A path that may be open, with more edges if it is.
pub open spec fn extended_by<T>(path: Option<PathView<T>>, edges: Seq<Edge>) -> Option<PathView<T>> {
    match path {
        Some(path) => Some(path.with_edges(edges)),
        None => None,
    }
}

/// No style changes among `records`: every one of them is an edge.
pub open spec fn only_edges(records: Seq<ShapeRecord>) -> bool {
    forall|i: int| 0 <= i < records.len() ==> !(#[trigger] records[i] is StyleChange)
}

/// The edges that the edge records `records` draw, in order, when the pen
/// stands at `pen` before the first of them.
pub open spec fn edges_from(pen: Pen, records: Seq<ShapeRecord>) -> Seq<Edge>
    decreases records.len(),
{
    if records.len() == 0 {
        Seq::empty()
    } else {
        seq![edge_from(records.first(), pen)] + edges_from(
            records.first().advance(pen),
            records.drop_first(),
        )
    }
}

/// While no style changes, the walk only draws: every open path gets the
/// edges of the records, in order, the pen ends where they lead, and the
/// gathered paths stay as they are.
pub proof fn lemma_edges_only_draw(
    state: WalkState,
    records: Seq<ShapeRecord>,
    fill_styles: Seq<FillStyle>,
    line_styles: Seq<LineStyle>,
)
    requires
        only_edges(records),
    ensures
        walk_from(state, records, fill_styles, line_styles) == (WalkState {
            pen: pen_after_from(state.pen, records),
            fill0: extended_by(state.fill0, edges_from(state.pen, records)),
            fill1: extended_by(state.fill1, edges_from(state.pen, records)),
            line: extended_by(state.line, edges_from(state.pen, records)),
            fills: state.fills,
            strokes: state.strokes,
        }),
    decreases records.len(),
{
    if records.len() > 0 {
        let record = records.first();
        let rest = records.drop_first();
        let edge = edge_from(record, state.pen);
        let next = state.step(record, fill_styles, line_styles);
        assert(record == records[0]);
        assert forall|i: int| 0 <= i < rest.len() implies !(#[trigger] rest[i] is StyleChange) by {
            assert(rest[i] == records[i + 1]);
        }
        lemma_edges_only_draw(next, rest, fill_styles, line_styles);
        let more = edges_from(next.pen, rest);
        if let Some(path) = state.fill0 {
            lemma_edges_add_up(path, edge, more);
        }
        if let Some(path) = state.fill1 {
            lemma_edges_add_up(path, edge, more);
        }
        if let Some(path) = state.line {
            lemma_edges_add_up(path, edge, more);
        }
    }
}

/// A shape that selects its styles once and draws from there on has one
/// command for each style it selected: each path starts where the pen was set
/// down and has the edges of the whole shape, the fill on the negative side
/// turned round.
pub proof fn lemma_one_style_change(
    records: Seq<ShapeRecord>,
    fill_styles: Seq<FillStyle>,
    line_styles: Seq<LineStyle>,
)
    requires
        records.len() > 0,
        records.first() is StyleChange,
        only_edges(records.drop_first()),
    ensures
        ({
            let change = records.first()->StyleChange_0;
            let pen = records.first().advance(Pen::origin());
            let edges = edges_from(pen, records.drop_first());
            draw_commands(records, fill_styles, line_styles) == (WalkState {
                pen: pen_after_from(pen, records.drop_first()),
                fill0: extended_by(opened(fill_styles, change.fill_style_0, pen.point()), edges),
                fill1: extended_by(opened(fill_styles, change.fill_style_1, pen.point()), edges),
                line: extended_by(opened(line_styles, change.line_style, pen.point()), edges),
                fills: Seq::empty(),
                strokes: Seq::empty(),
            }).flushed().commands()
        }),
{
    let first = WalkState::start().step(records.first(), fill_styles, line_styles);
    assert(WalkState::start().flushed() == WalkState::start());
    lemma_edges_only_draw(first, records.drop_first(), fill_styles, line_styles);
}

/// The style of `path` is the one that has the path's number in `styles`.
pub open spec fn styled_from<T>(path: PathView<T>, styles: Seq<T>) -> bool {
    1 <= path.style_id <= styles.len() && path.style == styles[path.style_id - 1]
}

/// The style of the command's path is the one that has its number in the
/// table of its kind.
pub open spec fn command_styled(
    command: DrawCommandView,
    fill_styles: Seq<FillStyle>,
    line_styles: Seq<LineStyle>,
) -> bool {
    match command {
        DrawCommandView::Fill(path) => styled_from(path, fill_styles),
        DrawCommandView::Stroke(path) => styled_from(path, line_styles),
    }
}

/// A path that may be open has its style from `styles`.
pub open spec fn slot_styled<T>(slot: Option<PathView<T>>, styles: Seq<T>) -> bool {
    match slot {
        Some(path) => styled_from(path, styles),
        None => true,
    }
}

/// Every one of `entries` has its style from `styles`.
pub open spec fn all_styled<T>(entries: Seq<PathView<T>>, styles: Seq<T>) -> bool {
    forall|i: int| 0 <= i < entries.len() ==> styled_from(#[trigger] entries[i], styles)
}

impl WalkState {
    /// Every path of the walk, open or gathered, has its style from the table
    /// of its kind.
    pub open spec fn is_styled(self, fill_styles: Seq<FillStyle>, line_styles: Seq<LineStyle>) -> bool {
        &&& slot_styled(self.fill0, fill_styles)
        &&& slot_styled(self.fill1, fill_styles)
        &&& slot_styled(self.line, line_styles)
        &&& all_styled(self.fills, fill_styles)
        &&& all_styled(self.strokes, line_styles)
    }
}

/// Offering a path keeps the styles of the entries in their table.
pub proof fn lemma_absorb_keeps_styles<T>(
    entries: Seq<PathView<T>>,
    path: PathView<T>,
    undirected: bool,
    styles: Seq<T>,
)
    requires
        all_styled(entries, styles),
        styled_from(path, styles),
    ensures
        all_styled(absorb(entries, path, undirected), styles),
{
    lemma_first_taker(entries, path, undirected);
    let at = first_taker(entries, path, undirected);
    let after = absorb(entries, path, undirected);
    assert forall|i: int| 0 <= i < after.len() implies styled_from(#[trigger] after[i], styles) by {
        if at < entries.len() {
            assert(styled_from(entries[i], styles));
        } else if i < entries.len() {
            assert(after[i] == entries[i]);
        }
    }
}

/// Closing the open paths keeps every style in its table.
pub proof fn lemma_flush_keeps_styles(
    state: WalkState,
    fill_styles: Seq<FillStyle>,
    line_styles: Seq<LineStyle>,
)
    requires
        state.is_styled(fill_styles, line_styles),
    ensures
        state.flushed().is_styled(fill_styles, line_styles),
{
    let fills = match state.fill0 {
        Some(path) => {
            lemma_absorb_keeps_styles(state.fills, path.flipped(), false, fill_styles);
            absorb(state.fills, path.flipped(), false)
        },
        None => state.fills,
    };
    match state.fill1 {
        Some(path) => {
            lemma_absorb_keeps_styles(fills, path, false, fill_styles);
        },
        None => {},
    }
    match state.line {
        Some(path) => {
            lemma_absorb_keeps_styles(state.strokes, path, true, line_styles);
        },
        None => {},
    }
}

/// The walk keeps every style in its table, over records that select only
/// styles that exist.
pub proof fn lemma_walk_keeps_styles(
    state: WalkState,
    records: Seq<ShapeRecord>,
    fill_styles: Seq<FillStyle>,
    line_styles: Seq<LineStyle>,
)
    requires
        state.is_styled(fill_styles, line_styles),
        styles_in_range(records, fill_styles.len(), line_styles.len()),
    ensures
        walk_from(state, records, fill_styles, line_styles).is_styled(fill_styles, line_styles),
    decreases records.len(),
{
    if records.len() > 0 {
        let record = records.first();
        let rest = records.drop_first();
        assert(record == records[0]);
        lemma_flush_keeps_styles(state, fill_styles, line_styles);
        let next = state.step(record, fill_styles, line_styles);
        assert(next.is_styled(fill_styles, line_styles));
        assert forall|i: int| 0 <= i < rest.len() implies match #[trigger] rest[i] {
            ShapeRecord::StyleChange(change) => {
                &&& names_style(change.fill_style_0, fill_styles.len())
                &&& names_style(change.fill_style_1, fill_styles.len())
                &&& names_style(change.line_style, line_styles.len())
            },
            _ => true,
        } by {
            assert(rest[i] == records[i + 1]);
        }
        lemma_walk_keeps_styles(next, rest, fill_styles, line_styles);
    }
}

/// Every draw command of a shape carries the style that has its number in the
/// table of its kind, and that number is not 0, if the records select only
/// styles that exist.
pub proof fn lemma_commands_are_styled(
    records: Seq<ShapeRecord>,
    fill_styles: Seq<FillStyle>,
    line_styles: Seq<LineStyle>,
)
    requires
        styles_in_range(records, fill_styles.len(), line_styles.len()),
    ensures
        forall|i: int|
            0 <= i < draw_commands(records, fill_styles, line_styles).len() ==> command_styled(
                #[trigger] draw_commands(records, fill_styles, line_styles)[i],
                fill_styles,
                line_styles,
            ),
{
    lemma_walk_keeps_styles(WalkState::start(), records, fill_styles, line_styles);
    lemma_flush_keeps_styles(
        walk_from(WalkState::start(), records, fill_styles, line_styles),
        fill_styles,
        line_styles,
    );
}

/// What a slot for an open path holds.
pub open spec fn slot_view<'a, T>(slot: Option<Path<'a, T>>) -> Option<PathView<T>> {
    match slot {
        Some(path) => Some(path@),
        None => None,
    }
}

/// Opens the path that a style change asks for at `at`, in the style that has
/// the number `index` in `styles`; none where the number is absent or 0.
fn open_path<'a, T>(styles: &'a [T], index: Option<u32>, at: Point) -> (slot: Option<Path<'a, T>>)
    requires
        names_style(index, styles@.len()),
    ensures
        slot_view(slot) == opened(styles@, index, at),
{
    match index {
        Some(id) => {
            if id != 0 {
                Some(Path::new(&styles[(id - 1) as usize], id, at))
            } else {
                None
            }
        },
        None => None,
    }
}

/// Adds `edge` to the path in `slot`, if one is open there.
fn extend_slot<'a, T>(slot: &mut Option<Path<'a, T>>, edge: Edge)
    ensures
        slot_view(*final(slot)) == extended(slot_view(*old(slot)), edge),
{
    match slot {
        Some(path) => {
            path.add_edge(edge);
        },
        None => {},
    }
}

/// The pen walk over the records of one shape, and the draw commands that
/// come out of it. The commands are handed out one by one, each of them once.
pub struct DrawShapeIter<'a> {
    // The records of the shape, and how many of them the pen has passed.
    records: &'a [ShapeRecord],
    passed: usize,
    // Pen position.
    x: i32,
    y: i32,
    // Fill styles and line styles.
    fill_styles: &'a [FillStyle],
    line_styles: &'a [LineStyle],
    // The paths that the pen is drawing. Each edge is added to every one of
    // them, and when the styles change they are merged into the active paths.
    fill_style0: Option<Path<'a, FillStyle>>,  // Negative side of pen: the path gets flipped
    fill_style1: Option<Path<'a, FillStyle>>,  // Positive side of pen
    line_style: Option<Path<'a, LineStyle>>,  // Undirected path
    // The paths gathered so far.
    fills: ActivePaths<'a, FillStyle>,
    strokes: ActivePaths<'a, LineStyle>,
    // Once the pen has passed all records: the commands that were not handed
    // out yet, the next one last.
    finished: bool,
    pending: Vec<DrawCommand<'a>>,
}

impl<'a> DrawShapeIter<'a> {
    /// The state of the pen walk.
    pub closed spec fn state(&self) -> WalkState {
        WalkState {
            pen: Pen { x: self.x as int, y: self.y as int },
            fill0: slot_view(self.fill_style0),
            fill1: slot_view(self.fill_style1),
            line: slot_view(self.line_style),
            fills: self.fills@,
            strokes: self.strokes@,
        }
    }

    /// The records that the pen has not passed yet.
    pub closed spec fn ahead(&self) -> Seq<ShapeRecord> {
        self.records@.skip(self.passed as int)
    }

    /// The walk can go on: the pen stays in range over the records ahead, and
    /// every style they select exists.
    pub closed spec fn wf(&self) -> bool {
        &&& self.passed <= self.records@.len()
        &&& pen_in_range_from(self.state().pen, self.ahead())
        &&& styles_in_range(self.records@, self.fill_styles@.len(), self.line_styles@.len())
        &&& self.finished ==> self.passed == self.records@.len()
        &&& !self.finished ==> self.pending@.len() == 0
    }

    /// The draw commands that have not been handed out yet, the next one
    /// first.
    pub closed spec fn remaining(&self) -> Seq<DrawCommandView> {
        if self.finished {
            Seq::new(self.pending@.len(), |i: int| self.pending@[self.pending@.len() - 1 - i]@)
        } else {
            walk_from(
                self.state(),
                self.ahead(),
                self.fill_styles@,
                self.line_styles@,
            ).flushed().commands()
        }
    }

    /// Adds `edge` to every open path.
    fn visit_edge(&mut self, edge: Edge)
        ensures
            final(self).state() == old(self).state().drawn(edge),
            final(self).records == old(self).records,
            final(self).passed == old(self).passed,
            final(self).fill_styles == old(self).fill_styles,
            final(self).line_styles == old(self).line_styles,
            final(self).finished == old(self).finished,
            final(self).pending == old(self).pending,
    {
        extend_slot(&mut self.fill_style0, edge);
        extend_slot(&mut self.fill_style1, edge);
        extend_slot(&mut self.line_style, edge);
    }

    /// Closes the open paths and hands them to the gathered fills and strokes.
    fn flush(&mut self)
        ensures
            final(self).state() == old(self).state().flushed(),
            final(self).records == old(self).records,
            final(self).passed == old(self).passed,
            final(self).fill_styles == old(self).fill_styles,
            final(self).line_styles == old(self).line_styles,
            final(self).finished == old(self).finished,
            final(self).pending == old(self).pending,
    {
        if let Some(mut path) = self.fill_style0.take() {
            path.flip();
            self.fills.merge_path(path);
        }
        if let Some(path) = self.fill_style1.take() {
            self.fills.merge_path(path);
        }
        if let Some(path) = self.line_style.take() {
            self.strokes.merge_path_undirected(path);
        }
    }

    /// Lets the pen pass the next record.
    fn advance(&mut self)
        requires
            old(self).wf(),
            !old(self).finished,
            old(self).passed < old(self).records@.len(),
        ensures
            final(self).wf(),
            !final(self).finished,
            final(self).passed == old(self).passed + 1,
            final(self).records == old(self).records,
            final(self).remaining() == old(self).remaining(),
    {
        let ghost before = self.state();
        let ghost ahead = self.ahead();
        let ghost record = self.records@[self.passed as int];
        proof {
            assert(ahead.first() == record);
            assert(ahead.drop_first() =~= self.records@.skip(self.passed as int + 1));
        }
        match self.records[self.passed] {
            ShapeRecord::StyleChange(change) => {
                self.flush();
                if let Some(target) = change.move_to {
                    self.x = target.x;
                    self.y = target.y;
                }
                let at = Point { x: self.x, y: self.y };
                self.fill_style0 = open_path(self.fill_styles, change.fill_style_0, at);
                self.fill_style1 = open_path(self.fill_styles, change.fill_style_1, at);
                self.line_style = open_path(self.line_styles, change.line_style, at);
            },
            ShapeRecord::StraightEdge { delta_x, delta_y } => {
                let x = self.x + delta_x;
                let y = self.y + delta_y;
                self.visit_edge(Edge::LineTo { x, y });
                self.x = x;
                self.y = y;
            },
            ShapeRecord::CurvedEdge {
                control_delta_x,
                control_delta_y,
                anchor_delta_x,
                anchor_delta_y,
            } => {
                let x1 = self.x + control_delta_x;
                let y1 = self.y + control_delta_y;
                let x2 = x1 + anchor_delta_x;
                let y2 = y1 + anchor_delta_y;
                self.visit_edge(Edge::CurveTo { x1, y1, x2, y2 });
                self.x = x2;
                self.y = y2;
            },
        }
        self.passed = self.passed + 1;
        proof {
            assert(self.state() == before.step(record, self.fill_styles@, self.line_styles@));
        }
    }

    /// Lets the pen pass all the records that are left, closes the last open
    /// paths and lines the gathered paths up to be handed out.
    fn finish(&mut self)
        requires
            old(self).wf(),
            !old(self).finished,
        ensures
            final(self).wf(),
            final(self).finished,
            final(self).remaining() == old(self).remaining(),
    {
        while self.passed < self.records.len()
            invariant
                self.wf(),
                !self.finished,
                self.records == old(self).records,
                self.remaining() == old(self).remaining(),
            decreases self.records@.len() - self.passed,
        {
            self.advance();
        }
        self.flush();
        let ghost commands = self.state().commands();
        let ghost fills_view = self.fills@;
        let ghost strokes_view = self.strokes@;
        proof {
            assert(self.ahead() =~= Seq::<ShapeRecord>::empty());
            assert(commands == old(self).remaining());
        }
        let mut fills: ActivePaths<'a, FillStyle> = ActivePaths::new();
        let mut strokes: ActivePaths<'a, LineStyle> = ActivePaths::new();
        std::mem::swap(&mut self.fills, &mut fills);
        std::mem::swap(&mut self.strokes, &mut strokes);
        let mut fills = fills.into_paths();
        let mut strokes = strokes.into_paths();
        let ghost total = commands.len() as int;
        while strokes.len() > 0
            invariant
                self.passed == self.records@.len(),
                !self.finished,
                styles_in_range(self.records@, self.fill_styles@.len(), self.line_styles@.len()),
                total == fills_view.len() + strokes_view.len(),
                commands.len() == total,
                forall|i: int|
                    0 <= i < fills_view.len() ==> commands[i] == DrawCommandView::Fill(
                        fills_view[i],
                    ),
                forall|i: int|
                    0 <= i < strokes_view.len() ==> commands[fills_view.len() + i]
                        == DrawCommandView::Stroke(strokes_view[i]),
                strokes@.len() <= strokes_view.len(),
                forall|i: int| 0 <= i < strokes@.len() ==> (#[trigger] strokes@[i])@ == strokes_view[i],
                self.pending@.len() == strokes_view.len() - strokes@.len(),
                forall|k: int|
                    0 <= k < self.pending@.len() ==> (#[trigger] self.pending@[k])@ == commands[total
                        - 1 - k],
            decreases strokes.len(),
        {
            let path = strokes.pop().unwrap();
            self.pending.push(DrawCommand::Stroke(path));
        }
        while fills.len() > 0
            invariant
                self.passed == self.records@.len(),
                !self.finished,
                styles_in_range(self.records@, self.fill_styles@.len(), self.line_styles@.len()),
                total == fills_view.len() + strokes_view.len(),
                commands.len() == total,
                forall|i: int|
                    0 <= i < fills_view.len() ==> commands[i] == DrawCommandView::Fill(
                        fills_view[i],
                    ),
                fills@.len() <= fills_view.len(),
                forall|i: int| 0 <= i < fills@.len() ==> (#[trigger] fills@[i])@ == fills_view[i],
                self.pending@.len() == total - fills@.len(),
                forall|k: int|
                    0 <= k < self.pending@.len() ==> (#[trigger] self.pending@[k])@ == commands[total
                        - 1 - k],
            decreases fills.len(),
        {
            let path = fills.pop().unwrap();
            self.pending.push(DrawCommand::Fill(path));
        }
        self.finished = true;
        proof {
            assert(self.ahead() =~= Seq::<ShapeRecord>::empty());
            assert(self.remaining() =~= commands);
        }
    }

    /// Hands out the next draw command, or `None` when every command has been
    /// handed out. Each command comes once; after the last, every call gives
    /// `None`.
    pub fn next(&mut self) -> (command: Option<DrawCommand<'a>>)
        requires
            old(self).wf(),
        ensures
            final(self).wf(),
            match command {
                Some(command) => {
                    &&& old(self).remaining().len() > 0
                    &&& command@ == old(self).remaining().first()
                    &&& final(self).remaining() == old(self).remaining().drop_first()
                },
                None => {
                    &&& old(self).remaining().len() == 0
                    &&& final(self).remaining() == old(self).remaining()
                },
            },
    {
        if !self.finished {
            self.finish();
        }
        let ghost before = self.remaining();
        let command = self.pending.pop();
        proof {
            if command is Some {
                assert(self.remaining() =~= before.drop_first());
            }
        }
        command
    }

    /// Hands out all the draw commands that have not been handed out yet, in
    /// order. Nothing is left afterwards.
    pub fn drain(&mut self) -> (commands: Vec<DrawCommand<'a>>)
        requires
            old(self).wf(),
        ensures
            final(self).wf(),
            commands@.len() == old(self).remaining().len(),
            forall|i: int|
                0 <= i < commands@.len() ==> (#[trigger] commands@[i])@ == old(self).remaining()[i],
            final(self).remaining() == Seq::<DrawCommandView>::empty(),
    {
        if !self.finished {
            self.finish();
        }
        let ghost all = self.remaining();
        let mut commands: Vec<DrawCommand<'a>> = Vec::new();
        while self.pending.len() > 0
            invariant
                self.wf(),
                self.finished,
                commands@.len() + self.remaining().len() == all.len(),
                forall|i: int| 0 <= i < commands@.len() ==> (#[trigger] commands@[i])@ == all[i],
                forall|i: int|
                    0 <= i < self.remaining().len() ==> self.remaining()[i] == all[commands@.len()
                        + i],
            decreases self.pending.len(),
        {
            let ghost before = self.remaining();
            let command = self.pending.pop().unwrap();
            proof {
                assert(command@ == before[0]);
                assert(self.remaining() =~= before.drop_first());
                assert forall|i: int| 0 <= i < self.remaining().len() implies self.remaining()[i]
                    == all[commands@.len() + 1 + i] by {
                    assert(self.remaining()[i] == before[i + 1]);
                }
            }
            commands.push(command);
        }
        proof {
            assert(self.remaining() =~= Seq::<DrawCommandView>::empty());
        }
        commands
    }
}

/// Starts the pen walk over the records of `shape`. The draw commands of the
/// shape can then be taken from the walk one by one.
pub fn swf_shape_to_draws<'a>(shape: &'a Shape) -> (draws: DrawShapeIter<'a>)
    requires
        shape.is_drawable(),
    ensures
        draws.wf(),
        draws.remaining() == draw_commands(
            shape.shape@,
            shape.styles.fill_styles@,
            shape.styles.line_styles@,
        ),
{
    let draws = DrawShapeIter {
        records: shape.shape.as_slice(),
        passed: 0,
        x: 0,
        y: 0,
        fill_styles: shape.styles.fill_styles.as_slice(),
        line_styles: shape.styles.line_styles.as_slice(),
        fill_style0: None,
        fill_style1: None,
        line_style: None,
        fills: ActivePaths::new(),
        strokes: ActivePaths::new(),
        finished: false,
        pending: Vec::new(),
    };
    proof {
        assert(draws.ahead() =~= shape.shape@);
        assert(draws.state() == WalkState::start());
    }
    draws
}

} // verus!
