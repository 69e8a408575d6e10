//! Edges, and the open paths that gather them.
//!
//! A path runs from its start to its end along its edges and carries one
//! style. Two paths of the same style whose ends meet can be joined into one.
//! Fill paths have a direction, so they join only head to tail; stroke paths
//! have none.

use vstd::prelude::*;
use crate::geometry::Point;

verus! {

/// One segment of an outline. The coordinates are absolute pen positions.
#[derive(Debug, Copy, Clone, PartialEq, Eq)]
pub enum Edge {
    /// A straight line to `(x, y)`.
    LineTo { x: i32, y: i32 },
    /// A quadratic curve to `(x2, y2)`, bent towards the control point `(x1, y1)`.
    CurveTo { x1: i32, y1: i32, x2: i32, y2: i32 },
}

impl Edge {
    /// Where the pen stands after drawing the edge.
    pub open spec fn end_point(self) -> Point {
        match self {
            Edge::LineTo { x, y } => Point { x, y },
            Edge::CurveTo { x2, y2, .. } => Point { x: x2, y: y2 },
        }
    }

    /// Where the pen stands after drawing the edge.
    pub fn end(&self) -> (p: Point)
        ensures
            p == self.end_point(),
    {
        match *self {
            Edge::LineTo { x, y } => Point { x, y },
            Edge::CurveTo { x2, y2, .. } => Point { x: x2, y: y2 },
        }
    }
}

/// What a path is: its style, the number of that style in its table (counted
/// from 1), its two ends and its edges in drawing order.
pub struct PathView<T> {
    pub style: T,
    pub style_id: u32,
    pub start: Point,
    pub end: Point,
    pub edges: Seq<Edge>,
}

impl<T> PathView<T> {
    /// The path without edges that starts and ends at `at`.
    pub open spec fn fresh(style: T, style_id: u32, at: Point) -> PathView<T> {
        PathView { style, style_id, start: at, end: at, edges: Seq::empty() }
    }

    /// The path with `edge` drawn after its other edges.
    pub open spec fn with_edge(self, edge: Edge) -> PathView<T> {
        PathView { end: edge.end_point(), edges: self.edges.push(edge), ..self }
    }

    /// The path with all of `edges` drawn after its other edges, in order.
    pub open spec fn with_edges(self, edges: Seq<Edge>) -> PathView<T> {
        if edges.len() == 0 {
            self
        } else {
            PathView { end: edges.last().end_point(), edges: self.edges + edges, ..self }
        }
    }

    /// The path walked the other way: its ends exchanged, its edges in
    /// opposite order.
    pub open spec fn flipped(self) -> PathView<T> {
        PathView { start: self.end, end: self.start, edges: self.edges.reverse(), ..self }
    }

    /// The end of the path is where its edges lead from its start.
    pub open spec fn is_traced(self) -> bool {
        self.end == if self.edges.len() == 0 {
            self.start
        } else {
            self.edges.last().end_point()
        }
    }

    /// `other` can be joined to this path, keeping the direction of both.
    pub open spec fn accepts(self, other: PathView<T>) -> bool {
        self.style_id == other.style_id && (other.end == self.start || self.end == other.start)
    }

    /// This path after an attempt to join `other` to it, keeping the direction
    /// of both. Where `other` ends at this path's start, the start moves back
    /// to the start of `other`. Else, where `other` starts at this path's end,
    /// the edges of `other` follow and the end moves on to the end of `other`.
    /// Else nothing changes.
    pub open spec fn joined(self, other: PathView<T>) -> PathView<T> {
        if self.style_id != other.style_id {
            self
        } else if other.end == self.start {
            PathView { start: other.start, ..self }
        } else if self.end == other.start {
            PathView { end: other.end, edges: self.edges + other.edges, ..self }
        } else {
            self
        }
    }

    /// `other` can be joined to this path where direction does not count.
    pub open spec fn accepts_undirected(self, other: PathView<T>) -> bool {
        self.style_id == other.style_id && (other.end == self.start || self.end == other.start
            || other.start == self.start || self.end == other.end)
    }

    /// This path after an attempt to join `other` to it where direction does
    /// not count. The first two cases are those of `joined`. Where the two
    /// paths only share their start, this path stays as it is. Where they only
    /// share their end, the edges of `other` follow this path's edges.
    pub open spec fn joined_undirected(self, other: PathView<T>) -> PathView<T> {
        if self.style_id != other.style_id {
            self
        } else if other.end == self.start {
            PathView { start: other.start, ..self }
        } else if self.end == other.start {
            PathView { end: other.end, edges: self.edges + other.edges, ..self }
        } else if other.start == self.start {
            self
        } else if self.end == other.end {
            PathView { edges: self.edges + other.edges, ..self }
        } else {
            self
        }
    }
}

/// Appends the edges of `more` to `edges`, in order.
fn extend_edges(edges: &mut Vec<Edge>, more: &Vec<Edge>)
    ensures
        final(edges)@ == old(edges)@ + more@,
{
    let mut i: usize = 0;
    while i < more.len()
        invariant
            i <= more.len(),
            edges@ == old(edges)@ + more@.take(i as int),
        decreases more.len() - i,
    {
        edges.push(more[i]);
        proof {
            assert(more@.take(i as int + 1) =~= more@.take(i as int).push(more@[i as int]));
        }
        i = i + 1;
    }
    proof {
        assert(more@.take(i as int) =~= more@);
    }
}

/// An open path: edges gathered under one style, from `start` to `end`.
#[derive(Debug)]
pub struct Path<'a, T> {
    style: &'a T,
    style_id: u32,
    start: Point,
    end: Point,
    edges: Vec<Edge>,
}

impl<'a, T> View for Path<'a, T> {
    type V = PathView<T>;

    closed spec fn view(&self) -> PathView<T> {
        PathView {
            style: *self.style,
            style_id: self.style_id,
            start: self.start,
            end: self.end,
            edges: self.edges@,
        }
    }
}

impl<'a, T> Path<'a, T> {
    /// A path without edges that starts and ends at `at`, in the style that
    /// has the number `style_id` in its table.
    pub fn new(style: &'a T, style_id: u32, at: Point) -> (path: Path<'a, T>)
        requires
            style_id != 0,
        ensures
            path@ == PathView::fresh(*style, style_id, at),
    {
        Path { style, style_id, start: at, end: at, edges: Vec::new() }
    }

    /// The style the path is drawn in.
    pub fn style(&self) -> (style: &'a T)
        ensures
            *style == self@.style,
    {
        self.style
    }

    /// The number of the path's style in its table, counted from 1.
    pub fn style_id(&self) -> (id: u32)
        ensures
            id == self@.style_id,
    {
        self.style_id
    }

    /// Where the path starts.
    pub fn start(&self) -> (p: Point)
        ensures
            p == self@.start,
    {
        self.start
    }

    /// Where the path ends.
    pub fn end(&self) -> (p: Point)
        ensures
            p == self@.end,
    {
        self.end
    }

    /// The edges of the path, in drawing order.
    pub fn edges(&self) -> (edges: &[Edge])
        ensures
            edges@ == self@.edges,
    {
        self.edges.as_slice()
    }

    /// Draws `edge` at the end of the path.
    pub fn add_edge(&mut self, edge: Edge)
        ensures
            final(self)@ == old(self)@.with_edge(edge),
    {
        self.end = edge.end();
        self.edges.push(edge);
    }

    /// Turns the path round, so that it describes the same outline walked the
    /// other way.
    pub fn flip(&mut self)
        ensures
            final(self)@ == old(self)@.flipped(),
    {
        let count = self.edges.len();
        let mut turned: Vec<Edge> = Vec::new();
        let mut i: usize = count;
        while i > 0
            invariant
                i <= count,
                count == self.edges.len(),
                turned.len() == count - i,
                forall|k: int| 0 <= k < turned.len() ==> turned[k] == self.edges[count - 1 - k],
            decreases i,
        {
            i = i - 1;
            turned.push(self.edges[i]);
        }
        proof {
            assert(turned@ =~= self.edges@.reverse());
        }
        self.edges = turned;
        let start = self.start;
        self.start = self.end;
        self.end = start;
    }

    /// Tries to join `path` to this path, keeping the direction of both, and
    /// tells whether it did. Paths of different styles never join.
    pub fn try_merge(&mut self, path: &Path<'a, T>) -> (merged: bool)
        ensures
            merged == old(self)@.accepts(path@),
            final(self)@ == old(self)@.joined(path@),
    {
        if self.style_id != path.style_id {
            false
        } else if path.end == self.start {
            self.start = path.start;
            true
        } else if self.end == path.start {
            extend_edges(&mut self.edges, &path.edges);
            self.end = path.end;
            true
        } else {
            false
        }
    }

    /// Tries to join `path` to this path where direction does not count, and
    /// tells whether it did. Paths of different styles never join.
    pub fn try_merge_undirected(&mut self, path: &Path<'a, T>) -> (merged: bool)
        ensures
            merged == old(self)@.accepts_undirected(path@),
            final(self)@ == old(self)@.joined_undirected(path@),
    {
        if self.style_id != path.style_id {
            false
        } else if path.end == self.start {
            self.start = path.start;
            true
        } else if self.end == path.start {
            extend_edges(&mut self.edges, &path.edges);
            self.end = path.end;
            true
        } else if path.start == self.start {
            self.start = path.start;
            true
        } else if self.end == path.end {
            extend_edges(&mut self.edges, &path.edges);
            self.end = path.end;
            true
        } else {
            false
        }
    }
}

/// Paths of different styles are never joined, wherever their ends lie: both
/// ways of joining refuse, and leave the path as it was.
pub proof fn lemma_styles_stay_apart<T>(a: PathView<T>, b: PathView<T>)
    requires
        a.style_id != b.style_id,
    ensures
        !a.accepts(b),
        a.joined(b) == a,
        !a.accepts_undirected(b),
        a.joined_undirected(b) == a,
{
}

/// A path that starts where another of the same style ends, and does not end
/// where that one starts, is appended to it: the joined path has the edges of
/// the first followed by those of the second, the start of the first and the
/// end of the second. This holds of both ways of joining.
pub proof fn lemma_join_appends<T>(a: PathView<T>, b: PathView<T>)
    requires
        a.style_id == b.style_id,
        a.end == b.start,
        b.end != a.start,
    ensures
        a.accepts(b),
        a.joined(b).edges == a.edges + b.edges,
        a.joined(b).start == a.start,
        a.joined(b).end == b.end,
        a.joined(b).style_id == a.style_id,
        a.joined(b).style == a.style,
        a.accepts_undirected(b),
        a.joined_undirected(b) == a.joined(b),
{
}

/// Paths that share no end are never joined, whatever their styles.
pub proof fn lemma_apart_paths_stay_apart<T>(a: PathView<T>, b: PathView<T>)
    requires
        a.start != b.start,
        a.start != b.end,
        a.end != b.start,
        a.end != b.end,
    ensures
        !a.accepts(b),
        a.joined(b) == a,
        !a.accepts_undirected(b),
        a.joined_undirected(b) == a,
{
}

/// A path that is refused is left as it was, and one that differs after the
/// attempt was accepted.
pub proof fn lemma_refused_is_unchanged<T>(a: PathView<T>, b: PathView<T>)
    ensures
        !a.accepts(b) ==> a.joined(b) == a,
        !a.accepts_undirected(b) ==> a.joined_undirected(b) == a,
        a.joined(b).style_id == a.style_id,
        a.joined(b).style == a.style,
        a.joined_undirected(b).style_id == a.style_id,
        a.joined_undirected(b).style == a.style,
{
}

/// A path that was just opened is traced: it ends where it starts.
pub proof fn lemma_fresh_path_is_traced<T>(style: T, style_id: u32, at: Point)
    ensures
        PathView::fresh(style, style_id, at).is_traced(),
{
}

/// A path to which an edge was added is traced: it ends where that edge ends.
pub proof fn lemma_drawn_path_is_traced<T>(path: PathView<T>, edge: Edge)
    ensures
        path.with_edge(edge).is_traced(),
{
}

/// Adding an edge and then more edges is adding them all at once.
pub proof fn lemma_edges_add_up<T>(path: PathView<T>, edge: Edge, more: Seq<Edge>)
    ensures
        path.with_edge(edge).with_edges(more) == path.with_edges(seq![edge] + more),
{
    let all = seq![edge] + more;
    assert(path.edges.push(edge) + more =~= path.edges + all);
    if more.len() > 0 {
        assert(all.last() == more.last());
    } else {
        assert(all.last() == edge);
        assert(path.edges.push(edge) =~= path.edges + all);
    }
}

/// Joining keeps a path traced, if the path that is joined to it is traced
/// too and the two are joined head to tail.
pub proof fn lemma_append_keeps_traced<T>(a: PathView<T>, b: PathView<T>)
    requires
        a.is_traced(),
        b.is_traced(),
        a.style_id == b.style_id,
        a.end == b.start,
        b.end != a.start,
    ensures
        a.joined(b).is_traced(),
{
    if b.edges.len() > 0 {
        assert((a.edges + b.edges).last() == b.edges.last());
    } else {
        assert(a.edges + b.edges =~= a.edges);
    }
}

} // verus!
