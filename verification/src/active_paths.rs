//! The paths of a shape that are waiting to be drawn.
//!
//! Each path that the pen has finished is offered to the paths gathered so
//! far. The first one that can take it grows by it; if none can, the path is
//! kept as a new entry behind the others. Entries are never taken out one by
//! one: the whole collection is handed over when the shape is complete.

use vstd::prelude::*;
use crate::path::{Path, PathView};

verus! {

/// Whether `entry` can take `path`: head to tail only, or at any shared end
/// where `undirected` is set.
pub open spec fn takes<T>(entry: PathView<T>, path: PathView<T>, undirected: bool) -> bool {
    if undirected {
        entry.accepts_undirected(path)
    } else {
        entry.accepts(path)
    }
}

/// What `entry` is after it was offered `path`.
pub open spec fn grown<T>(entry: PathView<T>, path: PathView<T>, undirected: bool) -> PathView<T> {
    if undirected {
        entry.joined_undirected(path)
    } else {
        entry.joined(path)
    }
}

/// The number of the first of `entries` that can take `path`, or the number
/// of entries if none can.
pub open spec fn first_taker<T>(entries: Seq<PathView<T>>, path: PathView<T>, undirected: bool) -> int
    decreases entries.len(),
{
    if entries.len() == 0 {
        0
    } else if takes(entries.first(), path, undirected) {
        0
    } else {
        1 + first_taker(entries.drop_first(), path, undirected)
    }
}

/// The entries after `path` was offered to them: the first entry that can take
/// it has grown by it, and the others are as before; if none can, `path`
/// stands behind them as a new entry.
pub open spec fn absorb<T>(entries: Seq<PathView<T>>, path: PathView<T>, undirected: bool) -> Seq<
    PathView<T>,
> {
    let at = first_taker(entries, path, undirected);
    if at < entries.len() {
        entries.update(at, grown(entries[at], path, undirected))
    } else {
        entries.push(path)
    }
}

/// The first taker is the one entry that can take the path while none before
/// it can.
pub proof fn lemma_first_taker<T>(entries: Seq<PathView<T>>, path: PathView<T>, undirected: bool)
    ensures
        0 <= first_taker(entries, path, undirected) <= entries.len(),
        forall|i: int|
            0 <= i < first_taker(entries, path, undirected) ==> !takes(
                #[trigger] entries[i],
                path,
                undirected,
            ),
        first_taker(entries, path, undirected) < entries.len() ==> takes(
            entries[first_taker(entries, path, undirected)],
            path,
            undirected,
        ),
    decreases entries.len(),
{
    if entries.len() > 0 && !takes(entries.first(), path, undirected) {
        let rest = entries.drop_first();
        let at = first_taker(rest, path, undirected);
        lemma_first_taker(rest, path, undirected);
        assert(first_taker(entries, path, undirected) == at + 1);
        assert forall|i: int| 0 <= i < at + 1 implies !takes(
            #[trigger] entries[i],
            path,
            undirected,
        ) by {
            if i > 0 {
                assert(entries[i] == rest[i - 1]);
            }
        }
        if at < rest.len() {
            assert(rest[at] == entries[at + 1]);
        }
    }
}

/// An entry that can take the path while none before it can is the first taker.
pub proof fn lemma_first_taker_is<T>(
    entries: Seq<PathView<T>>,
    path: PathView<T>,
    undirected: bool,
    at: int,
)
    requires
        0 <= at <= entries.len(),
        forall|i: int| 0 <= i < at ==> !takes(#[trigger] entries[i], path, undirected),
        at < entries.len() ==> takes(entries[at], path, undirected),
    ensures
        first_taker(entries, path, undirected) == at,
{
    lemma_first_taker(entries, path, undirected);
}

/// The finished paths of one kind, fills or strokes, in the order in which
/// they were first seen.
#[derive(Debug)]
pub struct ActivePaths<'a, T>(Vec<Path<'a, T>>);

impl<'a, T> View for ActivePaths<'a, T> {
    type V = Seq<PathView<T>>;

    closed spec fn view(&self) -> Seq<PathView<T>> {
        Seq::new(self.0@.len(), |i: int| self.0@[i]@)
    }
}

impl<'a, T> ActivePaths<'a, T> {
    /// A collection without entries.
    pub fn new() -> (paths: ActivePaths<'a, T>)
        ensures
            paths@ == Seq::<PathView<T>>::empty(),
    {
        let paths = ActivePaths(Vec::new());
        assert(paths@ =~= Seq::<PathView<T>>::empty());
        paths
    }

    /// The number of entries.
    pub fn len(&self) -> (n: usize)
        ensures
            n == self@.len(),
    {
        self.0.len()
    }

    /// The entry with the number `i`, counted from 0 in the order of arrival.
    pub fn get(&self, i: usize) -> (path: &Path<'a, T>)
        requires
            i < self@.len(),
        ensures
            path@ == self@[i as int],
    {
        &self.0[i]
    }

    /// Offers `path` to the entries, head to tail: the first entry that it
    /// continues, or that continues it, grows by it. If there is none, `path`
    /// becomes the last entry.
    pub fn merge_path(&mut self, path: Path<'a, T>)
        ensures
            final(self)@ == absorb(old(self)@, path@, false),
    {
        self.offer(path, false)
    }

    /// Offers `path` to the entries where direction does not count: the first
    /// entry that shares an end with it grows by it. If there is none, `path`
    /// becomes the last entry.
    pub fn merge_path_undirected(&mut self, path: Path<'a, T>)
        ensures
            final(self)@ == absorb(old(self)@, path@, true),
    {
        self.offer(path, true)
    }

    fn offer(&mut self, path: Path<'a, T>, undirected: bool)
        ensures
            final(self)@ == absorb(old(self)@, path@, undirected),
    {
        let mut i: usize = 0;
        while i < self.0.len()
            invariant
                i <= self.0.len(),
                self@ == old(self)@,
                forall|k: int| 0 <= k < i ==> !takes(#[trigger] self@[k], path@, undirected),
            decreases self.0.len() - i,
        {
            let ghost before = self@;
            let taken = if undirected {
                self.0[i].try_merge_undirected(&path)
            } else {
                self.0[i].try_merge(&path)
            };
            if taken {
                proof {
                    lemma_first_taker_is(before, path@, undirected, i as int);
                    assert(self@ =~= before.update(
                        i as int,
                        grown(before[i as int], path@, undirected),
                    ));
                }
                return ;
            }
            proof {
                assert(self@ =~= before);
            }
            i = i + 1;
        }
        proof {
            lemma_first_taker_is(self@, path@, undirected, i as int);
        }
        let ghost before = self@;
        self.0.push(path);
        proof {
            assert(self@ =~= before.push(path@));
        }
    }

    /// Hands over the entries, in the order of arrival.
    pub fn into_paths(self) -> (paths: Vec<Path<'a, T>>)
        ensures
            paths@.len() == self@.len(),
            forall|i: int| 0 <= i < paths@.len() ==> (#[trigger] paths@[i])@ == self@[i],
    {
        self.0
    }
}

/// A path that none of the entries can take is kept apart from them: the
/// entries stay as they were, and the path stands behind them.
pub proof fn lemma_untaken_path_is_kept_apart<T>(
    entries: Seq<PathView<T>>,
    path: PathView<T>,
    undirected: bool,
)
    requires
        forall|i: int| 0 <= i < entries.len() ==> !takes(#[trigger] entries[i], path, undirected),
    ensures
        absorb(entries, path, undirected) == entries.push(path),
{
    lemma_first_taker_is(entries, path, undirected, entries.len() as int);
}

/// A path that some entry can take adds no entry: the number of entries stays,
/// and every entry but the first that can take it is as it was.
pub proof fn lemma_taken_path_adds_no_entry<T>(
    entries: Seq<PathView<T>>,
    path: PathView<T>,
    undirected: bool,
    at: int,
)
    requires
        0 <= at < entries.len(),
        takes(entries[at], path, undirected),
    ensures
        absorb(entries, path, undirected).len() == entries.len(),
        first_taker(entries, path, undirected) <= at,
        forall|i: int|
            0 <= i < entries.len() && i != first_taker(entries, path, undirected) ==> absorb(
                entries,
                path,
                undirected,
            )[i] == entries[i],
{
    lemma_first_taker(entries, path, undirected);
}

/// The entries after each of `paths` was offered to them, one after the
/// other.
pub open spec fn absorb_all<T>(
    entries: Seq<PathView<T>>,
    paths: Seq<PathView<T>>,
    undirected: bool,
) -> Seq<PathView<T>>
    decreases paths.len(),
{
    if paths.len() == 0 {
        entries
    } else {
        absorb_all(absorb(entries, paths.first(), undirected), paths.drop_first(), undirected)
    }
}

/// The two paths share no end.
pub open spec fn apart<T>(a: PathView<T>, b: PathView<T>) -> bool {
    a.start != b.start && a.start != b.end && a.end != b.start && a.end != b.end
}

/// Paths that share no end with the entries nor with one another are all kept
/// as entries of their own, behind the entries and in their order.
pub proof fn lemma_paths_apart_are_added<T>(
    entries: Seq<PathView<T>>,
    paths: Seq<PathView<T>>,
    undirected: bool,
)
    requires
        forall|i: int, j: int|
            0 <= i < entries.len() && 0 <= j < paths.len() ==> apart(
                #[trigger] entries[i],
                #[trigger] paths[j],
            ),
        forall|i: int, j: int|
            0 <= i < j < paths.len() ==> apart(#[trigger] paths[i], #[trigger] paths[j]),
    ensures
        absorb_all(entries, paths, undirected) == entries + paths,
    decreases paths.len(),
{
    if paths.len() == 0 {
        assert(entries + paths =~= entries);
    } else {
        let path = paths.first();
        let rest = paths.drop_first();
        assert forall|i: int| 0 <= i < entries.len() implies !takes(
            #[trigger] entries[i],
            path,
            undirected,
        ) by {
            assert(apart(entries[i], paths[0]));
        }
        lemma_untaken_path_is_kept_apart(entries, path, undirected);
        let wider = entries.push(path);
        assert forall|i: int, j: int| 0 <= i < wider.len() && 0 <= j < rest.len() implies apart(
            #[trigger] wider[i],
            #[trigger] rest[j],
        ) by {
            assert(rest[j] == paths[j + 1]);
            if i < entries.len() {
                assert(wider[i] == entries[i]);
            } else {
                assert(wider[i] == paths[0]);
            }
        }
        assert forall|i: int, j: int| 0 <= i < j < rest.len() implies apart(
            #[trigger] rest[i],
            #[trigger] rest[j],
        ) by {
            assert(rest[i] == paths[i + 1] && rest[j] == paths[j + 1]);
        }
        lemma_paths_apart_are_added(wider, rest, undirected);
        assert(wider + rest =~= entries + paths);
    }
}

/// Paths of which no two share an end stay separate: offered one after the
/// other to a collection without entries, each becomes an entry of its own,
/// in their order, whatever their styles.
pub proof fn lemma_paths_apart_stay_separate<T>(paths: Seq<PathView<T>>, undirected: bool)
    requires
        forall|i: int, j: int|
            0 <= i < j < paths.len() ==> apart(#[trigger] paths[i], #[trigger] paths[j]),
    ensures
        absorb_all(Seq::empty(), paths, undirected) == paths,
{
    lemma_paths_apart_are_added(Seq::empty(), paths, undirected);
    assert(Seq::<PathView<T>>::empty() + paths =~= paths);
}

} // verus!
