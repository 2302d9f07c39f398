//! What a search finds on a whole volume.
//!
//! A volume is taken as what each of its folders lists. The search is run on
//! it one visit after the other, each visit with the listing of the folder
//! that the search asked for. What it finds is stated without the search:
//! the installation folders in depth-first order, a folder before all that
//! lies beneath it, the folders of one listing in listing order.

use crate::scan::{entered_after, found_after, SearchView, VolumeEntry};
use vstd::prelude::*;

verus! {

/// A volume: the listing of each folder, by its path; `None` where the
/// folder cannot be listed.
pub type Volume = Map<Seq<char>, Option<Vec<VolumeEntry>>>;

/// The listing that the volume gives for a path; a path that it does not
/// hold cannot be listed.
pub open spec fn listing_at(volume: Volume, path: Seq<char>) -> Option<Vec<VolumeEntry>> {
    if volume.dom().contains(path) {
        volume[path]
    } else {
        None
    }
}

/// The folders that the search enters from `path`.
pub open spec fn entered_from(volume: Volume, path: Seq<char>) -> Seq<Seq<char>> {
    entered_after(listing_at(volume, path), false)
}

/// The folder at `path` is an installation: `seq![path]` where it is, and
/// nothing where it is not.
pub open spec fn installation_at(volume: Volume, path: Seq<char>) -> Seq<Seq<char>> {
    found_after(path, listing_at(volume, path), Seq::empty(), false)
}

/// No chain of entered folders that begins at `path` is longer than `depth`.
pub open spec fn is_within(volume: Volume, path: Seq<char>, depth: nat) -> bool
    decreases depth, 0nat,
{
    depth > 0 && all_within(volume, entered_from(volume, path), (depth - 1) as nat)
}

/// Each of the paths is within `depth`.
pub open spec fn all_within(volume: Volume, paths: Seq<Seq<char>>, depth: nat) -> bool
    decreases depth, paths.len() + 1,
{
    paths.len() == 0 || (is_within(volume, paths.first(), depth) && all_within(
        volume,
        paths.drop_first(),
        depth,
    ))
}

/// The installation folders at and beneath `path`, down to `depth` levels:
/// the folder itself first, then those beneath each folder that its listing
/// gives to enter, in listing order.
pub open spec fn installations_under(volume: Volume, path: Seq<char>, depth: nat) -> Seq<
    Seq<char>,
>
    decreases depth, 0nat,
{
    if depth == 0 {
        Seq::empty()
    } else {
        installation_at(volume, path) + installations_in(
            volume,
            entered_from(volume, path),
            (depth - 1) as nat,
        )
    }
}

/// The installation folders at and beneath each of the paths, in the order
/// of the paths.
pub open spec fn installations_in(volume: Volume, paths: Seq<Seq<char>>, depth: nat) -> Seq<
    Seq<char>,
>
    decreases depth, paths.len() + 1,
{
    if paths.len() == 0 {
        Seq::empty()
    } else {
        installations_under(volume, paths.first(), depth) + installations_in(
            volume,
            paths.drop_first(),
            depth,
        )
    }
}

/// The number of folders at and beneath `path`, down to `depth` levels.
pub open spec fn folders_under(volume: Volume, path: Seq<char>, depth: nat) -> nat
    decreases depth, 0nat,
{
    if depth == 0 {
        0
    } else {
        1 + folders_in(volume, entered_from(volume, path), (depth - 1) as nat)
    }
}

/// The number of folders at and beneath the paths.
pub open spec fn folders_in(volume: Volume, paths: Seq<Seq<char>>, depth: nat) -> nat
    decreases depth, paths.len() + 1,
{
    if paths.len() == 0 {
        0
    } else {
        folders_under(volume, paths.first(), depth) + folders_in(volume, paths.drop_first(), depth)
    }
}

/// The search after `visits` visits on the volume, none of them with the
/// stop flag set: each visit takes the listing of the folder that comes
/// next.
pub open spec fn search_on(search: SearchView, volume: Volume, visits: nat) -> SearchView
    decreases visits,
{
    if visits == 0 {
        search
    } else {
        search_on(
            search.visit(listing_at(volume, search.pending.last()), false),
            volume,
            (visits - 1) as nat,
        )
    }
}

/// A search that begins at `root`.
pub open spec fn search_from(root: Seq<char>) -> SearchView {
    SearchView { pending: seq![root], results: Seq::empty(), stopped: false }
}

/// Visits made one after the other add up.
pub proof fn lemma_search_on_adds(search: SearchView, volume: Volume, first: nat, then: nat)
    ensures
        search_on(search, volume, first + then) == search_on(
            search_on(search, volume, first),
            volume,
            then,
        ),
    decreases first,
{
    if first > 0 {
        lemma_search_on_adds(
            search.visit(listing_at(volume, search.pending.last()), false),
            volume,
            (first - 1) as nat,
            then,
        );
    }
}

/// A sequence turned round, by its first element.
proof fn lemma_reverse_first(paths: Seq<Seq<char>>)
    requires
        paths.len() > 0,
    ensures
        paths.reverse() == paths.drop_first().reverse().push(paths.first()),
{
    assert(paths.reverse() =~= paths.drop_first().reverse().push(paths.first()));
}

/// The search of one folder: when the folder that comes next lies within
/// `depth`, then after as many visits as there are folders at and beneath
/// it, the folder has left the list, all that waited before still waits,
/// and the installations at and beneath it were added to the results, in
/// depth-first order.
pub proof fn lemma_search_under(search: SearchView, volume: Volume, depth: nat)
    requires
        !search.stopped,
        search.pending.len() > 0,
        is_within(volume, search.pending.last(), depth),
    ensures
        search_on(search, volume, folders_under(volume, search.pending.last(), depth))
            == (SearchView {
            pending: search.pending.drop_last(),
            results: search.results + installations_under(volume, search.pending.last(), depth),
            stopped: false,
        }),
    decreases depth, 0nat,
{
    let path = search.pending.last();
    let listing = listing_at(volume, path);
    let entered = entered_from(volume, path);
    let below = (depth - 1) as nat;
    let visited = search.visit(listing, false);
    assert(visited.pending == search.pending.drop_last() + entered.reverse());
    assert(visited.results =~= search.results + installation_at(volume, path));
    lemma_search_in(visited, volume, search.pending.drop_last(), entered, below);
    let end = search_on(visited, volume, folders_in(volume, entered, below));
    assert(search_on(search, volume, folders_under(volume, path, depth)) == end);
    assert(end.results =~= search.results + installations_under(volume, path, depth));
}

/// The search of the folders of one listing, one after the other.
pub proof fn lemma_search_in(
    search: SearchView,
    volume: Volume,
    waiting: Seq<Seq<char>>,
    paths: Seq<Seq<char>>,
    depth: nat,
)
    requires
        !search.stopped,
        search.pending == waiting + paths.reverse(),
        all_within(volume, paths, depth),
    ensures
        search_on(search, volume, folders_in(volume, paths, depth)) == (SearchView {
            pending: waiting,
            results: search.results + installations_in(volume, paths, depth),
            stopped: false,
        }),
    decreases depth, paths.len() + 1,
{
    if paths.len() == 0 {
        assert(search.pending =~= waiting);
        assert(search.results + installations_in(volume, paths, depth) =~= search.results);
    } else {
        let first = paths.first();
        let rest = paths.drop_first();
        lemma_reverse_first(paths);
        assert(search.pending =~= (waiting + rest.reverse()).push(first));
        assert(search.pending.last() == first);
        assert(search.pending.drop_last() =~= waiting + rest.reverse());
        lemma_search_under(search, volume, depth);
        let count = folders_under(volume, first, depth);
        let middle = search_on(search, volume, count);
        lemma_search_in(middle, volume, waiting, rest, depth);
        lemma_search_on_adds(search, volume, count, folders_in(volume, rest, depth));
        let end = search_on(middle, volume, folders_in(volume, rest, depth));
        assert(end.results =~= search.results + installations_in(volume, paths, depth));
    }
}

/// A search that is not stopped finds every installation of the volume that
/// it can reach, and nothing else: on a volume that lies within `depth`
/// levels beneath `root`, the search from `root` ends after one visit for
/// each folder, with nothing left to visit, and has found the installation
/// folders at and beneath `root` in depth-first order.
pub proof fn lemma_search_finds_installations(volume: Volume, root: Seq<char>, depth: nat)
    requires
        is_within(volume, root, depth),
    ensures
        search_on(search_from(root), volume, folders_under(volume, root, depth)) == (SearchView {
            pending: Seq::empty(),
            results: installations_under(volume, root, depth),
            stopped: false,
        }),
{
    let search = search_from(root);
    assert(search.pending.last() == root);
    lemma_search_under(search, volume, depth);
    assert(search.pending.drop_last() =~= Seq::<Seq<char>>::empty());
    assert(search.results + installations_under(volume, root, depth) =~= installations_under(
        volume,
        root,
        depth,
    ));
}

} // verus!
