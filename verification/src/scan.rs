//! The search of a volume for installation folders.
//!
//! A folder is an installation where it holds both marker files directly.
//! The search goes depth first and never enters a folder whose name is
//! restricted. The caller lists one folder at a time and hands the listing
//! over; [`VolumeSearch`] says which folder comes next and keeps what was
//! found.

use crate::helpers::texts;
use crate::names::same_text;
use vstd::prelude::*;

verus! {

/// One entry of the listing of a folder on the volume.
#[derive(Clone, Debug)]
pub struct VolumeEntry {
    /// The entry's name: the last component of its path.
    pub name: String,
    /// The entry's whole path.
    pub path: String,
    /// Whether the entry is a folder.
    pub is_dir: bool,
}

/// The names of folders that are never entered: they need rights that the
/// search has not, or hold nothing of interest. The match is exact.
pub open spec fn is_restricted_name(name: Seq<char>) -> bool {
    ||| name == "$RECYCLE.BIN"@
    ||| name == "$Recycle.Bin"@
    ||| name == ".Trash-1000"@
    ||| name == "Config.Msi"@
    ||| name == "$Windows.~BT"@
    ||| name == "$Windows.~WS"@
    ||| name == "System Volume Information"@
    ||| name == "WindowsApps"@
    ||| name == "Recovery"@
    ||| name == "MSOCache"@
    ||| name == "PerfLogs"@
    ||| name == "Microsoft"@
    ||| name == "Windows"@
    ||| name == "ProgramData"@
    ||| name == "Temp"@
    ||| name == "NVIDIA"@
    ||| name == "Program Files"@
    ||| name == "Program Files (x86)"@
}

/// Whether a folder of this name is left out of the search.
pub fn is_restricted_or_junk(name: &str) -> (restricted: bool)
    ensures
        restricted == is_restricted_name(name@),
{
    same_text(name, "$RECYCLE.BIN") || same_text(name, "$Recycle.Bin") || same_text(
        name,
        ".Trash-1000",
    ) || same_text(name, "Config.Msi") || same_text(name, "$Windows.~BT") || same_text(
        name,
        "$Windows.~WS",
    ) || same_text(name, "System Volume Information") || same_text(name, "WindowsApps")
        || same_text(name, "Recovery") || same_text(name, "MSOCache") || same_text(
        name,
        "PerfLogs",
    ) || same_text(name, "Microsoft") || same_text(name, "Windows") || same_text(
        name,
        "ProgramData",
    ) || same_text(name, "Temp") || same_text(name, "NVIDIA") || same_text(
        name,
        "Program Files",
    ) || same_text(name, "Program Files (x86)")
}

/// Some entry of the listing has this name.
pub open spec fn has_entry_named(entries: Seq<VolumeEntry>, name: Seq<char>) -> bool {
    exists|i: int| 0 <= i < entries.len() && #[trigger] entries[i].name@ == name
}

/// The listing holds both marker files: the data archive and the executable.
pub open spec fn has_markers(entries: Seq<VolumeEntry>) -> bool {
    has_entry_named(entries, "datapc64.forge"@) && has_entry_named(entries, "RainbowSix.exe"@)
}

/// The entry is a folder that the search enters.
pub open spec fn is_entered(entry: VolumeEntry) -> bool {
    entry.is_dir && !is_restricted_name(entry.name@)
}

/// The paths, in listing order, of the folders of a listing that the search
/// enters.
pub open spec fn subfolders(entries: Seq<VolumeEntry>) -> Seq<Seq<char>>
    decreases entries.len(),
{
    if entries.len() == 0 {
        Seq::empty()
    } else if is_entered(entries.last()) {
        subfolders(entries.drop_last()).push(entries.last().path@)
    } else {
        subfolders(entries.drop_last())
    }
}

/// The search never enters a restricted folder: every path that a listing
/// gives to go on with is that of an entry which is a folder and whose name
/// is not restricted.
pub proof fn lemma_subfolders_are_entered(entries: Seq<VolumeEntry>, k: int)
    requires
        0 <= k < subfolders(entries).len(),
    ensures
        exists|i: int|
            0 <= i < entries.len() && is_entered(#[trigger] entries[i]) && entries[i].path@
                == subfolders(entries)[k],
    decreases entries.len(),
{
    if entries.len() > 0 {
        let rest = entries.drop_last();
        if is_entered(entries.last()) && k == subfolders(rest).len() {
            assert(is_entered(entries[entries.len() - 1]));
        } else {
            lemma_subfolders_are_entered(rest, k);
            let i = choose|i: int|
                0 <= i < rest.len() && is_entered(#[trigger] rest[i]) && rest[i].path@
                    == subfolders(rest)[k];
            assert(entries[i] == rest[i]);
        }
    }
}

/// What the visit of one folder gives: what was found after it, and the
/// folders to go on with.
pub open spec fn found_after(
    dir: Seq<char>,
    listing: Option<Vec<VolumeEntry>>,
    found: Seq<Seq<char>>,
    stop_flag: bool,
) -> Seq<Seq<char>> {
    match listing {
        Some(entries) if !stop_flag && has_markers(entries@) => found.push(dir),
        _ => found,
    }
}

/// The folders beneath a visited folder that are searched next, in order.
pub open spec fn entered_after(listing: Option<Vec<VolumeEntry>>, stop_flag: bool) -> Seq<
    Seq<char>,
> {
    match listing {
        Some(entries) if !stop_flag => subfolders(entries@),
        _ => Seq::empty(),
    }
}

/// Looks at one folder of the volume. `listing` is what the folder holds,
/// `None` where it could not be listed. With the stop flag set nothing is
/// done. Otherwise `dir` is added to `results` where the listing holds both
/// marker files, and the folders to search next come back, in listing order
/// and without the restricted ones.
pub fn scan_recursive(
    dir: &str,
    listing: &Option<Vec<VolumeEntry>>,
    results: &mut Vec<String>,
    stop_flag: bool,
) -> (subdirs: Vec<String>)
    ensures
        texts(final(results)@) == found_after(dir@, *listing, texts(old(results)@), stop_flag),
        texts(subdirs@) == entered_after(*listing, stop_flag),
{
    let mut subdirs: Vec<String> = Vec::new();
    assert(texts(subdirs@) =~= Seq::<Seq<char>>::empty());
    if stop_flag {
        return subdirs;
    }
    let entries = match listing {
        None => {
            return subdirs;
        },
        Some(entries) => entries,
    };
    let mut found_forge: bool = false;
    let mut found_exe: bool = false;
    let mut i: usize = 0;
    while i < entries.len()
        invariant
            i <= entries@.len(),
            *results == *old(results),
            found_forge == has_entry_named(entries@.take(i as int), "datapc64.forge"@),
            found_exe == has_entry_named(entries@.take(i as int), "RainbowSix.exe"@),
            texts(subdirs@) == subfolders(entries@.take(i as int)),
        decreases entries@.len() - i,
    {
        let entry = &entries[i];
        proof {
            let seen = entries@.take(i as int);
            let next = entries@.take(i + 1);
            assert(next.drop_last() =~= seen);
            assert(next.last() == *entry);
            lemma_has_entry_named_push(seen, next, "datapc64.forge"@);
            lemma_has_entry_named_push(seen, next, "RainbowSix.exe"@);
        }
        if same_text(entry.name.as_str(), "datapc64.forge") {
            found_forge = true;
        }
        if same_text(entry.name.as_str(), "RainbowSix.exe") {
            found_exe = true;
        }
        if entry.is_dir && !is_restricted_or_junk(entry.name.as_str()) {
            let ghost before = subdirs@;
            subdirs.push(entry.path.clone());
            assert(texts(subdirs@) =~= texts(before).push(entry.path@));
        }
        i += 1;
    }
    assert(entries@.take(i as int) =~= entries@);
    if found_forge && found_exe {
        let ghost before = results@;
        results.push(dir.to_owned());
        assert(texts(results@) =~= texts(before).push(dir@));
    }
    subdirs
}

/// A listing that grew by one entry holds a name where it held it before or
/// where the new entry has it.
proof fn lemma_has_entry_named_push(
    seen: Seq<VolumeEntry>,
    next: Seq<VolumeEntry>,
    name: Seq<char>,
)
    requires
        next.len() > 0,
        next.drop_last() == seen,
    ensures
        has_entry_named(next, name) == (has_entry_named(seen, name) || next.last().name@ == name),
{
    if has_entry_named(seen, name) {
        let i = choose|i: int| 0 <= i < seen.len() && #[trigger] seen[i].name@ == name;
        assert(next[i] == seen[i]);
    }
    if next.last().name@ == name {
        assert(next[next.len() - 1].name@ == name);
    }
    if has_entry_named(next, name) {
        let i = choose|i: int| 0 <= i < next.len() && #[trigger] next[i].name@ == name;
        if i < seen.len() {
            assert(seen[i] == next[i]);
        }
    }
}

/// A search as contracts speak of it.
pub struct SearchView {
    /// The folders yet to visit; the last one comes next.
    pub pending: Seq<Seq<char>>,
    /// The installation folders found so far, in the order of their finding.
    pub results: Seq<Seq<char>>,
    /// Whether the search was stopped.
    pub stopped: bool,
}

impl SearchView {
    /// The search has no folder left to visit, or was stopped.
    pub open spec fn is_finished(self) -> bool {
        self.stopped || self.pending.len() == 0
    }

    /// The search after the visit of its next folder. A finished search
    /// stays as it is. With the stop flag set the search is stopped and
    /// keeps what it found. Otherwise the folder leaves the list, is added
    /// to the results where its listing holds both markers, and its
    /// subfolders are put in front of all that waited, the first of them
    /// foremost.
    pub open spec fn visit(self, listing: Option<Vec<VolumeEntry>>, stop_flag: bool) -> SearchView {
        if self.is_finished() {
            self
        } else if stop_flag {
            SearchView { pending: self.pending, results: self.results, stopped: true }
        } else {
            SearchView {
                pending: self.pending.drop_last() + entered_after(listing, false).reverse(),
                results: found_after(self.pending.last(), listing, self.results, false),
                stopped: false,
            }
        }
    }

    /// The search after a row of visits, each with the listing that the
    /// folder gave and the stop flag as it stood then.
    pub open spec fn run(self, visits: Seq<(Option<Vec<VolumeEntry>>, bool)>) -> SearchView
        decreases visits.len(),
    {
        if visits.len() == 0 {
            self
        } else {
            self.run(visits.drop_last()).visit(visits.last().0, visits.last().1)
        }
    }
}

/// The same visits with the stop flag never set.
pub open spec fn without_stop(visits: Seq<(Option<Vec<VolumeEntry>>, bool)>) -> Seq<
    (Option<Vec<VolumeEntry>>, bool),
> {
    visits.map_values(|visit: (Option<Vec<VolumeEntry>>, bool)| (visit.0, false))
}

/// A visit takes nothing back: what was found before it is the beginning of
/// what is found after it.
pub proof fn lemma_visit_keeps_results(
    search: SearchView,
    listing: Option<Vec<VolumeEntry>>,
    stop_flag: bool,
)
    ensures
        search.results.is_prefix_of(search.visit(listing, stop_flag).results),
{
}

/// What a search has found at any moment is the beginning of what it has
/// found at every later moment.
pub proof fn lemma_results_only_grow(
    search: SearchView,
    visits: Seq<(Option<Vec<VolumeEntry>>, bool)>,
    count: int,
)
    requires
        0 <= count <= visits.len(),
    ensures
        search.run(visits.take(count)).results.is_prefix_of(search.run(visits).results),
    decreases visits.len(),
{
    if count == visits.len() {
        assert(visits.take(count) =~= visits);
    } else {
        let shorter = visits.drop_last();
        assert(shorter.take(count) =~= visits.take(count));
        lemma_results_only_grow(search, shorter, count);
        lemma_visit_keeps_results(search.run(shorter), visits.last().0, visits.last().1);
    }
}

/// A set stop flag ends the search at its next visit: nothing is left to
/// do after it, and nothing was added to what was found.
pub proof fn lemma_stop_ends_search(search: SearchView, listing: Option<Vec<VolumeEntry>>)
    ensures
        search.visit(listing, true).is_finished(),
        search.visit(listing, true).results == search.results,
{
}

/// A stopped search finds nothing more.
pub proof fn lemma_stopped_stays(search: SearchView, visits: Seq<(Option<Vec<VolumeEntry>>, bool)>)
    requires
        search.stopped,
    ensures
        search.run(visits) == search,
    decreases visits.len(),
{
    if visits.len() > 0 {
        lemma_stopped_stays(search, visits.drop_last());
    }
}

/// Stopping a search loses nothing that was found and adds nothing: after
/// the same listings, a search whose stop flag was set at some moment has
/// found a beginning of what the search that was never stopped has found.
pub proof fn lemma_stopped_search_finds_prefix(
    search: SearchView,
    visits: Seq<(Option<Vec<VolumeEntry>>, bool)>,
)
    requires
        !search.stopped,
    ensures
        search.run(visits).results.is_prefix_of(search.run(without_stop(visits)).results),
        !search.run(visits).stopped ==> search.run(visits) == search.run(without_stop(visits)),
    decreases visits.len(),
{
    if visits.len() > 0 {
        let shorter = visits.drop_last();
        assert(without_stop(visits).drop_last() =~= without_stop(shorter));
        assert(without_stop(visits).last() == (visits.last().0, false));
        lemma_stopped_search_finds_prefix(search, shorter);
        let free = search.run(without_stop(shorter));
        lemma_visit_keeps_results(free, visits.last().0, false);
    }
}

/// A running search of a volume: the folders that wait to be visited and
/// the installation folders found so far.
#[derive(Debug)]
pub struct VolumeSearch {
    /// The folders yet to visit; the last one comes next.
    pub pending: Vec<String>,
    /// The installation folders found so far.
    pub results: Vec<String>,
    /// Whether the search was stopped.
    pub stopped: bool,
}

impl View for VolumeSearch {
    type V = SearchView;

    open spec fn view(&self) -> SearchView {
        SearchView {
            pending: texts(self.pending@),
            results: texts(self.results@),
            stopped: self.stopped,
        }
    }
}

impl VolumeSearch {
    /// A search that begins at `root` and has found nothing yet.
    pub fn new(root: String) -> (search: Self)
        ensures
            search@.pending == seq![root@],
            search@.results == Seq::<Seq<char>>::empty(),
            !search@.stopped,
    {
        let mut pending: Vec<String> = Vec::new();
        pending.push(root);
        let search = VolumeSearch { pending, results: Vec::new(), stopped: false };
        assert(search@.pending =~= seq![root@]);
        assert(search@.results =~= Seq::<Seq<char>>::empty());
        search
    }

    /// Whether nothing is left to do.
    pub fn is_finished(&self) -> (finished: bool)
        ensures
            finished == self@.is_finished(),
    {
        self.stopped || self.pending.len() == 0
    }

    /// The folder to list next; `None` where the search is finished.
    pub fn next_folder(&self) -> (folder: Option<String>)
        ensures
            match folder {
                Some(path) => !self@.is_finished() && path@ == self@.pending.last(),
                None => self@.is_finished(),
            },
    {
        if self.stopped || self.pending.len() == 0 {
            None
        } else {
            Some(self.pending[self.pending.len() - 1].clone())
        }
    }

    /// Takes the listing of the folder that [`Self::next_folder`] named, and
    /// the stop flag as it stands.
    pub fn visit(&mut self, listing: &Option<Vec<VolumeEntry>>, stop_flag: bool)
        ensures
            final(self)@ == old(self)@.visit(*listing, stop_flag),
    {
        if self.stopped {
            return ;
        }
        if stop_flag {
            if self.pending.len() > 0 {
                self.stopped = true;
            }
            return ;
        }
        let dir = match self.pending.pop() {
            None => {
                return ;
            },
            Some(dir) => dir,
        };
        let ghost rest = texts(self.pending@);
        assert(rest =~= old(self)@.pending.drop_last());
        let subdirs = scan_recursive(dir.as_str(), listing, &mut self.results, false);
        let ghost entered = texts(subdirs@);
        let mut left: usize = subdirs.len();
        while left > 0
            invariant
                left <= subdirs@.len(),
                entered == texts(subdirs@),
                texts(self.pending@) == rest + entered.reverse().take(subdirs@.len() - left),
                texts(self.results@) == found_after(
                    dir@,
                    *listing,
                    texts(old(self).results@),
                    false,
                ),
                self.stopped == old(self).stopped,
            decreases left,
        {
            left -= 1;
            let ghost before = self.pending@;
            self.pending.push(subdirs[left].clone());
            assert(texts(self.pending@) =~= texts(before).push(subdirs@[left as int]@));
            assert(entered.reverse()[subdirs@.len() - left - 1] == entered[left as int]);
            assert(texts(self.pending@) =~= rest + entered.reverse().take(
                subdirs@.len() - left,
            ));
        }
        assert(entered.reverse().take(subdirs@.len() as int) =~= entered.reverse());
        assert(final(self)@.pending =~= old(self)@.visit(*listing, stop_flag).pending);
    }

    /// Ends the search and hands out what was found.
    pub fn into_results(self) -> (results: Vec<String>)
        ensures
            texts(results@) == self@.results,
    {
        self.results
    }
}

} // verus!
