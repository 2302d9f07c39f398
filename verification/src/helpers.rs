//! What an installation folder holds, and what a shearing run removes from it.
//!
//! The caller lists the folder and hands the listing over; nothing here
//! touches the disk.

use crate::names::{
    is_event_file, is_event_name, is_forge_file, is_forge_name, is_siege_process,
    is_siege_process_name, texture_level, texture_level_of,
};
use crate::types::{ForgeTextureQualityLevel, ShearingFeaturesAvailability};
use vstd::prelude::*;

verus! {

/// One entry of a folder listing.
#[derive(Clone, Debug)]
pub struct FolderEntry {
    /// The entry's name: the last component of its path.
    pub name: String,
    /// The entry's length in bytes; `None` where it could not be read.
    pub size: Option<u64>,
}

/// A file or a folder together with all that lies beneath it.
#[derive(Debug)]
pub enum FolderItem {
    /// A file with its length in bytes; `None` where it could not be read.
    File(Option<u64>),
    /// A folder with its contents; `None` where it could not be listed.
    Folder(Option<Vec<FolderItem>>),
}

/// Why the size of a folder is not known.
#[derive(Clone, Copy, Debug, PartialEq, Eq, Structural)]
pub enum FolderSizeError {
    /// A folder beneath it could not be listed, or a file not be read.
    Unreadable,
}

/// A byte count as a `u64` holds it: counts above `u64::MAX` are held as
/// `u64::MAX`.
pub open spec fn capped(total: int) -> u64 {
    if total > u64::MAX {
        u64::MAX
    } else if total < 0 {
        0
    } else {
        total as u64
    }
}

/// The pair that a snapshot holds for a kind that takes `total` bytes.
pub open spec fn bucket(total: int) -> (bool, u64) {
    (capped(total) > 0, capped(total))
}

/// The bytes that an entry is counted with: its length, and nothing where
/// the length could not be read.
pub open spec fn entry_bytes(entry: FolderEntry) -> int {
    match entry.size {
        Some(n) => n as int,
        None => 0,
    }
}

/// The bytes that an entry adds to the textures of `level`.
pub open spec fn entry_texture_bytes(entry: FolderEntry, level: ForgeTextureQualityLevel) -> int {
    if texture_level(entry.name@) == Some(level) {
        entry_bytes(entry)
    } else {
        0
    }
}

/// The bytes of all texture archives of `level` in a listing.
pub open spec fn texture_bytes(entries: Seq<FolderEntry>, level: ForgeTextureQualityLevel) -> int
    decreases entries.len(),
{
    if entries.len() == 0 {
        0
    } else {
        texture_bytes(entries.drop_last(), level) + entry_texture_bytes(entries.last(), level)
    }
}

/// The bytes that an entry adds to the event files.
pub open spec fn entry_event_bytes(entry: FolderEntry) -> int {
    if is_event_name(entry.name@) {
        entry_bytes(entry)
    } else {
        0
    }
}

/// The bytes of all event files in a listing.
pub open spec fn event_bytes(entries: Seq<FolderEntry>) -> int
    decreases entries.len(),
{
    if entries.len() == 0 {
        0
    } else {
        event_bytes(entries.drop_last()) + entry_event_bytes(entries.last())
    }
}

/// Some entry of the listing is an archive.
pub open spec fn has_forge_entry(entries: Seq<FolderEntry>) -> bool {
    exists|i: int| 0 <= i < entries.len() && is_forge_name(#[trigger] entries[i].name@)
}

/// The bytes of a file, or of all files beneath a folder; `None` where any
/// part of it could not be read.
pub open spec fn item_bytes(item: FolderItem) -> Option<int>
    decreases item, 0nat,
{
    match item {
        FolderItem::File(Some(n)) => Some(n as int),
        FolderItem::File(None) => None,
        FolderItem::Folder(None) => None,
        FolderItem::Folder(Some(items)) => items_bytes(items, items@.len()),
    }
}

/// The bytes of the first `count` items; `None` where any of them could not
/// be read.
pub open spec fn items_bytes(items: Vec<FolderItem>, count: nat) -> Option<int>
    decreases items, count,
{
    if count == 0 || count > items@.len() {
        Some(0)
    } else {
        match (items_bytes(items, (count - 1) as nat), item_bytes(items@[count - 1])) {
            (Some(before), Some(last)) => Some(before + last),
            _ => None,
        }
    }
}

/// The bytes of the `videos` folder: nothing where there is no such folder,
/// `None` where part of it could not be read.
pub open spec fn videos_bytes(videos: Option<FolderItem>) -> Option<int> {
    match videos {
        None => Some(0),
        Some(FolderItem::File(_)) => Some(0),
        Some(FolderItem::Folder(None)) => None,
        Some(FolderItem::Folder(Some(items))) => items_bytes(items, items@.len()),
    }
}

/// The snapshot's pair for the videos.
pub open spec fn videos_bucket(videos: Option<FolderItem>) -> (bool, u64) {
    match videos_bytes(videos) {
        Some(total) => bucket(total),
        None => (false, 0u64),
    }
}

/// No byte count is negative.
pub proof fn lemma_bytes_not_negative(entries: Seq<FolderEntry>, level: ForgeTextureQualityLevel)
    ensures
        texture_bytes(entries, level) >= 0,
        event_bytes(entries) >= 0,
    decreases entries.len(),
{
    if entries.len() > 0 {
        lemma_bytes_not_negative(entries.drop_last(), level);
    }
}

/// The sum of two byte counts, held at `u64::MAX` where it would pass it.
fn add_capped(total: u64, more: u64, Ghost(exact): Ghost<int>) -> (sum: u64)
    requires
        exact >= 0,
        total == capped(exact),
    ensures
        sum == capped(exact + more),
{
    total.saturating_add(more)
}

/// The size of all that lies beneath a folder.
pub fn get_folder_size(items: &Vec<FolderItem>) -> (size: Result<u64, FolderSizeError>)
    ensures
        match items_bytes(*items, items@.len()) {
            Some(total) => size == Ok::<u64, FolderSizeError>(capped(total)),
            None => size == Err::<u64, FolderSizeError>(FolderSizeError::Unreadable),
        },
    decreases *items,
{
    let mut total_size: u64 = 0;
    let ghost mut exact: int = 0;
    let mut i: usize = 0;
    while i < items.len()
        invariant
            i <= items@.len(),
            items_bytes(*items, i as nat) == Some(exact),
            exact >= 0,
            total_size == capped(exact),
        decreases items@.len() - i,
    {
        match &items[i] {
            FolderItem::File(None) => {
                proof {
                    lemma_unreadable_item(*items, i as int);
                }
                return Err(FolderSizeError::Unreadable);
            },
            FolderItem::File(Some(n)) => {
                total_size = add_capped(total_size, *n, Ghost(exact));
                proof {
                    exact = exact + *n;
                }
            },
            FolderItem::Folder(None) => {
                proof {
                    lemma_unreadable_item(*items, i as int);
                }
                return Err(FolderSizeError::Unreadable);
            },
            FolderItem::Folder(Some(inner)) => {
                match get_folder_size(inner) {
                    Err(_) => {
                        proof {
                            lemma_unreadable_item(*items, i as int);
                        }
                        return Err(FolderSizeError::Unreadable);
                    },
                    Ok(n) => {
                        let ghost inner_total = items_bytes(*inner, inner@.len()).unwrap();
                        proof {
                            lemma_items_bytes_not_negative(*inner, inner@.len());
                        }
                        total_size = add_capped(total_size, n, Ghost(exact));
                        proof {
                            exact = exact + inner_total;
                        }
                    },
                }
            },
        }
        i += 1;
    }
    Ok(total_size)
}

/// The bytes beneath a folder are not negative.
pub proof fn lemma_items_bytes_not_negative(items: Vec<FolderItem>, count: nat)
    ensures
        items_bytes(items, count) matches Some(total) ==> total >= 0,
    decreases items, count,
{
    if count == 0 || count > items@.len() {
    } else {
        lemma_items_bytes_not_negative(items, (count - 1) as nat);
        let last = items@[count - 1];
        match last {
            FolderItem::Folder(Some(inner)) => {
                lemma_items_bytes_not_negative(inner, inner@.len());
                assert(item_bytes(last) == items_bytes(inner, inner@.len()));
            },
            FolderItem::File(Some(n)) => {
                assert(item_bytes(last) == Some(n as int));
            },
            _ => {
                assert(item_bytes(last).is_none());
            },
        }
    }
}

/// Where one item cannot be read, no count that reaches it is known.
pub proof fn lemma_unreadable_item(items: Vec<FolderItem>, at: int)
    requires
        0 <= at < items@.len(),
        item_bytes(items@[at]).is_none(),
    ensures
        items_bytes(items, items@.len()).is_none(),
{
    lemma_unreadable_from(items, at, items@.len());
}

proof fn lemma_unreadable_from(items: Vec<FolderItem>, at: int, count: nat)
    requires
        0 <= at < count <= items@.len(),
        item_bytes(items@[at]).is_none(),
    ensures
        items_bytes(items, count).is_none(),
    decreases count,
{
    if count - 1 > at {
        lemma_unreadable_from(items, at, (count - 1) as nat);
    }
}


/// The size of the `videos` folder of an installation. `videos` is what
/// stands under that name: nothing, a file, or a folder with its contents.
pub fn get_videos_subfolder_size(videos: &Option<FolderItem>) -> (size: Result<
    u64,
    FolderSizeError,
>)
    ensures
        match videos_bytes(*videos) {
            Some(total) => size == Ok::<u64, FolderSizeError>(capped(total)),
            None => size == Err::<u64, FolderSizeError>(FolderSizeError::Unreadable),
        },
{
    match videos {
        None => Ok(0),
        Some(FolderItem::File(_)) => Ok(0),
        Some(FolderItem::Folder(None)) => Err(FolderSizeError::Unreadable),
        Some(FolderItem::Folder(Some(items))) => get_folder_size(items),
    }
}

/// `features` is the snapshot of a folder with this listing and this
/// `videos` subfolder. A folder that could not be listed (`None`) has the
/// empty snapshot.
pub open spec fn describes(
    features: ShearingFeaturesAvailability,
    listing: Option<Vec<FolderEntry>>,
    videos: Option<FolderItem>,
) -> bool {
    match listing {
        None => features.is_empty(),
        Some(entries) => {
            &&& features.has_forge_files == has_forge_entry(entries@)
            &&& forall|level: ForgeTextureQualityLevel|
                features.textures[level.rank()] == bucket(#[trigger] texture_bytes(entries@, level))
            &&& features.videos == videos_bucket(videos)
            &&& features.events == bucket(event_bytes(entries@))
        },
    }
}

/// A folder has one snapshot only: two snapshots of the same listing are
/// equal in every field, so a folder that did not change is described the
/// same however often it is looked at.
pub proof fn lemma_snapshot_is_unique(
    first: ShearingFeaturesAvailability,
    second: ShearingFeaturesAvailability,
    listing: Option<Vec<FolderEntry>>,
    videos: Option<FolderItem>,
)
    requires
        describes(first, listing, videos),
        describes(second, listing, videos),
    ensures
        first == second,
{
    assert forall|i: int| 0 <= i < 5 implies first.textures[i] == second.textures[i] by {
        let level = ForgeTextureQualityLevel::from_rank(i).unwrap();
        assert(level.rank() == i);
        match listing {
            None => {},
            Some(entries) => {
                assert(first.textures[level.rank()] == bucket(texture_bytes(entries@, level)));
                assert(second.textures[level.rank()] == bucket(texture_bytes(entries@, level)));
            },
        }
    }
    assert(first.textures =~= second.textures);
}

/// Looks through the listing of a folder and says what it holds: whether
/// there is any archive, the bytes of the texture archives of each quality
/// level, of the `videos` folder and of the event files.
pub fn get_shearing_features_availability(
    listing: &Option<Vec<FolderEntry>>,
    videos: &Option<FolderItem>,
) -> (features: ShearingFeaturesAvailability)
    ensures
        describes(features, *listing, *videos),
        features.is_consistent(),
{
    let mut features = ShearingFeaturesAvailability::default();
    let entries = match listing {
        None => {
            return features;
        },
        Some(entries) => entries,
    };
    let mut has_forges: bool = false;
    let mut texture_sizes: [u64; 5] = [0; 5];
    let mut event_size: u64 = 0;
    let mut i: usize = 0;
    while i < entries.len()
        invariant
            i <= entries@.len(),
            has_forges == has_forge_entry(entries@.take(i as int)),
            forall|level: ForgeTextureQualityLevel|
                texture_sizes[level.rank()] == capped(
                    #[trigger] texture_bytes(entries@.take(i as int), level),
                ),
            event_size == capped(event_bytes(entries@.take(i as int))),
        decreases entries@.len() - i,
    {
        let entry = &entries[i];
        let ghost seen = entries@.take(i as int);
        let ghost next = entries@.take(i + 1);
        proof {
            assert(next.drop_last() =~= seen);
            assert(next.last() == *entry);
            lemma_bytes_not_negative(seen, ForgeTextureQualityLevel::Low);
            lemma_has_forge_entry_push(seen, next);
        }
        if is_forge_file(entry.name.as_str()) {
            has_forges = true;
        }
        let size: u64 = match entry.size {
            Some(n) => n,
            None => 0,
        };
        let found = texture_level_of(entry.name.as_str());
        match found {
            Some(quality_level) => {
                let at: usize = quality_level.index();
                proof {
                    lemma_bytes_not_negative(seen, quality_level);
                }
                let sum: u64 = add_capped(
                    texture_sizes[at],
                    size,
                    Ghost(texture_bytes(seen, quality_level)),
                );
                texture_sizes[at] = sum;
                assert forall|level: ForgeTextureQualityLevel|
                    texture_sizes[level.rank()] == capped(
                        #[trigger] texture_bytes(next, level),
                    ) by {
                    assert(texture_bytes(next, level) == texture_bytes(seen, level)
                        + entry_texture_bytes(*entry, level));
                    if level != quality_level {
                        assert(level.rank() != quality_level.rank());
                    }
                }
            },
            None => {
                assert forall|level: ForgeTextureQualityLevel|
                    texture_sizes[level.rank()] == capped(
                        #[trigger] texture_bytes(next, level),
                    ) by {
                    assert(texture_bytes(next, level) == texture_bytes(seen, level)
                        + entry_texture_bytes(*entry, level));
                }
            },
        }
        if is_event_file(entry.name.as_str()) {
            event_size = add_capped(event_size, size, Ghost(event_bytes(seen)));
        }
        i += 1;
    }
    assert(entries@.take(i as int) =~= entries@);
    features.has_forge_files = has_forges;
    let mut k: usize = 0;
    while k < 5
        invariant
            k <= 5,
            features.has_forge_files == has_forges,
            features.videos == (false, 0u64),
            features.events == (false, 0u64),
            forall|j: int| 0 <= j < k ==> #[trigger] features.textures[j] == bucket(texture_sizes[j] as int),
        decreases 5 - k,
    {
        let size: u64 = texture_sizes[k];
        features.textures[k] = (size > 0, size);
        k += 1;
    }
    features.videos = match get_videos_subfolder_size(videos) {
        Err(_) => (false, 0),
        Ok(o) => (o > 0, o),
    };
    features.events = (event_size > 0, event_size);
    proof {
        assert forall|level: ForgeTextureQualityLevel|
            features.textures[level.rank()] == bucket(
                #[trigger] texture_bytes(entries@, level),
            ) by {
            lemma_bytes_not_negative(entries@, level);
            assert(features.textures[level.rank()] == bucket(texture_sizes[level.rank()] as int));
        }
    }
    features
}

/// A listing that grew by one entry holds an archive where it held one
/// before or where the new entry is one.
proof fn lemma_has_forge_entry_push(seen: Seq<FolderEntry>, next: Seq<FolderEntry>)
    requires
        next.len() > 0,
        next.drop_last() == seen,
    ensures
        has_forge_entry(next) == (has_forge_entry(seen) || is_forge_name(next.last().name@)),
{
    if has_forge_entry(seen) {
        let i = choose|i: int| 0 <= i < seen.len() && is_forge_name(#[trigger] seen[i].name@);
        assert(next[i] == seen[i]);
    }
    if is_forge_name(next.last().name@) {
        assert(is_forge_name(next[next.len() - 1].name@));
    }
    if has_forge_entry(next) {
        let i = choose|i: int| 0 <= i < next.len() && is_forge_name(#[trigger] next[i].name@);
        if i < seen.len() {
            assert(seen[i] == next[i]);
        }
    }
}


/// The views of a list of texts.
pub open spec fn texts(names: Seq<String>) -> Seq<Seq<char>> {
    names.map_values(|name: String| name@)
}

/// The name is that of a texture archive of a level above `min`.
pub open spec fn is_above(name: Seq<char>, min: ForgeTextureQualityLevel) -> bool {
    match texture_level(name) {
        Some(level) => level.rank() > min.rank(),
        None => false,
    }
}

/// The names, in listing order, of the texture archives of a level above
/// `min`.
pub open spec fn texture_names_above(
    entries: Seq<FolderEntry>,
    min: ForgeTextureQualityLevel,
) -> Seq<Seq<char>>
    decreases entries.len(),
{
    if entries.len() == 0 {
        Seq::empty()
    } else if is_above(entries.last().name@, min) {
        texture_names_above(entries.drop_last(), min).push(entries.last().name@)
    } else {
        texture_names_above(entries.drop_last(), min)
    }
}

/// The names, in listing order, of the event files.
pub open spec fn event_names(entries: Seq<FolderEntry>) -> Seq<Seq<char>>
    decreases entries.len(),
{
    if entries.len() == 0 {
        Seq::empty()
    } else if is_event_name(entries.last().name@) {
        event_names(entries.drop_last()).push(entries.last().name@)
    } else {
        event_names(entries.drop_last())
    }
}

/// A name is removed exactly where an entry of that name is a texture
/// archive above the level to keep: every such archive goes, and no entry at
/// or below that level, nor any entry that is no texture archive, is named.
pub proof fn lemma_removed_exactly_above(
    entries: Seq<FolderEntry>,
    min: ForgeTextureQualityLevel,
    name: Seq<char>,
)
    ensures
        texture_names_above(entries, min).contains(name) <==> (is_above(name, min) && exists|i: int|
            0 <= i < entries.len() && #[trigger] entries[i].name@ == name),
    decreases entries.len(),
{
    if entries.len() > 0 {
        let rest = entries.drop_last();
        let last = entries.last();
        lemma_removed_exactly_above(rest, min, name);
        let removed = texture_names_above(entries, min);
        let before = texture_names_above(rest, min);
        if removed.contains(name) {
            let k = choose|k: int| 0 <= k < removed.len() && removed[k] == name;
            if is_above(last.name@, min) && k == before.len() {
                assert(entries[entries.len() - 1].name@ == name);
            } else {
                assert(before[k] == name);
                assert(before.contains(name));
                let i = choose|i: int| 0 <= i < rest.len() && #[trigger] rest[i].name@ == name;
                assert(entries[i].name@ == name);
            }
        }
        if is_above(name, min) && exists|i: int|
            0 <= i < entries.len() && #[trigger] entries[i].name@ == name {
            let i = choose|i: int| 0 <= i < entries.len() && #[trigger] entries[i].name@ == name;
            if i == entries.len() - 1 {
                assert(removed == before.push(name));
                assert(removed[before.len() as int] == name);
            } else {
                assert(rest[i].name@ == name);
                assert(before.contains(name));
                let k = choose|k: int| 0 <= k < before.len() && before[k] == name;
                assert(removed[k] == name);
            }
        }
    } else {
        assert(texture_names_above(entries, min) =~= Seq::<Seq<char>>::empty());
    }
}

/// Nothing lies above `Ultra`: with it as the level to keep, no texture
/// archive is removed.
pub proof fn lemma_nothing_above_ultra(entries: Seq<FolderEntry>)
    ensures
        texture_names_above(entries, ForgeTextureQualityLevel::Ultra) == Seq::<Seq<char>>::empty(),
    decreases entries.len(),
{
    if entries.len() > 0 {
        lemma_nothing_above_ultra(entries.drop_last());
    }
}

/// The texture archives that a shearing run removes: those of a quality
/// level above `min_quality_level`, by name and in listing order.
pub fn delete_texture_files(
    entries: &Vec<FolderEntry>,
    min_quality_level: &ForgeTextureQualityLevel,
) -> (names: Vec<String>)
    ensures
        texts(names@) == texture_names_above(entries@, *min_quality_level),
        *min_quality_level == ForgeTextureQualityLevel::Ultra ==> names@.len() == 0,
{
    let mut names: Vec<String> = Vec::new();
    proof {
        lemma_nothing_above_ultra(entries@);
    }
    if *min_quality_level == ForgeTextureQualityLevel::Ultra {
        assert(texts(names@) =~= Seq::<Seq<char>>::empty());
        return names;
    }
    let keep: i32 = min_quality_level.convert_to_i32();
    let mut i: usize = 0;
    while i < entries.len()
        invariant
            i <= entries@.len(),
            keep == min_quality_level.rank(),
            texts(names@) == texture_names_above(entries@.take(i as int), *min_quality_level),
        decreases entries@.len() - i,
    {
        let entry = &entries[i];
        proof {
            assert(entries@.take(i + 1).drop_last() =~= entries@.take(i as int));
            assert(entries@.take(i + 1).last() == *entry);
        }
        match texture_level_of(entry.name.as_str()) {
            Some(quality) => {
                if quality.convert_to_i32() > keep {
                    let ghost before = names@;
                    names.push(entry.name.clone());
                    assert(texts(names@) =~= texts(before).push(entry.name@));
                }
            },
            None => {},
        }
        i += 1;
    }
    assert(entries@.take(i as int) =~= entries@);
    names
}

/// The event files that a shearing run removes, by name and in listing
/// order.
pub fn delete_event_files(entries: &Vec<FolderEntry>) -> (names: Vec<String>)
    ensures
        texts(names@) == event_names(entries@),
{
    let mut names: Vec<String> = Vec::new();
    assert(texts(names@) =~= Seq::<Seq<char>>::empty());
    let mut i: usize = 0;
    while i < entries.len()
        invariant
            i <= entries@.len(),
            texts(names@) == event_names(entries@.take(i as int)),
        decreases entries@.len() - i,
    {
        let entry = &entries[i];
        proof {
            assert(entries@.take(i + 1).drop_last() =~= entries@.take(i as int));
            assert(entries@.take(i + 1).last() == *entry);
        }
        if is_event_file(entry.name.as_str()) {
            let ghost before = names@;
            names.push(entry.name.clone());
            assert(texts(names@) =~= texts(before).push(entry.name@));
        }
        i += 1;
    }
    assert(entries@.take(i as int) =~= entries@);
    names
}

/// The name of the subfolder that holds the videos.
pub fn videos_folder_name() -> (name: String)
    ensures
        name@ == "videos"@,
{
    "videos".to_owned()
}

/// The subfolder that a shearing run removes, with all that lies beneath
/// it, where the videos are to go.
pub fn delete_videos_folder() -> (name: String)
    ensures
        name@ == "videos"@,
{
    videos_folder_name()
}

/// A file to write: its name within the installation folder and all that it
/// is to hold.
#[derive(Debug)]
pub struct StreamingInstall {
    pub name: String,
    pub content: String,
}

/// The file that marks a sheared installation. It is written anew after
/// every run, whatever it held before, and always holds these two lines.
pub fn write_streaminginstall() -> (file: StreamingInstall)
    ensures
        file.name@ == "streaminginstall.ini"@,
        file.content@ == "[MissionToChunk]\n[FileToChunk]\n"@,
{
    StreamingInstall {
        name: "streaminginstall.ini".to_owned(),
        content: "[MissionToChunk]\n[FileToChunk]\n".to_owned(),
    }
}

/// Why a shearing run failed.
#[derive(Clone, Copy, Debug, PartialEq, Eq, Structural)]
pub enum ShearingError {
    /// The file that marks a sheared installation could not be written.
    StreamingInstallNotWritten,
}

/// All that one shearing run does to the installation folder, in the order
/// in which it is done.
#[derive(Debug)]
pub struct ShearingPlan {
    /// The installation folder.
    pub folder: String,
    /// The texture archives to remove, by name.
    pub texture_files: Vec<String>,
    /// The subfolder to remove with all beneath it, where the videos go.
    pub videos_folder: Option<String>,
    /// The event files to remove, by name.
    pub event_files: Vec<String>,
    /// The file to write when all else is done.
    pub streaming_install: StreamingInstall,
}

impl ShearingPlan {
    /// How the run ended. A file or folder that could not be removed does
    /// not fail the run; the marking file that could not be written does.
    pub fn outcome(&self, failed_removals: usize, streaming_install_written: bool) -> (outcome:
        Result<(), ShearingError>)
        ensures
            outcome.is_ok() == streaming_install_written,
            outcome.is_err() ==> outcome == Err::<(), ShearingError>(
                ShearingError::StreamingInstallNotWritten,
            ),
    {
        if streaming_install_written {
            Ok(())
        } else {
            Err(ShearingError::StreamingInstallNotWritten)
        }
    }
}

/// The entries of a listing; a folder that could not be listed has none.
pub open spec fn listed(listing: Option<Vec<FolderEntry>>) -> Seq<FolderEntry> {
    match listing {
        Some(entries) => entries@,
        None => Seq::empty(),
    }
}

/// `plan` is the shearing of `folder` with this listing: the texture
/// archives above `min` go, the `videos` folder and the event files go where
/// that was asked for, and the marking file is written with its two lines.
pub open spec fn shears(
    plan: ShearingPlan,
    folder: Seq<char>,
    listing: Option<Vec<FolderEntry>>,
    min: ForgeTextureQualityLevel,
    remove_videos: bool,
    remove_events: bool,
) -> bool {
    &&& plan.folder@ == folder
    &&& texts(plan.texture_files@) == texture_names_above(listed(listing), min)
    &&& match plan.videos_folder {
        Some(name) => remove_videos && name@ == "videos"@,
        None => !remove_videos,
    }
    &&& texts(plan.event_files@) == if remove_events {
        event_names(listed(listing))
    } else {
        Seq::<Seq<char>>::empty()
    }
    &&& plan.streaming_install.name@ == "streaminginstall.ini"@
    &&& plan.streaming_install.content@ == "[MissionToChunk]\n[FileToChunk]\n"@
}

/// Decides what the shearing of a folder does: the texture archives of a
/// level above `minimum_tier_to_keep` are removed, then the `videos` folder
/// and the event files where that is asked for, and at the end the marking
/// file is written anew. With `Ultra` as the level to keep no texture
/// archive is removed, and the marking file is still written. A folder that
/// could not be listed (`None`) loses no file.
pub fn shear(
    folder: String,
    listing: &Option<Vec<FolderEntry>>,
    minimum_tier_to_keep: ForgeTextureQualityLevel,
    remove_videos: bool,
    remove_events: bool,
) -> (plan: ShearingPlan)
    ensures
        shears(plan, folder@, *listing, minimum_tier_to_keep, remove_videos, remove_events),
        minimum_tier_to_keep == ForgeTextureQualityLevel::Ultra ==> plan.texture_files@.len() == 0,
{
    let mut texture_files: Vec<String> = Vec::new();
    let mut event_files: Vec<String> = Vec::new();
    assert(texts(event_files@) =~= Seq::<Seq<char>>::empty());
    assert(texts(texture_files@) =~= Seq::<Seq<char>>::empty());
    match listing {
        Some(entries) => {
            texture_files = delete_texture_files(entries, &minimum_tier_to_keep);
            if remove_events {
                event_files = delete_event_files(entries);
            }
        },
        None => {},
    }
    let videos_folder = if remove_videos {
        Some(delete_videos_folder())
    } else {
        None
    };
    ShearingPlan {
        folder,
        texture_files,
        videos_folder,
        event_files,
        streaming_install: write_streaminginstall(),
    }
}

/// Some process in the list is the game.
pub open spec fn any_siege_process(names: Seq<String>) -> bool {
    exists|i: int| 0 <= i < names.len() && is_siege_process_name(#[trigger] names[i]@)
}

/// Whether the game is running, by the names of the running processes.
pub fn is_siege_running(process_names: &Vec<String>) -> (running: bool)
    ensures
        running == any_siege_process(process_names@),
{
    let mut i: usize = 0;
    while i < process_names.len()
        invariant
            i <= process_names@.len(),
            forall|k: int| 0 <= k < i ==> !is_siege_process_name(#[trigger] process_names@[k]@),
        decreases process_names@.len() - i,
    {
        if is_siege_process(process_names[i].as_str()) {
            return true;
        }
        i += 1;
    }
    false
}

} // verus!
