//! The texts that name a kind of content together with its size.

use crate::types::ForgeTextureQualityLevel;
use vstd::prelude::*;
use vstd::string::*;

verus! {

/// The text that `humansize` gives for a number of bytes with its `WINDOWS`
/// options: the size in steps of 1024 with the units `B`, `kB`, `MB` and so
/// on.
pub uninterp spec fn windows_size_text(bytes: u64) -> Seq<char>;

/// Calls `humansize::format_size` with the options `humansize::WINDOWS`.
/// The text is a function of the number alone; it has the name
/// [`windows_size_text`], and nothing more is claimed of it.
#[verifier::external_body]
fn format_size_windows(bytes: u64) -> (text: String)
    ensures
        text@ == windows_size_text(bytes),
{
    humansize::format_size(bytes, humansize::WINDOWS)
}

/// The label of the box for the textures of a level, with the size as a
/// text.
pub fn texture_label_with(level: ForgeTextureQualityLevel, size: &str) -> (label: String)
    ensures
        label@ == level.name() + " Textures ("@ + size@ + ")"@,
{
    let mut label = level.to_text();
    label.append(" Textures (");
    label.append(size);
    label.append(")");
    label
}

/// The label of the box for the videos, with the size as a text.
pub fn videos_label_with(size: &str) -> (label: String)
    ensures
        label@ == "Videos ("@ + size@ + ")"@,
{
    let mut label = "Videos (".to_owned();
    label.append(size);
    label.append(")");
    label
}

/// The label of the box for the event files, with the size as a text.
pub fn events_label_with(size: &str) -> (label: String)
    ensures
        label@ == "Event files ("@ + size@ + ") [EXPERIMENTAL]"@,
{
    let mut label = "Event files (".to_owned();
    label.append(size);
    label.append(") [EXPERIMENTAL]");
    label
}

/// The line that tells the space a run would free, with the size as a text.
pub fn space_saved_label_with(size: &str) -> (label: String)
    ensures
        label@ == "Space saved: "@ + size@,
{
    let mut label = "Space saved: ".to_owned();
    label.append(size);
    label
}

/// The label of the box for the textures of a level that take `bytes`.
pub fn texture_label(level: ForgeTextureQualityLevel, bytes: u64) -> (label: String)
    ensures
        label@ == level.name() + " Textures ("@ + windows_size_text(bytes) + ")"@,
{
    let size = format_size_windows(bytes);
    texture_label_with(level, size.as_str())
}

/// The label of the box for videos that take `bytes`.
pub fn videos_label(bytes: u64) -> (label: String)
    ensures
        label@ == "Videos ("@ + windows_size_text(bytes) + ")"@,
{
    let size = format_size_windows(bytes);
    videos_label_with(size.as_str())
}

/// The label of the box for event files that take `bytes`.
pub fn events_label(bytes: u64) -> (label: String)
    ensures
        label@ == "Event files ("@ + windows_size_text(bytes) + ") [EXPERIMENTAL]"@,
{
    let size = format_size_windows(bytes);
    events_label_with(size.as_str())
}

/// The line that tells that a run would free `bytes`.
pub fn space_saved_label(bytes: u64) -> (label: String)
    ensures
        label@ == "Space saved: "@ + windows_size_text(bytes),
{
    let size = format_size_windows(bytes);
    space_saved_label_with(size.as_str())
}


/// The folder that a dropped path selects: the path itself where it is a
/// folder, else the folder that holds it, if there is one.
pub fn dropped_folder(path: &str, is_dir: bool, parent: Option<&str>) -> (folder: Option<String>)
    ensures
        match folder {
            Some(chosen) => chosen@ == if is_dir {
                path@
            } else {
                parent.unwrap()@
            },
            None => !is_dir && parent.is_none(),
        },
        is_dir || parent.is_some() ==> folder.is_some(),
{
    if is_dir {
        Some(path.to_owned())
    } else {
        match parent {
            Some(holder) => Some(holder.to_owned()),
            None => None,
        }
    }
}

/// The text of the preview for `hovered_files` files that hover over the
/// window; `target` is the folder that the first of them would select,
/// where it has a path.
pub fn drop_preview_text(hovered_files: usize, target: Option<&str>) -> (text: String)
    ensures
        text@ == if hovered_files > 1 {
            "Please drop a single file or folder."@
        } else {
            match target {
                Some(folder) => "Drop to select folder:\n"@ + folder@,
                None => "Drop to select folder"@,
            }
        },
{
    if hovered_files > 1 {
        return "Please drop a single file or folder.".to_owned();
    }
    match target {
        Some(folder) => {
            let mut text = "Drop to select folder:\n".to_owned();
            text.append(folder);
            text
        },
        None => "Drop to select folder".to_owned(),
    }
}

} // verus!
