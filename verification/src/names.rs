//! Classification of file and folder names.
//!
//! A name is the last component of a path, as a folder listing gives it. All
//! rules here compare characters exactly, except for the extension, which is
//! compared without regard to ASCII case.

use crate::types::ForgeTextureQualityLevel;
use vstd::prelude::*;
use vstd::string::*;

verus! {

/// The code of a character, with `A` to `Z` moved onto `a` to `z`.
pub open spec fn lower_code(c: char) -> int {
    let code = c as int;
    if 65 <= code <= 90 {
        code + 32
    } else {
        code
    }
}

/// `a` and `b` have the same length and agree character by character, ASCII
/// letters compared without regard to case.
pub open spec fn same_ignoring_ascii_case(a: Seq<char>, b: Seq<char>) -> bool {
    &&& a.len() == b.len()
    &&& forall|i: int| 0 <= i < a.len() ==> lower_code(#[trigger] a[i]) == lower_code(b[i])
}

/// Where the extension `ext` would begin in `name`: behind the last
/// `ext.len()` characters and the dot before them.
pub open spec fn stem_len(name: Seq<char>, ext: Seq<char>) -> int {
    name.len() - ext.len() - 1
}

/// `name` is a non-empty stem, a dot, and `ext` in any ASCII case.
pub open spec fn has_extension(name: Seq<char>, ext: Seq<char>) -> bool {
    &&& stem_len(name, ext) >= 1
    &&& name[stem_len(name, ext)] == '.'
    &&& same_ignoring_ascii_case(name.subrange(stem_len(name, ext) + 1, name.len() as int), ext)
}

/// What stands before the dot of the extension `ext`.
pub open spec fn stem(name: Seq<char>, ext: Seq<char>) -> Seq<char> {
    name.subrange(0, stem_len(name, ext))
}

/// `needle` stands in `hay` at position `at`.
pub open spec fn occurs_at(hay: Seq<char>, needle: Seq<char>, at: int) -> bool {
    &&& 0 <= at
    &&& at + needle.len() <= hay.len()
    &&& hay.subrange(at, at + needle.len()) == needle
}

/// `needle` stands somewhere in `hay`.
pub open spec fn contains_word(hay: Seq<char>, needle: Seq<char>) -> bool {
    exists|at: int| occurs_at(hay, needle, at)
}

/// `at` is the first position at which `needle` stands in `hay`.
pub open spec fn first_occurrence(hay: Seq<char>, needle: Seq<char>, at: int) -> bool {
    &&& occurs_at(hay, needle, at)
    &&& forall|earlier: int| 0 <= earlier < at ==> !occurs_at(hay, needle, earlier)
}

/// The quality level that a decimal digit stands for: `0` is `Low`, `4` is
/// `Ultra`; no other character stands for a level.
pub open spec fn digit_level(c: char) -> Option<ForgeTextureQualityLevel> {
    ForgeTextureQualityLevel::from_rank(c as int - 48)
}

/// The level named by the character that follows the word `textures`, where
/// that word begins at `at`.
pub open spec fn level_behind(stem: Seq<char>, at: int) -> Option<ForgeTextureQualityLevel> {
    if at + 8 < stem.len() {
        digit_level(stem[at + 8])
    } else {
        None
    }
}

/// The word `textures` stands in the stem at `at` and is followed at once by
/// a digit from `0` to `4`.
pub open spec fn names_level_at(stem: Seq<char>, at: int) -> bool {
    occurs_at(stem, "textures"@, at) && level_behind(stem, at).is_some()
}

/// `at` is the first place at which `textures` with a digit from `0` to `4`
/// stands in the stem.
pub open spec fn first_level_at(stem: Seq<char>, at: int) -> bool {
    &&& names_level_at(stem, at)
    &&& forall|earlier: int| 0 <= earlier < at ==> !names_level_at(stem, earlier)
}

/// The quality level of a stem: somewhere in it the word `textures` is
/// followed at once by a digit from `0` to `4`, and that digit names the
/// level. Where the stem holds several such places, the first of them
/// decides. A `textures` that no such digit follows counts for nothing.
pub open spec fn stem_texture_level(stem: Seq<char>) -> Option<ForgeTextureQualityLevel> {
    if exists|at: int| names_level_at(stem, at) {
        level_behind(stem, choose|at: int| first_level_at(stem, at))
    } else {
        None
    }
}

/// The name is that of an archive: its extension is `forge` in any case.
pub open spec fn is_forge_name(name: Seq<char>) -> bool {
    has_extension(name, "forge"@)
}

/// The quality level of a texture archive's name; `None` for every other name.
pub open spec fn texture_level(name: Seq<char>) -> Option<ForgeTextureQualityLevel> {
    if is_forge_name(name) {
        stem_texture_level(stem(name, "forge"@))
    } else {
        None
    }
}

/// The name is that of an event file: an archive or a dependency graph whose
/// stem holds the word `events`.
pub open spec fn is_event_name(name: Seq<char>) -> bool {
    ||| has_extension(name, "forge"@) && contains_word(stem(name, "forge"@), "events"@)
    ||| has_extension(name, "depgraphbin"@) && contains_word(
        stem(name, "depgraphbin"@),
        "events"@,
    )
}

/// The first place with a level decides the level of a stem.
pub proof fn lemma_stem_level_at_first(stem: Seq<char>, at: int)
    requires
        first_level_at(stem, at),
    ensures
        stem_texture_level(stem) == level_behind(stem, at),
{
    let chosen = choose|at: int| first_level_at(stem, at);
    assert(chosen == at) by {
        if chosen < at {
            assert(!names_level_at(stem, chosen));
        }
        if at < chosen {
            assert(!names_level_at(stem, at));
        }
    }
}

/// Where `textures` with a digit from `0` to `4` stands anywhere, there is a
/// first such place, at or before it.
pub proof fn lemma_first_level_exists(stem: Seq<char>, at: int)
    requires
        names_level_at(stem, at),
    ensures
        exists|first: int| 0 <= first <= at && first_level_at(stem, first),
    decreases at,
{
    if exists|earlier: int| 0 <= earlier < at && names_level_at(stem, earlier) {
        let earlier = choose|earlier: int| 0 <= earlier < at && names_level_at(stem, earlier);
        lemma_first_level_exists(stem, earlier);
    } else {
        assert(first_level_at(stem, at));
    }
}

/// A stem has a level exactly where `textures` stands in it with a digit
/// from `0` to `4` right behind it, and the level that it has is named by
/// such a digit.
pub proof fn lemma_stem_level_is_named(stem: Seq<char>)
    ensures
        stem_texture_level(stem).is_some() <==> exists|at: int| names_level_at(stem, at),
        stem_texture_level(stem).is_some() ==> exists|at: int|
            names_level_at(stem, at) && level_behind(stem, at) == stem_texture_level(stem),
{
    if exists|at: int| names_level_at(stem, at) {
        let at = choose|at: int| names_level_at(stem, at);
        lemma_first_level_exists(stem, at);
        let first = choose|first: int| 0 <= first <= at && first_level_at(stem, first);
        lemma_stem_level_at_first(stem, first);
        assert(names_level_at(stem, first) && level_behind(stem, first) == stem_texture_level(
            stem,
        ));
    }
}

/// Where only one digit from `0` to `4` follows a `textures` in the stem,
/// however often, the stem has the level of that digit.
pub proof fn lemma_stem_level_of_one_digit(stem: Seq<char>, at: int)
    requires
        names_level_at(stem, at),
        forall|other: int|
            names_level_at(stem, other) ==> level_behind(stem, other) == level_behind(stem, at),
    ensures
        stem_texture_level(stem) == level_behind(stem, at),
{
    lemma_stem_level_is_named(stem);
}

fn code_of(c: char) -> (code: u32)
    ensures
        code == c as int,
{
    c as u32
}

fn lower_code_of(c: char) -> (code: u32)
    ensures
        code == lower_code(c),
{
    let code: u32 = code_of(c);
    if 65 <= code && code <= 90 {
        code + 32
    } else {
        code
    }
}

/// Whether two texts hold the same characters.
pub fn same_text(a: &str, b: &str) -> (same: bool)
    ensures
        same == (a@ == b@),
{
    let n: usize = a.unicode_len();
    if n != b.unicode_len() {
        return false;
    }
    let mut i: usize = 0;
    while i < n
        invariant
            n == a@.len(),
            n == b@.len(),
            i <= n,
            forall|k: int| 0 <= k < i ==> a@[k] == b@[k],
        decreases n - i,
    {
        if a.get_char(i) != b.get_char(i) {
            return false;
        }
        i += 1;
    }
    assert(a@ =~= b@);
    true
}

/// Whether `needle` stands in `hay` at `at`.
fn word_at(hay: &str, needle: &str, at: usize) -> (found: bool)
    ensures
        found == occurs_at(hay@, needle@, at as int),
{
    let hay_len: usize = hay.unicode_len();
    let needle_len: usize = needle.unicode_len();
    if at > hay_len || needle_len > hay_len - at {
        return false;
    }
    let mut k: usize = 0;
    while k < needle_len
        invariant
            hay_len == hay@.len(),
            needle_len == needle@.len(),
            at + needle_len <= hay_len,
            k <= needle_len,
            forall|j: int| 0 <= j < k ==> hay@[at + j] == needle@[j],
        decreases needle_len - k,
    {
        if hay.get_char(at + k) != needle.get_char(k) {
            assert(hay@.subrange(at as int, at + needle_len)[k as int] == hay@[at + k]);
            return false;
        }
        k += 1;
    }
    assert(hay@.subrange(at as int, at + needle_len) =~= needle@);
    true
}

/// The first position at which `needle` stands in `hay`.
pub fn find_word(hay: &str, needle: &str) -> (found: Option<usize>)
    ensures
        match found {
            Some(at) => first_occurrence(hay@, needle@, at as int),
            None => !contains_word(hay@, needle@),
        },
{
    let hay_len: usize = hay.unicode_len();
    let mut at: usize = 0;
    while at < hay_len
        invariant
            hay_len == hay@.len(),
            at <= hay_len,
            forall|earlier: int| 0 <= earlier < at ==> !occurs_at(hay@, needle@, earlier),
        decreases hay_len - at,
    {
        if word_at(hay, needle, at) {
            return Some(at);
        }
        at += 1;
    }
    if word_at(hay, needle, hay_len) {
        Some(hay_len)
    } else {
        None
    }
}

/// Splits `name` at the dot of the extension `ext`: the stem where the name
/// has that extension, `None` where it has not.
pub fn stem_of<'a>(name: &'a str, ext: &str) -> (found: Option<&'a str>)
    ensures
        match found {
            Some(s) => has_extension(name@, ext@) && s@ == stem(name@, ext@),
            None => !has_extension(name@, ext@),
        },
{
    let name_len: usize = name.unicode_len();
    let ext_len: usize = ext.unicode_len();
    if name_len < 2 || ext_len > name_len - 2 {
        return None;
    }
    let cut: usize = name_len - ext_len - 1;
    if name.get_char(cut) != '.' {
        return None;
    }
    let ghost tail = name@.subrange(cut + 1, name_len as int);
    let mut i: usize = 0;
    while i < ext_len
        invariant
            name_len == name@.len(),
            ext_len == ext@.len(),
            cut == stem_len(name@, ext@),
            cut >= 1,
            tail == name@.subrange(cut + 1, name_len as int),
            i <= ext_len,
            forall|k: int| 0 <= k < i ==> lower_code(#[trigger] tail[k]) == lower_code(ext@[k]),
        decreases ext_len - i,
    {
        let a: u32 = lower_code_of(name.get_char(cut + 1 + i));
        let b: u32 = lower_code_of(ext.get_char(i));
        assert(tail[i as int] == name@[cut + 1 + i]);
        if a != b {
            return None;
        }
        i += 1;
    }
    Some(name.substring_char(0, cut))
}

/// The level that a stem names.
pub fn stem_level(stem: &str) -> (level: Option<ForgeTextureQualityLevel>)
    ensures
        level == stem_texture_level(stem@),
{
    proof {
        reveal_strlit("textures");
    }
    let len: usize = stem.unicode_len();
    if len <= 8 {
        assert(forall|at: int| !names_level_at(stem@, at));
        return None;
    }
    let last: usize = len - 8;
    let mut at: usize = 0;
    while at < last
        invariant
            len == stem@.len(),
            last == len - 8,
            at <= last,
            "textures"@.len() == 8,
            forall|earlier: int| 0 <= earlier < at ==> !names_level_at(stem@, earlier),
        decreases last - at,
    {
        if word_at(stem, "textures", at) {
            let code: u32 = code_of(stem.get_char(at + 8));
            if 48 <= code && code <= 52 {
                let digit: u32 = code - 48;
                proof {
                    assert(first_level_at(stem@, at as int));
                    lemma_stem_level_at_first(stem@, at as int);
                }
                return ForgeTextureQualityLevel::convert_from_i32(digit as i32);
            }
        }
        at += 1;
    }
    assert(forall|at: int| !names_level_at(stem@, at));
    None
}

/// Whether the name is that of an archive.
pub fn is_forge_file(name: &str) -> (forge: bool)
    ensures
        forge == is_forge_name(name@),
{
    stem_of(name, "forge").is_some()
}

/// The quality level of the texture archive that `name` names.
pub fn texture_level_of(name: &str) -> (level: Option<ForgeTextureQualityLevel>)
    ensures
        level == texture_level(name@),
{
    match stem_of(name, "forge") {
        Some(s) => stem_level(s),
        None => None,
    }
}

/// Whether the name is that of an event file.
pub fn is_event_file(name: &str) -> (event: bool)
    ensures
        event == is_event_name(name@),
{
    let in_archive: bool = match stem_of(name, "forge") {
        Some(s) => find_word(s, "events").is_some(),
        None => false,
    };
    if in_archive {
        return true;
    }
    match stem_of(name, "depgraphbin") {
        Some(s) => find_word(s, "events").is_some(),
        None => false,
    }
}


/// Whether two texts are the same but for the case of their ASCII letters.
pub fn eq_ignore_ascii_case(a: &str, b: &str) -> (same: bool)
    ensures
        same == same_ignoring_ascii_case(a@, b@),
{
    let n: usize = a.unicode_len();
    if n != b.unicode_len() {
        return false;
    }
    let mut i: usize = 0;
    while i < n
        invariant
            n == a@.len(),
            n == b@.len(),
            i <= n,
            forall|k: int| 0 <= k < i ==> lower_code(#[trigger] a@[k]) == lower_code(b@[k]),
        decreases n - i,
    {
        if lower_code_of(a.get_char(i)) != lower_code_of(b.get_char(i)) {
            return false;
        }
        i += 1;
    }
    true
}

/// The name is one under which the game runs as a process.
pub open spec fn is_siege_process_name(name: Seq<char>) -> bool {
    ||| same_ignoring_ascii_case(name, "rainbowsixgame.exe"@)
    ||| same_ignoring_ascii_case(name, "rainbowsix.exe"@)
    ||| same_ignoring_ascii_case(name, "rainbowsix_vulkan.exe"@)
    ||| same_ignoring_ascii_case(name, "rainbowsix_dx11.exe"@)
}

/// Whether a process of this name is the game.
pub fn is_siege_process(name: &str) -> (siege: bool)
    ensures
        siege == is_siege_process_name(name@),
{
    eq_ignore_ascii_case(name, "rainbowsixgame.exe") || eq_ignore_ascii_case(name, "rainbowsix.exe")
        || eq_ignore_ascii_case(name, "rainbowsix_vulkan.exe") || eq_ignore_ascii_case(
        name,
        "rainbowsix_dx11.exe",
    )
}

} // verus!
