use shears::names::{
    eq_ignore_ascii_case, find_word, is_event_file, is_forge_file, is_siege_process, same_text,
    stem_level, stem_of, texture_level_of,
};
use shears::types::ForgeTextureQualityLevel;

#[test]
fn texture_digits_map_to_levels() {
    assert_eq!(texture_level_of("textures0.forge"), Some(ForgeTextureQualityLevel::Low));
    assert_eq!(texture_level_of("textures1.forge"), Some(ForgeTextureQualityLevel::Medium));
    assert_eq!(texture_level_of("textures2.forge"), Some(ForgeTextureQualityLevel::High));
    assert_eq!(texture_level_of("textures3.forge"), Some(ForgeTextureQualityLevel::VeryHigh));
    assert_eq!(texture_level_of("textures4.forge"), Some(ForgeTextureQualityLevel::Ultra));
}

#[test]
fn texture_digits_above_four_are_ignored() {
    assert_eq!(texture_level_of("textures5.forge"), None);
    assert_eq!(texture_level_of("textures9.forge"), None);
}

#[test]
fn texture_word_needs_a_digit_right_behind_it() {
    assert_eq!(texture_level_of("textures.forge"), None);
    assert_eq!(texture_level_of("textures_2.forge"), None);
    assert_eq!(texture_level_of("texturesx2.forge"), None);
    assert_eq!(texture_level_of("datapc64.forge"), None);
}

#[test]
fn texture_word_may_stand_anywhere_in_the_stem() {
    assert_eq!(
        texture_level_of("datapc64_merged_bnk_textures3.forge"),
        Some(ForgeTextureQualityLevel::VeryHigh)
    );
    assert_eq!(texture_level_of("textures2_extra.forge"), Some(ForgeTextureQualityLevel::High));
    assert_eq!(texture_level_of("textures22.forge"), Some(ForgeTextureQualityLevel::High));
}

#[test]
fn a_texture_word_without_a_level_is_passed_over() {
    assert_eq!(texture_level_of("textures_textures2.forge"), Some(ForgeTextureQualityLevel::High));
    assert_eq!(texture_level_of("texturestextures2.forge"), Some(ForgeTextureQualityLevel::High));
    assert_eq!(texture_level_of("textures7_textures2.forge"), Some(ForgeTextureQualityLevel::High));
    assert_eq!(texture_level_of("textures.textures4.forge"), Some(ForgeTextureQualityLevel::Ultra));
    assert_eq!(texture_level_of("textures_textures.forge"), None);
    assert_eq!(texture_level_of("textures7_textures9.forge"), None);
    assert_eq!(texture_level_of("textures_texture2.forge"), None);
}

#[test]
fn the_first_texture_word_with_a_level_decides() {
    assert_eq!(texture_level_of("textures1_textures9.forge"), Some(ForgeTextureQualityLevel::Medium));
    assert_eq!(texture_level_of("textures3_textures1.forge"), Some(ForgeTextureQualityLevel::VeryHigh));
    assert_eq!(texture_level_of("textures_textures0_textures4.forge"), Some(ForgeTextureQualityLevel::Low));
    assert_eq!(texture_level_of("textures2_textures2.forge"), Some(ForgeTextureQualityLevel::High));
}

#[test]
fn texture_word_is_case_sensitive() {
    assert_eq!(texture_level_of("Textures2.forge"), None);
    assert_eq!(texture_level_of("TEXTURES2.forge"), None);
}

#[test]
fn extension_is_case_insensitive() {
    assert!(is_forge_file("datapc64.forge"));
    assert!(is_forge_file("datapc64.FORGE"));
    assert!(is_forge_file("datapc64.FoRgE"));
    assert_eq!(texture_level_of("textures4.FORGE"), Some(ForgeTextureQualityLevel::Ultra));
}

#[test]
fn other_extensions_are_no_archives() {
    assert!(!is_forge_file("textures2.forg"));
    assert!(!is_forge_file("textures2.forge.bak"));
    assert!(!is_forge_file("textures2forge"));
    assert!(!is_forge_file("forge"));
    assert!(!is_forge_file(""));
    assert_eq!(texture_level_of("textures2.txt"), None);
}

#[test]
fn a_name_that_is_only_an_extension_is_no_archive() {
    assert!(!is_forge_file(".forge"));
    assert!(is_forge_file("a.forge"));
    assert!(is_forge_file("..forge"));
}

#[test]
fn stem_is_what_stands_before_the_last_dot() {
    assert_eq!(stem_of("a.b.forge", "forge"), Some("a.b"));
    assert_eq!(stem_of("textures2.FORGE", "forge"), Some("textures2"));
    assert_eq!(stem_of("textures2.forge", "depgraphbin"), None);
    assert_eq!(stem_of("ab", "forge"), None);
}

#[test]
fn stem_level_reads_the_digit() {
    assert_eq!(stem_level("textures0"), Some(ForgeTextureQualityLevel::Low));
    assert_eq!(stem_level("textures"), None);
    assert_eq!(stem_level("xtextures4y"), Some(ForgeTextureQualityLevel::Ultra));
    assert_eq!(stem_level("textures/"), None);
    assert_eq!(stem_level("textures:"), None);
    assert_eq!(stem_level("textures5"), None);
    assert_eq!(stem_level("textures_textures2"), Some(ForgeTextureQualityLevel::High));
    assert_eq!(stem_level("texture"), None);
    assert_eq!(stem_level(""), None);
}

#[test]
fn non_ascii_names_are_read_by_characters() {
    assert_eq!(texture_level_of("é_textures3.forge"), Some(ForgeTextureQualityLevel::VeryHigh));
    assert_eq!(find_word("ééé_events", "events"), Some(4));
    assert_eq!(texture_level_of("textures٣.forge"), None);
}

#[test]
fn find_word_gives_the_first_place() {
    assert_eq!(find_word("abcabc", "bc"), Some(1));
    assert_eq!(find_word("abcabc", "cab"), Some(2));
    assert_eq!(find_word("abcabc", "abcabc"), Some(0));
    assert_eq!(find_word("abc", "abcd"), None);
    assert_eq!(find_word("abc", "x"), None);
    assert_eq!(find_word("abc", ""), Some(0));
    assert_eq!(find_word("", ""), Some(0));
    assert_eq!(find_word("", "a"), None);
}

#[test]
fn event_files_are_archives_or_graphs_with_the_word() {
    assert!(is_event_file("datapc64_events_s1.forge"));
    assert!(is_event_file("events.FORGE"));
    assert!(is_event_file("datapc64_events.depgraphbin"));
    assert!(is_event_file("datapc64_events.DepGraphBin"));
    assert!(!is_event_file("datapc64_Events.forge"));
    assert!(!is_event_file("datapc64_events.txt"));
    assert!(!is_event_file("datapc64.forge"));
    assert!(!is_event_file("events"));
}

#[test]
fn same_text_compares_exactly() {
    assert!(same_text("Windows", "Windows"));
    assert!(!same_text("Windows", "windows"));
    assert!(!same_text("Windows", "Window"));
    assert!(same_text("", ""));
}

#[test]
fn eq_ignore_ascii_case_folds_ascii_letters_only() {
    assert!(eq_ignore_ascii_case("FoRgE", "forge"));
    assert!(!eq_ignore_ascii_case("forge", "forges"));
    assert!(!eq_ignore_ascii_case("É", "é"));
    assert!(!eq_ignore_ascii_case("@", "`"));
    assert!(!eq_ignore_ascii_case("[", "{"));
    assert!(eq_ignore_ascii_case("Z", "z"));
    assert!(eq_ignore_ascii_case("A", "a"));
}

#[test]
fn siege_process_names_are_known_in_any_case() {
    assert!(is_siege_process("RainbowSix.exe"));
    assert!(is_siege_process("rainbowsixgame.exe"));
    assert!(is_siege_process("RainbowSix_Vulkan.exe"));
    assert!(is_siege_process("RAINBOWSIX_DX11.EXE"));
    assert!(!is_siege_process("RainbowSix"));
    assert!(!is_siege_process("explorer.exe"));
}
