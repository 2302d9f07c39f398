use shears::helpers::{
    delete_event_files, delete_texture_files, delete_videos_folder, get_folder_size,
    get_shearing_features_availability, get_videos_subfolder_size, is_siege_running, shear,
    videos_folder_name, write_streaminginstall, FolderEntry, FolderItem, FolderSizeError,
    ShearingError,
};
use shears::types::ForgeTextureQualityLevel;

fn file(name: &str, size: u64) -> FolderEntry {
    FolderEntry { name: name.to_string(), size: Some(size) }
}

fn all_tiers() -> Vec<FolderEntry> {
    vec![
        file("datapc64.forge", 1000),
        file("datapc64_textures0.forge", 1),
        file("datapc64_textures1.forge", 2),
        file("datapc64_textures2.forge", 4),
        file("datapc64_textures3.forge", 8),
        file("datapc64_textures4.forge", 16),
        file("datapc64_sas_textures3.forge", 32),
        file("readme.txt", 64),
    ]
}

#[test]
fn scan_sums_sizes_per_level() {
    let listing = Some(vec![
        file("textures0.forge", 10),
        file("textures2.forge", 20),
        file("textures2_extra.forge", 5),
    ]);
    let features = get_shearing_features_availability(&listing, &None);
    assert!(features.has_forge_files);
    assert_eq!(features.get_texture(0), (true, 10));
    assert_eq!(features.get_texture(1), (false, 0));
    assert_eq!(features.get_texture(2), (true, 25));
    assert_eq!(features.get_texture(3), (false, 0));
    assert_eq!(features.get_texture(4), (false, 0));
    assert_eq!(features.videos, (false, 0));
    assert_eq!(features.events, (false, 0));
}

#[test]
fn scan_of_an_unreadable_folder_is_empty() {
    let videos = Some(FolderItem::Folder(Some(vec![FolderItem::File(Some(9))])));
    let features = get_shearing_features_availability(&None, &videos);
    assert!(!features.has_forge_files);
    assert_eq!(features.textures, [(false, 0); 5]);
    assert_eq!(features.videos, (false, 0));
    assert_eq!(features.events, (false, 0));
}

#[test]
fn scan_of_an_empty_folder_is_empty() {
    let features = get_shearing_features_availability(&Some(vec![]), &None);
    assert!(!features.has_forge_files);
    assert_eq!(features.textures, [(false, 0); 5]);
    assert_eq!(features.videos, (false, 0));
    assert_eq!(features.events, (false, 0));
}

#[test]
fn scan_marks_archives_that_match_no_level() {
    let listing = Some(vec![file("datapc64.forge", 77), file("textures7.forge", 3)]);
    let features = get_shearing_features_availability(&listing, &None);
    assert!(features.has_forge_files);
    assert_eq!(features.textures, [(false, 0); 5]);
}

#[test]
fn scan_ignores_files_that_are_no_archives() {
    let listing = Some(vec![file("textures2.txt", 77), file("textures3", 3)]);
    let features = get_shearing_features_availability(&listing, &None);
    assert!(!features.has_forge_files);
    assert_eq!(features.textures, [(false, 0); 5]);
}

#[test]
fn scan_counts_an_unreadable_size_as_nothing() {
    let listing = Some(vec![
        FolderEntry { name: "textures1.forge".to_string(), size: None },
        file("textures3.forge", 0),
    ]);
    let features = get_shearing_features_availability(&listing, &None);
    assert!(features.has_forge_files);
    assert_eq!(features.get_texture(1), (false, 0));
    assert_eq!(features.get_texture(3), (false, 0));
}

#[test]
fn scan_holds_sums_at_the_largest_number() {
    let listing = Some(vec![
        file("textures4.forge", u64::MAX - 1),
        file("a_textures4.forge", 5),
        file("events.forge", u64::MAX),
        file("events.depgraphbin", u64::MAX),
    ]);
    let features = get_shearing_features_availability(&listing, &None);
    assert_eq!(features.get_texture(4), (true, u64::MAX));
    assert_eq!(features.events, (true, u64::MAX));
}

#[test]
fn scan_sums_event_files() {
    let listing = Some(vec![
        file("datapc64_events.forge", 100),
        file("datapc64_events.depgraphbin", 11),
        file("datapc64_events_textures2.forge", 1000),
        file("events.txt", 5),
    ]);
    let features = get_shearing_features_availability(&listing, &None);
    assert_eq!(features.events, (true, 1111));
    assert_eq!(features.get_texture(2), (true, 1000));
}

#[test]
fn scan_sums_videos_through_subfolders() {
    let videos = Some(FolderItem::Folder(Some(vec![
        FolderItem::File(Some(100)),
        FolderItem::Folder(Some(vec![
            FolderItem::File(Some(20)),
            FolderItem::Folder(Some(vec![FolderItem::File(Some(3))])),
            FolderItem::Folder(Some(vec![])),
        ])),
        FolderItem::File(Some(0)),
    ])));
    let features = get_shearing_features_availability(&Some(vec![]), &videos);
    assert_eq!(features.videos, (true, 123));
}

#[test]
fn scan_takes_unreadable_videos_as_absent() {
    let videos = Some(FolderItem::Folder(Some(vec![
        FolderItem::File(Some(100)),
        FolderItem::Folder(None),
    ])));
    let features = get_shearing_features_availability(&Some(vec![]), &videos);
    assert_eq!(features.videos, (false, 0));
}

#[test]
fn scan_twice_gives_the_same_snapshot() {
    let listing = Some(all_tiers());
    let videos = Some(FolderItem::Folder(Some(vec![FolderItem::File(Some(7))])));
    let first = get_shearing_features_availability(&listing, &videos);
    let second = get_shearing_features_availability(&listing, &videos);
    assert_eq!(first.has_forge_files, second.has_forge_files);
    assert_eq!(first.textures, second.textures);
    assert_eq!(first.videos, second.videos);
    assert_eq!(first.events, second.events);
    assert_eq!(first.textures, [(true, 1), (true, 2), (true, 4), (true, 40), (true, 16)]);
    assert_eq!(first.videos, (true, 7));
}

#[test]
fn folder_size_sums_all_files_beneath() {
    let items = vec![
        FolderItem::File(Some(1)),
        FolderItem::Folder(Some(vec![FolderItem::File(Some(2)), FolderItem::File(Some(4))])),
        FolderItem::File(Some(8)),
    ];
    assert_eq!(get_folder_size(&items), Ok(15));
    assert_eq!(get_folder_size(&vec![]), Ok(0));
}

#[test]
fn folder_size_fails_on_anything_unreadable() {
    let file_unreadable = vec![FolderItem::File(Some(1)), FolderItem::File(None)];
    assert_eq!(get_folder_size(&file_unreadable), Err(FolderSizeError::Unreadable));
    let folder_unreadable = vec![FolderItem::Folder(None), FolderItem::File(Some(1))];
    assert_eq!(get_folder_size(&folder_unreadable), Err(FolderSizeError::Unreadable));
    let deep = vec![FolderItem::Folder(Some(vec![FolderItem::Folder(Some(vec![
        FolderItem::File(None),
    ]))]))];
    assert_eq!(get_folder_size(&deep), Err(FolderSizeError::Unreadable));
}

#[test]
fn folder_size_is_held_at_the_largest_number() {
    let items = vec![
        FolderItem::File(Some(u64::MAX)),
        FolderItem::Folder(Some(vec![FolderItem::File(Some(1))])),
    ];
    assert_eq!(get_folder_size(&items), Ok(u64::MAX));
}

#[test]
fn videos_size_is_nothing_without_a_folder() {
    assert_eq!(get_videos_subfolder_size(&None), Ok(0));
    assert_eq!(get_videos_subfolder_size(&Some(FolderItem::File(Some(55)))), Ok(0));
    assert_eq!(get_videos_subfolder_size(&Some(FolderItem::File(None))), Ok(0));
}

#[test]
fn videos_size_is_that_of_the_folder() {
    let videos = Some(FolderItem::Folder(Some(vec![
        FolderItem::File(Some(5)),
        FolderItem::File(Some(6)),
    ])));
    assert_eq!(get_videos_subfolder_size(&videos), Ok(11));
    assert_eq!(
        get_videos_subfolder_size(&Some(FolderItem::Folder(None))),
        Err(FolderSizeError::Unreadable)
    );
}

#[test]
fn shearing_to_medium_removes_all_above_it() {
    let names = delete_texture_files(&all_tiers(), &ForgeTextureQualityLevel::Medium);
    assert_eq!(
        names,
        vec![
            "datapc64_textures2.forge",
            "datapc64_textures3.forge",
            "datapc64_textures4.forge",
            "datapc64_sas_textures3.forge",
        ]
    );
}

#[test]
fn shearing_to_ultra_removes_no_texture() {
    let names = delete_texture_files(&all_tiers(), &ForgeTextureQualityLevel::Ultra);
    assert!(names.is_empty());
}

#[test]
fn shearing_to_low_removes_all_but_low() {
    let names = delete_texture_files(&all_tiers(), &ForgeTextureQualityLevel::Low);
    assert_eq!(
        names,
        vec![
            "datapc64_textures1.forge",
            "datapc64_textures2.forge",
            "datapc64_textures3.forge",
            "datapc64_textures4.forge",
            "datapc64_sas_textures3.forge",
        ]
    );
}

#[test]
fn shearing_to_very_high_removes_ultra_only() {
    let names = delete_texture_files(&all_tiers(), &ForgeTextureQualityLevel::VeryHigh);
    assert_eq!(names, vec!["datapc64_textures4.forge"]);
    let names = delete_texture_files(&all_tiers(), &ForgeTextureQualityLevel::High);
    assert_eq!(
        names,
        vec![
            "datapc64_textures3.forge",
            "datapc64_textures4.forge",
            "datapc64_sas_textures3.forge"
        ]
    );
}

#[test]
fn shearing_an_empty_listing_removes_nothing() {
    assert!(delete_texture_files(&vec![], &ForgeTextureQualityLevel::Low).is_empty());
    assert!(delete_event_files(&vec![]).is_empty());
}

#[test]
fn event_files_are_removed_by_name() {
    let entries = vec![
        file("datapc64_events.forge", 1),
        file("datapc64.forge", 1),
        file("datapc64_events.depgraphbin", 1),
        file("events.ini", 1),
    ];
    assert_eq!(
        delete_event_files(&entries),
        vec!["datapc64_events.forge", "datapc64_events.depgraphbin"]
    );
}

#[test]
fn videos_folder_has_a_fixed_name() {
    assert_eq!(delete_videos_folder(), "videos");
    assert_eq!(videos_folder_name(), "videos");
}

#[test]
fn shear_to_medium_removes_high_and_above_and_keeps_the_rest() {
    let listing = Some(all_tiers());
    let plan = shear("C:/Siege".to_string(), &listing, ForgeTextureQualityLevel::Medium, false, false);
    assert_eq!(plan.folder, "C:/Siege");
    assert_eq!(
        plan.texture_files,
        vec![
            "datapc64_textures2.forge",
            "datapc64_textures3.forge",
            "datapc64_textures4.forge",
            "datapc64_sas_textures3.forge",
        ]
    );
    for kept in ["datapc64.forge", "datapc64_textures0.forge", "datapc64_textures1.forge", "readme.txt"] {
        assert!(!plan.texture_files.contains(&kept.to_string()));
    }
    assert_eq!(plan.videos_folder, None);
    assert!(plan.event_files.is_empty());
    assert_eq!(plan.streaming_install.name, "streaminginstall.ini");
    assert_eq!(plan.streaming_install.content.as_bytes(), b"[MissionToChunk]\n[FileToChunk]\n");
}

#[test]
fn shear_to_ultra_removes_no_texture_and_still_writes_the_file() {
    let listing = Some(all_tiers());
    let plan = shear("C:/Siege".to_string(), &listing, ForgeTextureQualityLevel::Ultra, false, false);
    assert!(plan.texture_files.is_empty());
    assert_eq!(plan.videos_folder, None);
    assert!(plan.event_files.is_empty());
    assert_eq!(plan.streaming_install.name, "streaminginstall.ini");
    assert_eq!(plan.streaming_install.content, "[MissionToChunk]\n[FileToChunk]\n");
}

#[test]
fn shear_removes_videos_and_events_where_asked() {
    let listing = Some(vec![
        file("datapc64_events.forge", 1),
        file("datapc64_textures4.forge", 1),
        file("datapc64_events.depgraphbin", 1),
    ]);
    let plan = shear("/siege".to_string(), &listing, ForgeTextureQualityLevel::Ultra, true, true);
    assert!(plan.texture_files.is_empty());
    assert_eq!(plan.videos_folder, Some("videos".to_string()));
    assert_eq!(plan.event_files, vec!["datapc64_events.forge", "datapc64_events.depgraphbin"]);
    let plan = shear("/siege".to_string(), &listing, ForgeTextureQualityLevel::Low, true, false);
    assert_eq!(plan.texture_files, vec!["datapc64_textures4.forge"]);
    assert_eq!(plan.videos_folder, Some("videos".to_string()));
    assert!(plan.event_files.is_empty());
}

#[test]
fn shear_of_an_unreadable_folder_removes_no_file() {
    let plan = shear("/siege".to_string(), &None, ForgeTextureQualityLevel::Low, true, true);
    assert!(plan.texture_files.is_empty());
    assert!(plan.event_files.is_empty());
    assert_eq!(plan.videos_folder, Some("videos".to_string()));
    assert_eq!(plan.streaming_install.content, "[MissionToChunk]\n[FileToChunk]\n");
}

#[test]
fn shear_fails_only_where_the_file_was_not_written() {
    let plan = shear("/siege".to_string(), &None, ForgeTextureQualityLevel::Low, true, true);
    assert_eq!(plan.outcome(3, true), Ok(()));
    assert_eq!(plan.outcome(0, false), Err(ShearingError::StreamingInstallNotWritten));
}

#[test]
fn streaming_install_holds_two_lines() {
    let file = write_streaminginstall();
    assert_eq!(file.name, "streaminginstall.ini");
    assert_eq!(file.content.as_bytes(), b"[MissionToChunk]\n[FileToChunk]\n");
    assert_eq!(file.content.len(), 31);
}

#[test]
fn siege_runs_where_a_process_has_its_name() {
    let names = vec!["explorer.exe".to_string(), "RainbowSix.exe".to_string()];
    assert!(is_siege_running(&names));
    let names = vec!["explorer.exe".to_string(), "RainbowSix".to_string()];
    assert!(!is_siege_running(&names));
    assert!(!is_siege_running(&vec![]));
    assert!(is_siege_running(&vec!["RAINBOWSIX_VULKAN.EXE".to_string()]));
}

#[test]
fn scan_counts_a_level_behind_a_later_texture_word() {
    let listing = Some(vec![file("textures_textures2.forge", 6)]);
    let features = get_shearing_features_availability(&listing, &None);
    assert!(features.has_forge_files);
    assert_eq!(
        features.textures,
        [(false, 0), (false, 0), (true, 6), (false, 0), (false, 0)]
    );
}

#[test]
fn scan_counts_each_file_in_one_level_only() {
    let listing = Some(vec![
        file("textures1_textures3.forge", 5),
        file("textures_textures3.forge", 7),
        file("textures8_textures.forge", 11),
    ]);
    let features = get_shearing_features_availability(&listing, &None);
    assert_eq!(
        features.textures,
        [(false, 0), (true, 5), (false, 0), (true, 7), (false, 0)]
    );
}

#[test]
fn shearing_removes_a_level_behind_a_later_texture_word() {
    let entries = vec![
        file("textures_textures2.forge", 6),
        file("textures_textures0.forge", 6),
        file("textures_textures.forge", 6),
    ];
    assert_eq!(
        delete_texture_files(&entries, &ForgeTextureQualityLevel::Low),
        vec!["textures_textures2.forge"]
    );
    assert_eq!(
        delete_texture_files(&entries, &ForgeTextureQualityLevel::Medium),
        vec!["textures_textures2.forge"]
    );
    assert!(delete_texture_files(&entries, &ForgeTextureQualityLevel::High).is_empty());
}
