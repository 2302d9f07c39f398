use shears::settings::PersistentSettingsStorage;
use shears::types::{
    ForgeTextureQualityLevel, ShearingFeaturesAvailability, ShearsFolderState, ShearsModals,
    ShearsPage, ShearsUiState,
};

fn all_levels() -> Vec<ForgeTextureQualityLevel> {
    vec![
        ForgeTextureQualityLevel::Low,
        ForgeTextureQualityLevel::Medium,
        ForgeTextureQualityLevel::High,
        ForgeTextureQualityLevel::VeryHigh,
        ForgeTextureQualityLevel::Ultra,
    ]
}

#[test]
fn levels_convert_to_their_numbers() {
    assert_eq!(ForgeTextureQualityLevel::Low.convert_to_i32(), 0);
    assert_eq!(ForgeTextureQualityLevel::Medium.convert_to_i32(), 1);
    assert_eq!(ForgeTextureQualityLevel::High.convert_to_i32(), 2);
    assert_eq!(ForgeTextureQualityLevel::VeryHigh.convert_to_i32(), 3);
    assert_eq!(ForgeTextureQualityLevel::Ultra.convert_to_i32(), 4);
}

#[test]
fn numbers_outside_the_range_are_no_level() {
    assert_eq!(ForgeTextureQualityLevel::convert_from_i32(-1), None);
    assert_eq!(ForgeTextureQualityLevel::convert_from_i32(5), None);
    assert_eq!(ForgeTextureQualityLevel::convert_from_i32(i32::MAX), None);
    assert_eq!(ForgeTextureQualityLevel::convert_from_i32(i32::MIN), None);
}

#[test]
fn levels_round_trip_through_numbers() {
    for level in all_levels() {
        assert_eq!(ForgeTextureQualityLevel::convert_from_i32(level.convert_to_i32()), Some(level));
        assert_eq!(level.index(), level.convert_to_i32() as usize);
    }
    for n in 0..5 {
        assert_eq!(ForgeTextureQualityLevel::convert_from_i32(n).unwrap().convert_to_i32(), n);
    }
}

#[test]
fn levels_are_ordered_by_rank() {
    let levels = all_levels();
    for (i, a) in levels.iter().enumerate() {
        for (j, b) in levels.iter().enumerate() {
            assert_eq!(a < b, i < j);
            assert_eq!(a == b, i == j);
            assert_eq!(a > b, i > j);
            assert_eq!(a.partial_cmp(b), i.partial_cmp(&j));
        }
    }
}

#[test]
fn levels_have_names() {
    assert_eq!(ForgeTextureQualityLevel::Low.to_text(), "Low");
    assert_eq!(ForgeTextureQualityLevel::Medium.to_text(), "Medium");
    assert_eq!(ForgeTextureQualityLevel::High.to_text(), "High");
    assert_eq!(ForgeTextureQualityLevel::VeryHigh.to_text(), "Very High");
    assert_eq!(ForgeTextureQualityLevel::Ultra.to_text(), "Ultra");
    assert_eq!(ForgeTextureQualityLevel::COUNT, 5);
}

#[test]
fn ui_state_starts_with_every_box_ticked() {
    let state = ShearsUiState::default();
    assert_eq!(state.page, ShearsPage::SelectFolder);
    for i in 0..5 {
        assert!(state.get_texture_checkbox(i));
    }
    assert!(state.checkbox_videos);
    assert!(state.checkbox_events);
    assert_eq!(state.label_possible_space_saved, 0);
    assert!(!state.get_modal(ShearsModals::About.index()));
    assert!(!state.get_modal(1));
    assert_eq!(ShearsModals::COUNT, 2);
}

#[test]
fn ui_state_boxes_can_be_set_one_by_one() {
    let mut state = ShearsUiState::default();
    *state.get_texture_checkbox_mut(3) = false;
    assert_eq!(state.checkbox_textures, [true, true, true, false, true]);
    assert!(!state.get_texture_checkbox(3));
    *state.get_modal_mut(0) = true;
    assert_eq!(state.modals, [true, false]);
    assert!(state.get_modal(0));
    assert_eq!(state.checkbox_textures, [true, true, true, false, true]);
}

#[test]
fn availability_starts_empty() {
    let features = ShearingFeaturesAvailability::default();
    assert!(!features.has_forge_files);
    for i in 0..5 {
        assert_eq!(features.get_texture(i), (false, 0));
    }
    assert_eq!(features.videos, (false, 0));
    assert_eq!(features.events, (false, 0));
}

#[test]
fn availability_textures_can_be_set_one_by_one() {
    let mut features = ShearingFeaturesAvailability::default();
    *features.get_texture_mut(2) = (true, 25);
    features.get_texture_mut(4).1 = 7;
    assert_eq!(features.textures, [(false, 0), (false, 0), (true, 25), (false, 0), (false, 7)]);
    assert_eq!(features.get_texture(2), (true, 25));
}

#[test]
fn folder_state_starts_without_a_folder() {
    let state = ShearsFolderState::default();
    assert_eq!(state.siege_path, None);
    assert!(!state.features_availability.has_forge_files);
}

#[test]
fn settings_start_with_the_update_check_on() {
    let settings = PersistentSettingsStorage::default();
    assert!(settings.enable_shears_update_check_on_startup);
    assert!(!settings.use_loose_selection);
    assert!(!settings.enable_experimental_features);
}

#[test]
fn settings_that_were_read_are_kept() {
    let read = PersistentSettingsStorage {
        enable_shears_update_check_on_startup: false,
        use_loose_selection: true,
        enable_experimental_features: true,
    };
    assert_eq!(PersistentSettingsStorage::load_or_default(Some(read)), read);
    assert_eq!(
        PersistentSettingsStorage::load_or_default(None),
        PersistentSettingsStorage::default()
    );
}

#[test]
fn settings_file_name_depends_on_the_build() {
    assert_eq!(PersistentSettingsStorage::file_name(true), "UserSettings.debug.toml");
    assert_eq!(PersistentSettingsStorage::file_name(false), "UserSettings.toml");
}

#[test]
fn the_dialogs_run_from_about_to_about() {
    assert_eq!(ShearsModals::START, ShearsModals::About);
    assert_eq!(ShearsModals::END, ShearsModals::About);
    assert_eq!(ShearsModals::START.index(), 0);
    assert_eq!(ShearsModals::END.index(), 0);
    assert!(ShearsModals::END.index() < ShearsModals::COUNT);
}
