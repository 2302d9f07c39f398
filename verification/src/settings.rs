//! The settings that outlast a session.

use vstd::prelude::*;

verus! {

/// The settings that are kept between sessions.
#[derive(Clone, Copy, Debug, PartialEq, Eq, Structural)]
pub struct PersistentSettingsStorage {
    pub enable_shears_update_check_on_startup: bool,
    pub use_loose_selection: bool,
    pub enable_experimental_features: bool,
}

impl Default for PersistentSettingsStorage {
    fn default() -> (settings: Self)
        ensures
            settings.enable_shears_update_check_on_startup,
            !settings.use_loose_selection,
            !settings.enable_experimental_features,
    {
        Self {
            enable_shears_update_check_on_startup: true,
            use_loose_selection: false,
            enable_experimental_features: false,
        }
    }
}

impl PersistentSettingsStorage {
    /// The settings as they are at the start.
    pub open spec fn initial() -> Self {
        PersistentSettingsStorage {
            enable_shears_update_check_on_startup: true,
            use_loose_selection: false,
            enable_experimental_features: false,
        }
    }

    /// The name of the file that holds the settings; a debug build keeps a
    /// file of its own.
    pub fn file_name(debug_build: bool) -> (name: String)
        ensures
            name@ == if debug_build {
                "UserSettings.debug.toml"@
            } else {
                "UserSettings.toml"@
            },
    {
        if debug_build {
            "UserSettings.debug.toml".to_owned()
        } else {
            "UserSettings.toml".to_owned()
        }
    }

    /// The settings to begin with: those that were read, or the initial
    /// ones where none could be read.
    pub fn load_or_default(loaded: Option<PersistentSettingsStorage>) -> (settings: Self)
        ensures
            settings == match loaded {
                Some(read) => read,
                None => Self::initial(),
            },
    {
        match loaded {
            Some(read) => read,
            None => Self::default(),
        }
    }
}

} // verus!
