use std::cmp::Ordering;
use vstd::prelude::*;
use vstd::std_specs::cmp::PartialOrdSpecImpl;

verus! {

/// The quality levels of texture packages, from the lowest to the highest.
#[derive(Debug, Clone, Copy, PartialEq, Eq, Structural)]
pub enum ForgeTextureQualityLevel {
    Low,
    Medium,
    High,
    VeryHigh,
    Ultra,
}

impl ForgeTextureQualityLevel {
    pub const COUNT: usize = 5;

    /// The position of the level in the order `Low < Medium < High < VeryHigh < Ultra`.
    pub open spec fn rank(self) -> int {
        match self {
            Self::Low => 0,
            Self::Medium => 1,
            Self::High => 2,
            Self::VeryHigh => 3,
            Self::Ultra => 4,
        }
    }

    /// The level at a position, where there is one.
    pub open spec fn from_rank(rank: int) -> Option<Self> {
        if rank == 0 {
            Some(Self::Low)
        } else if rank == 1 {
            Some(Self::Medium)
        } else if rank == 2 {
            Some(Self::High)
        } else if rank == 3 {
            Some(Self::VeryHigh)
        } else if rank == 4 {
            Some(Self::Ultra)
        } else {
            None
        }
    }

    pub fn convert_from_i32(texture_level: i32) -> (level: Option<Self>)
        ensures
            level == Self::from_rank(texture_level as int),
            level.is_some() <==> 0 <= texture_level <= 4,
    {
        match texture_level {
            0 => Some(Self::Low),
            1 => Some(Self::Medium),
            2 => Some(Self::High),
            3 => Some(Self::VeryHigh),
            4 => Some(Self::Ultra),
            _ => None,
        }
    }

    pub fn convert_to_i32(&self) -> (texture_level: i32)
        ensures
            texture_level == self.rank(),
    {
        match self {
            Self::Low => 0,
            Self::Medium => 1,
            Self::High => 2,
            Self::VeryHigh => 3,
            Self::Ultra => 4,
        }
    }

    /// The position of the level as an index into the per-level arrays.
    pub fn index(&self) -> (i: usize)
        ensures
            i == self.rank(),
    {
        match self {
            Self::Low => 0,
            Self::Medium => 1,
            Self::High => 2,
            Self::VeryHigh => 3,
            Self::Ultra => 4,
        }
    }

    /// The level's name as shown to a user.
    pub open spec fn name(self) -> Seq<char> {
        match self {
            Self::Low => "Low"@,
            Self::Medium => "Medium"@,
            Self::High => "High"@,
            Self::VeryHigh => "Very High"@,
            Self::Ultra => "Ultra"@,
        }
    }

    pub fn to_text(&self) -> (text: String)
        ensures
            text@ == self.name(),
    {
        match self {
            Self::Low => "Low".to_owned(),
            Self::Medium => "Medium".to_owned(),
            Self::High => "High".to_owned(),
            Self::VeryHigh => "Very High".to_owned(),
            Self::Ultra => "Ultra".to_owned(),
        }
    }
}

impl PartialOrd for ForgeTextureQualityLevel {
    fn partial_cmp(&self, other: &Self) -> (order: Option<Ordering>) {
        let a: i32 = self.convert_to_i32();
        let b: i32 = other.convert_to_i32();
        if a < b {
            Some(Ordering::Less)
        } else if a == b {
            Some(Ordering::Equal)
        } else {
            Some(Ordering::Greater)
        }
    }
}

impl PartialOrdSpecImpl for ForgeTextureQualityLevel {
    open spec fn obeys_partial_cmp_spec() -> bool {
        true
    }

    open spec fn partial_cmp_spec(&self, other: &Self) -> Option<Ordering> {
        if self.rank() < other.rank() {
            Some(Ordering::Less)
        } else if self.rank() == other.rank() {
            Some(Ordering::Equal)
        } else {
            Some(Ordering::Greater)
        }
    }
}

/// Converting a level to its number and back gives the level again, and a
/// number from 0 to 4 comes back from its level unchanged.
pub proof fn lemma_rank_round_trip(level: ForgeTextureQualityLevel, rank: int)
    ensures
        0 <= level.rank() <= 4,
        ForgeTextureQualityLevel::from_rank(level.rank()) == Some(level),
        0 <= rank <= 4 ==> ForgeTextureQualityLevel::from_rank(rank).is_some()
            && ForgeTextureQualityLevel::from_rank(rank).unwrap().rank() == rank,
{
}


/// The pages of the window.
#[derive(Clone, Copy, Debug, PartialEq, Eq, Structural)]
pub enum ShearsPage {
    SelectFolder,
    FolderSelected,
}

/// The dialogs that can lie over a page.
#[derive(Clone, Copy, Debug, PartialEq, Eq, Structural)]
pub enum ShearsModals {
    About,
}

impl ShearsModals {
    pub const START: Self = Self::About;

    pub const END: Self = Self::About;

    pub const COUNT: usize = 2;

    /// The place of the dialog's flag in [`ShearsUiState::modals`].
    pub fn index(&self) -> (i: usize)
        ensures
            i == 0,
            i < Self::COUNT,
    {
        match self {
            Self::About => 0,
        }
    }
}

/// What one folder holds that can be removed: for each kind, whether any of
/// it is there and how many bytes it takes.
#[derive(Clone, Copy, Debug)]
pub struct ShearingFeaturesAvailability {
    pub has_forge_files: bool,
    pub textures: [(bool, u64); 5],
    pub videos: (bool, u64),
    pub events: (bool, u64),
}

impl ShearingFeaturesAvailability {
    /// Every kind is marked present exactly where its size is not zero.
    pub open spec fn is_consistent(self) -> bool {
        &&& forall|i: int| 0 <= i < 5 ==> (#[trigger] self.textures[i]).0 == (self.textures[i].1 > 0)
        &&& self.videos.0 == (self.videos.1 > 0)
        &&& self.events.0 == (self.events.1 > 0)
    }

    /// Nothing was found.
    pub open spec fn is_empty(self) -> bool {
        &&& !self.has_forge_files
        &&& forall|i: int| 0 <= i < 5 ==> #[trigger] self.textures[i] == (false, 0u64)
        &&& self.videos == (false, 0u64)
        &&& self.events == (false, 0u64)
    }

    pub fn get_texture(self, quality_level: usize) -> (texture: (bool, u64))
        requires
            quality_level < 5,
        ensures
            texture == self.textures[quality_level as int],
    {
        self.textures[quality_level]
    }

    pub fn get_texture_mut(&mut self, quality_level: usize) -> (texture: &mut (bool, u64))
        requires
            quality_level < 5,
        ensures
            *texture == old(self).textures[quality_level as int],
            final(self).textures@ == old(self).textures@.update(
                quality_level as int,
                *final(texture),
            ),
            final(self).has_forge_files == old(self).has_forge_files,
            final(self).videos == old(self).videos,
            final(self).events == old(self).events,
    {
        &mut self.textures[quality_level]
    }
}

impl Default for ShearingFeaturesAvailability {
    fn default() -> (features: Self)
        ensures
            features.is_empty(),
            features.is_consistent(),
    {
        Self {
            has_forge_files: false,
            textures: [(false, 0); 5],
            videos: (false, 0),
            events: (false, 0),
        }
    }
}

/// The folder that was chosen and what was found in it.
#[derive(Clone, Debug)]
pub struct ShearsFolderState {
    pub siege_path: Option<String>,
    pub features_availability: ShearingFeaturesAvailability,
}

impl Default for ShearsFolderState {
    fn default() -> (state: Self)
        ensures
            state.siege_path.is_none(),
            state.features_availability.is_empty(),
    {
        Self { siege_path: None, features_availability: ShearingFeaturesAvailability::default() }
    }
}

/// What the window shows: the page, the boxes a user ticks for what is to be
/// kept, and the space that the present choice would free.
#[derive(Clone, Copy, Debug)]
pub struct ShearsUiState {
    pub page: ShearsPage,
    pub checkbox_textures: [bool; 5],
    pub checkbox_videos: bool,
    pub checkbox_events: bool,
    pub label_possible_space_saved: u64,
    pub modals: [bool; 2],
}

impl Default for ShearsUiState {
    fn default() -> (state: Self)
        ensures
            state.is_initial(),
    {
        Self {
            page: ShearsPage::SelectFolder,
            checkbox_textures: [true; 5],
            checkbox_videos: true,
            checkbox_events: true,
            label_possible_space_saved: 0,
            modals: [false; 2],
        }
    }
}

impl ShearsUiState {
    /// The state at the start: the first page, every box ticked, nothing to
    /// free, no dialog open.
    pub open spec fn is_initial(self) -> bool {
        &&& self.page == ShearsPage::SelectFolder
        &&& forall|i: int| 0 <= i < 5 ==> #[trigger] self.checkbox_textures[i]
        &&& self.checkbox_videos
        &&& self.checkbox_events
        &&& self.label_possible_space_saved == 0
        &&& forall|i: int| 0 <= i < 2 ==> !#[trigger] self.modals[i]
    }

    pub fn get_texture_checkbox(self, quality_level: usize) -> (checked: bool)
        requires
            quality_level < 5,
        ensures
            checked == self.checkbox_textures[quality_level as int],
    {
        self.checkbox_textures[quality_level]
    }

    pub fn get_texture_checkbox_mut(&mut self, quality_level: usize) -> (checked: &mut bool)
        requires
            quality_level < 5,
        ensures
            *checked == old(self).checkbox_textures[quality_level as int],
            final(self).checkbox_textures@ == old(self).checkbox_textures@.update(
                quality_level as int,
                *final(checked),
            ),
            final(self).page == old(self).page,
            final(self).checkbox_videos == old(self).checkbox_videos,
            final(self).checkbox_events == old(self).checkbox_events,
            final(self).label_possible_space_saved == old(self).label_possible_space_saved,
            final(self).modals == old(self).modals,
    {
        &mut self.checkbox_textures[quality_level]
    }

    pub fn get_modal(self, modal_index: usize) -> (open: bool)
        requires
            modal_index < 2,
        ensures
            open == self.modals[modal_index as int],
    {
        self.modals[modal_index]
    }

    pub fn get_modal_mut(&mut self, modal_index: usize) -> (open: &mut bool)
        requires
            modal_index < 2,
        ensures
            *open == old(self).modals[modal_index as int],
            final(self).modals@ == old(self).modals@.update(modal_index as int, *final(open)),
            final(self).page == old(self).page,
            final(self).checkbox_textures == old(self).checkbox_textures,
            final(self).checkbox_videos == old(self).checkbox_videos,
            final(self).checkbox_events == old(self).checkbox_events,
            final(self).label_possible_space_saved == old(self).label_possible_space_saved,
    {
        &mut self.modals[modal_index]
    }
}

} // verus!
