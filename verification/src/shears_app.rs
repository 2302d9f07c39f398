//! The state behind the window: the chosen folder, the boxes a user ticks,
//! and the decisions that follow from them.

use crate::helpers::{
    capped, describes, get_shearing_features_availability, shear, shears, FolderEntry, FolderItem,
    ShearingPlan,
};
use crate::types::{
    ForgeTextureQualityLevel, ShearingFeaturesAvailability, ShearsFolderState, ShearsPage,
    ShearsUiState,
};
use vstd::prelude::*;

verus! {

/// The bytes that a kind frees: its size where its box is not ticked.
pub open spec fn freed(keep: bool, size: u64) -> int {
    if keep {
        0
    } else {
        size as int
    }
}

/// The bytes that the present choice frees: the textures from `Medium` to
/// `Ultra`, the videos and the event files whose boxes are not ticked. The
/// `Low` textures are never removed and never counted.
pub open spec fn possible_space(ui: ShearsUiState, features: ShearingFeaturesAvailability) -> int {
    freed(ui.checkbox_textures[1], features.textures[1].1) + freed(
        ui.checkbox_textures[2],
        features.textures[2].1,
    ) + freed(ui.checkbox_textures[3], features.textures[3].1) + freed(
        ui.checkbox_textures[4],
        features.textures[4].1,
    ) + freed(ui.checkbox_videos, features.videos.1) + freed(
        ui.checkbox_events,
        features.events.1,
    )
}

/// The boxes after the box of `level` was clicked. No level above `level`
/// stays ticked; where the box of `level` is ticked, so is every level from
/// `Medium` up to it. A click on `Low` changes nothing.
pub open spec fn validated(boxes: Seq<bool>, level: ForgeTextureQualityLevel) -> Seq<bool> {
    Seq::new(
        5,
        |j: int|
            if level == ForgeTextureQualityLevel::Low {
                boxes[j]
            } else if j > level.rank() {
                false
            } else if boxes[level.rank()] && 1 <= j < level.rank() {
                true
            } else {
                boxes[j]
            },
    )
}

/// The lowest texture level that a run keeps: the highest level from
/// `Medium` to `Ultra` whose box is ticked, and `Low` where none is.
pub open spec fn minimum_level_to_keep(boxes: Seq<bool>) -> ForgeTextureQualityLevel {
    if boxes[4] {
        ForgeTextureQualityLevel::Ultra
    } else if boxes[3] {
        ForgeTextureQualityLevel::VeryHigh
    } else if boxes[2] {
        ForgeTextureQualityLevel::High
    } else if boxes[1] {
        ForgeTextureQualityLevel::Medium
    } else {
        ForgeTextureQualityLevel::Low
    }
}

/// The boxes from `Medium` to `Ultra` are in order: those up to some level
/// are ticked and those above it are not.
pub open spec fn in_order(boxes: Seq<bool>) -> bool {
    exists|top: int| 0 <= top <= 4 && ticked_up_to(boxes, top)
}

/// The boxes from `Medium` up to the level at `top` are ticked and those
/// above it are not.
pub open spec fn ticked_up_to(boxes: Seq<bool>, top: int) -> bool {
    forall|j: int| 1 <= j <= 4 ==> #[trigger] boxes[j] == (j <= top)
}

/// A click keeps the boxes in order: where they were in order, and the box
/// of a level from `Medium` to `Ultra` is clicked, so that it changes, the
/// boxes are in order again once they were put right.
pub proof fn lemma_click_keeps_order(boxes: Seq<bool>, level: ForgeTextureQualityLevel)
    requires
        boxes.len() == 5,
        in_order(boxes),
        level != ForgeTextureQualityLevel::Low,
    ensures
        in_order(validated(boxes.update(level.rank(), !boxes[level.rank()]), level)),
{
    let top = choose|top: int| 0 <= top <= 4 && ticked_up_to(boxes, top);
    let clicked = boxes.update(level.rank(), !boxes[level.rank()]);
    let after = validated(clicked, level);
    assert(boxes[level.rank()] == (level.rank() <= top));
    if clicked[level.rank()] {
        assert(ticked_up_to(after, level.rank()));
    } else {
        assert forall|j: int| 1 <= j <= 4 implies #[trigger] after[j] == (j <= level.rank() - 1) by {
            if j < level.rank() {
                assert(boxes[j] == (j <= top));
            }
        }
        assert(ticked_up_to(after, level.rank() - 1));
    }
}

/// With the boxes in order, a run removes exactly the textures whose boxes
/// are not ticked: a level from `Medium` to `Ultra` lies above the level to
/// keep exactly where its box is not ticked.
pub proof fn lemma_unticked_levels_go(boxes: Seq<bool>, level: ForgeTextureQualityLevel)
    requires
        boxes.len() == 5,
        in_order(boxes),
        level != ForgeTextureQualityLevel::Low,
    ensures
        level.rank() > minimum_level_to_keep(boxes).rank() <==> !boxes[level.rank()],
{
    let top = choose|top: int| 0 <= top <= 4 && ticked_up_to(boxes, top);
    assert(boxes[1] == (1 <= top));
    assert(boxes[2] == (2 <= top));
    assert(boxes[3] == (3 <= top));
    assert(boxes[4] == (4 <= top));
}

/// The chosen folder and the state of the window.
#[derive(Debug)]
pub struct ShearsApp {
    pub folder_state: ShearsFolderState,
    pub ui_state: ShearsUiState,
}

impl ShearsApp {
    /// The state at the start: no folder chosen, every box ticked.
    pub fn new() -> (app: Self)
        ensures
            app.folder_state.siege_path.is_none(),
            app.folder_state.features_availability.is_empty(),
            app.ui_state.is_initial(),
    {
        Self { folder_state: ShearsFolderState::default(), ui_state: ShearsUiState::default() }
    }

    /// `plan` is what a run does with the boxes as they stand, in a folder
    /// with this listing: it keeps the textures up to the highest level
    /// whose box is ticked, and removes the videos and the event files whose
    /// boxes are not ticked.
    pub open spec fn plans(self, plan: ShearingPlan, listing: Option<Vec<FolderEntry>>) -> bool {
        &&& self.folder_state.siege_path matches Some(folder) && shears(
            plan,
            folder@,
            listing,
            minimum_level_to_keep(self.ui_state.checkbox_textures@),
            !self.ui_state.checkbox_videos,
            !self.ui_state.checkbox_events,
        )
    }

    /// Chooses a folder and takes in what it holds.
    pub fn set_folder(
        &mut self,
        folder: String,
        listing: &Option<Vec<FolderEntry>>,
        videos: &Option<FolderItem>,
    )
        ensures
            final(self).folder_state.siege_path == Some(folder),
            final(self).refreshed_from(*old(self), *listing, *videos),
    {
        self.folder_state.siege_path = Some(folder);
        self.refresh_feature_availablity(listing, videos);
    }

    /// `self` is `before` after it took in the listing of its folder: the
    /// page shows the folder; the snapshot is that of the listing, as the
    /// scan gave it; each box is ticked where its kind is there; and the
    /// label holds the space that this choice frees.
    pub open spec fn refreshed_from(
        self,
        before: ShearsApp,
        listing: Option<Vec<FolderEntry>>,
        videos: Option<FolderItem>,
    ) -> bool {
        let found = self.folder_state.features_availability;
        &&& self.ui_state.page == ShearsPage::FolderSelected
        &&& self.ui_state.modals == before.ui_state.modals
        &&& describes(found, listing, videos)
        &&& found.is_consistent()
        &&& forall|i: int|
            0 <= i < 5 ==> self.ui_state.checkbox_textures[i] == (#[trigger] found.textures[i]).0
        &&& self.ui_state.checkbox_videos == found.videos.0
        &&& self.ui_state.checkbox_events == found.events.0
        &&& self.ui_state.label_possible_space_saved == capped(possible_space(self.ui_state, found))
    }

    /// Looks at the chosen folder again and sets the boxes by what it holds.
    pub fn refresh_feature_availablity(
        &mut self,
        listing: &Option<Vec<FolderEntry>>,
        videos: &Option<FolderItem>,
    )
        requires
            old(self).folder_state.siege_path.is_some(),
        ensures
            final(self).folder_state.siege_path == old(self).folder_state.siege_path,
            final(self).refreshed_from(*old(self), *listing, *videos),
    {
        let scanned = get_shearing_features_availability(listing, videos);
        self.folder_state.features_availability = scanned;
        self.ui_state.page = ShearsPage::FolderSelected;
        let mut quality_level: usize = 0;
        while quality_level < 5
            invariant
                quality_level <= 5,
                self.folder_state.features_availability == scanned,
                self.folder_state.siege_path == old(self).folder_state.siege_path,
                self.ui_state.page == ShearsPage::FolderSelected,
                self.ui_state.modals == old(self).ui_state.modals,
                forall|i: int|
                    0 <= i < quality_level ==> self.ui_state.checkbox_textures[i] == (
                    #[trigger] scanned.textures[i]).0,
            decreases 5 - quality_level,
        {
            let present: bool = self.folder_state.features_availability.get_texture(quality_level).0;
            self.ui_state.checkbox_textures[quality_level] = present;
            quality_level += 1;
        }
        self.ui_state.checkbox_videos = self.folder_state.features_availability.videos.0;
        self.ui_state.checkbox_events = self.folder_state.features_availability.events.0;
        self.compute_possible_space_freed();
    }

    /// Whether the textures of `level` are offered for removal: they are
    /// there, and the level is not `Low`, without which the game cannot run.
    pub fn is_texture_offered(&self, level: ForgeTextureQualityLevel) -> (offered: bool)
        ensures
            offered == (level != ForgeTextureQualityLevel::Low
                && self.folder_state.features_availability.textures[level.rank()].0),
    {
        match level {
            ForgeTextureQualityLevel::Low => false,
            _ => self.folder_state.features_availability.get_texture(level.index()).0,
        }
    }

    /// Sets the label to the space that the present choice frees. A sum
    /// above `u64::MAX` is held as `u64::MAX`.
    pub fn compute_possible_space_freed(&mut self)
        ensures
            final(self).ui_state.label_possible_space_saved == capped(
                possible_space(old(self).ui_state, old(self).folder_state.features_availability),
            ),
            final(self).folder_state == old(self).folder_state,
            final(self).ui_state.page == old(self).ui_state.page,
            final(self).ui_state.checkbox_textures == old(self).ui_state.checkbox_textures,
            final(self).ui_state.checkbox_videos == old(self).ui_state.checkbox_videos,
            final(self).ui_state.checkbox_events == old(self).ui_state.checkbox_events,
            final(self).ui_state.modals == old(self).ui_state.modals,
    {
        let features = self.folder_state.features_availability;
        let mut saved: u64 = 0;
        let mut quality_level: usize = 1;
        let ghost mut exact: int = 0;
        while quality_level < 5
            invariant
                1 <= quality_level <= 5,
                *self == *old(self),
                features == self.folder_state.features_availability,
                exact >= 0,
                saved == capped(exact),
                exact == (if quality_level > 1 {
                    freed(self.ui_state.checkbox_textures[1], features.textures[1].1)
                } else {
                    0
                }) + (if quality_level > 2 {
                    freed(self.ui_state.checkbox_textures[2], features.textures[2].1)
                } else {
                    0
                }) + (if quality_level > 3 {
                    freed(self.ui_state.checkbox_textures[3], features.textures[3].1)
                } else {
                    0
                }) + (if quality_level > 4 {
                    freed(self.ui_state.checkbox_textures[4], features.textures[4].1)
                } else {
                    0
                }),
            decreases 5 - quality_level,
        {
            if !self.ui_state.get_texture_checkbox(quality_level) {
                let size: u64 = features.get_texture(quality_level).1;
                saved = saved.saturating_add(size);
                proof {
                    exact = exact + size;
                }
            }
            quality_level += 1;
        }
        if !self.ui_state.checkbox_videos {
            saved = saved.saturating_add(features.videos.1);
        }
        if !self.ui_state.checkbox_events {
            saved = saved.saturating_add(features.events.1);
        }
        self.ui_state.label_possible_space_saved = saved;
    }

    /// Puts the boxes in order after the box of `level` was clicked.
    pub fn validate_ui_state_checkbox(&mut self, level: ForgeTextureQualityLevel)
        ensures
            final(self).ui_state.checkbox_textures@ == validated(
                old(self).ui_state.checkbox_textures@,
                level,
            ),
            final(self).folder_state == old(self).folder_state,
            final(self).ui_state.page == old(self).ui_state.page,
            final(self).ui_state.checkbox_videos == old(self).ui_state.checkbox_videos,
            final(self).ui_state.checkbox_events == old(self).ui_state.checkbox_events,
            final(self).ui_state.label_possible_space_saved == old(
                self,
            ).ui_state.label_possible_space_saved,
            final(self).ui_state.modals == old(self).ui_state.modals,
    {
        if level == ForgeTextureQualityLevel::Low {
            assert(self.ui_state.checkbox_textures@ =~= validated(
                old(self).ui_state.checkbox_textures@,
                level,
            ));
            return ;
        }
        let level_idx: usize = level.index();
        let ticked: bool = self.ui_state.checkbox_textures[level_idx];
        let mut j: usize = 1;
        while j < 5
            invariant
                1 <= j <= 5,
                1 <= level_idx <= 4,
                level_idx == level.rank(),
                ticked == old(self).ui_state.checkbox_textures[level_idx as int],
                self.folder_state == old(self).folder_state,
                self.ui_state.page == old(self).ui_state.page,
                self.ui_state.checkbox_videos == old(self).ui_state.checkbox_videos,
                self.ui_state.checkbox_events == old(self).ui_state.checkbox_events,
                self.ui_state.label_possible_space_saved == old(
                    self,
                ).ui_state.label_possible_space_saved,
                self.ui_state.modals == old(self).ui_state.modals,
                forall|k: int|
                    0 <= k < 5 ==> #[trigger] self.ui_state.checkbox_textures[k] == if k < j {
                        validated(old(self).ui_state.checkbox_textures@, level)[k]
                    } else {
                        old(self).ui_state.checkbox_textures[k]
                    },
            decreases 5 - j,
        {
            if j > level_idx {
                self.ui_state.checkbox_textures[j] = false;
            } else if ticked && j < level_idx {
                self.ui_state.checkbox_textures[j] = true;
            }
            j += 1;
        }
        assert(self.ui_state.checkbox_textures@ =~= validated(
            old(self).ui_state.checkbox_textures@,
            level,
        ));
    }

    /// The lowest texture level that a run keeps, by the boxes as they stand.
    pub fn minimum_quality_level(&self) -> (level: ForgeTextureQualityLevel)
        ensures
            level == minimum_level_to_keep(self.ui_state.checkbox_textures@),
    {
        let mut i: i32 = 4;
        while i >= 1
            invariant
                0 <= i <= 4,
                forall|k: int| i < k <= 4 ==> !#[trigger] self.ui_state.checkbox_textures[k],
            decreases i,
        {
            let found = ForgeTextureQualityLevel::convert_from_i32(i);
            match found {
                Some(level) => {
                    if self.ui_state.get_texture_checkbox(level.index()) {
                        return level;
                    }
                },
                None => {},
            }
            i -= 1;
        }
        ForgeTextureQualityLevel::Low
    }

    /// Decides what a shearing run does: which texture archives go, whether
    /// the videos and the event files go, and the marking file to write at
    /// the end. There is nothing to do where no folder was chosen. A folder
    /// that could not be listed (`None`) loses no file.
    pub fn execute_shearing(&self, listing: &Option<Vec<FolderEntry>>) -> (plan: Option<
        ShearingPlan,
    >)
        ensures
            plan.is_some() == self.folder_state.siege_path.is_some(),
            plan matches Some(p) ==> self.plans(p, *listing),
    {
        let folder = match &self.folder_state.siege_path {
            None => {
                return None;
            },
            Some(folder) => folder.clone(),
        };
        let min_texture_quality_level = self.minimum_quality_level();
        Some(
            shear(
                folder,
                listing,
                min_texture_quality_level,
                !self.ui_state.checkbox_videos,
                !self.ui_state.checkbox_events,
            ),
        )
    }
}

} // verus!
