//! State of the editor's user interface that follows the editor's state.
use vstd::prelude::*;

use crate::progresstracking::ProgressTracking;
use crate::terrain_material::MaterialSlot;
use crate::toolbox::ToolboxState;

verus! {

/// The states of the editor.
#[derive(Debug, Clone, Copy, PartialEq, Eq, Hash, Structural)]
pub enum EditorState {
    Initialization,
    NoTerrainData,
    TerrainLoading,
    Editing,
    FreeCam,
}

/// State of the user interface.
pub struct UiState {
    pub fullscreen: bool,
    pub project_open: bool,
    pub project_is_loading: bool,

    pub progress: ProgressTracking,
    pub selected_slot: Option<MaterialSlot>,
    pub toolbox: ToolboxState,

    pub debug_show_clipmaps: bool,
}

impl UiState {
    /// Nothing open, nothing loading, nothing tracked or selected.
    pub fn new() -> (res: UiState)
        ensures
            !res.fullscreen,
            !res.project_open,
            !res.project_is_loading,
            res.progress.spec_task() is None,
            res.selected_slot is None,
            res.toolbox == ToolboxState::spec_default(),
            !res.debug_show_clipmaps,
    {
        UiState {
            fullscreen: false,
            project_open: false,
            project_is_loading: false,
            progress: ProgressTracking::new(),
            selected_slot: None,
            toolbox: ToolboxState::default(),
            debug_show_clipmaps: false,
        }
    }

    /// Follows a change of the editor state: a project is open while
    /// editing, loading while the terrain loads, neither without terrain
    /// data; during initialization and in free camera mode nothing changes.
    pub fn update(&mut self, editor_state: EditorState)
        ensures
            match editor_state {
                EditorState::NoTerrainData => !final(self).project_open && !final(self).project_is_loading,
                EditorState::TerrainLoading => !final(self).project_open && final(self).project_is_loading,
                EditorState::Editing => final(self).project_open && !final(self).project_is_loading,
                _ => final(self).project_open == old(self).project_open
                    && final(self).project_is_loading == old(self).project_is_loading,
            },
            final(self).fullscreen == old(self).fullscreen,
            final(self).progress == old(self).progress,
            final(self).selected_slot == old(self).selected_slot,
            final(self).toolbox == old(self).toolbox,
            final(self).debug_show_clipmaps == old(self).debug_show_clipmaps,
    {
        match editor_state {
            EditorState::NoTerrainData => {
                self.project_open = false;
                self.project_is_loading = false;
            },
            EditorState::TerrainLoading => {
                self.project_open = false;
                self.project_is_loading = true;
            },
            EditorState::Editing => {
                self.project_open = true;
                self.project_is_loading = false;
            },
            EditorState::Initialization | EditorState::FreeCam => {},
        }
    }
}

impl Default for UiState {
    fn default() -> (res: UiState)
        ensures
            !res.fullscreen,
            !res.project_open,
            !res.project_is_loading,
            res.progress.spec_task() is None,
            res.selected_slot is None,
            res.toolbox == ToolboxState::spec_default(),
            !res.debug_show_clipmaps,
    {
        UiState::new()
    }
}

} // verus!
