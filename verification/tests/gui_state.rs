use terrain_editor::gui_state::{EditorState, UiState};

#[test]
fn ui_follows_editor_state() {
    let mut ui = UiState::new();
    assert!(!ui.project_open && !ui.project_is_loading);
    ui.update(EditorState::TerrainLoading);
    assert!(!ui.project_open && ui.project_is_loading);
    ui.update(EditorState::Editing);
    assert!(ui.project_open && !ui.project_is_loading);
    ui.update(EditorState::FreeCam);
    assert!(ui.project_open && !ui.project_is_loading);
    ui.update(EditorState::NoTerrainData);
    assert!(!ui.project_open && !ui.project_is_loading);
    ui.update(EditorState::Initialization);
    assert!(!ui.project_open && !ui.project_is_loading);
}
