use terrain_editor::cmds::{
    AsyncTask, AsyncTaskFinishedEvent, AsyncTaskStartEvent, GenerateTerrainMeshErrorMaps, LoadHeightmap,
    TrackedProgress, TrackedTaskname, WaitForTerrainLoaded,
};

#[test]
fn progress_messages() {
    assert_eq!(TrackedProgress::LoadHeightmap(false).progress_msg(), "loading heighmap...");
    assert_eq!(TrackedProgress::GeneratedHeightmapNormals(1, 4).progress_msg(), "generating normals...25%");
    assert_eq!(TrackedProgress::GeneratedTerrainErrorMaps(2, 3).progress_msg(), "generating error maps...66%");
    assert_eq!(TrackedProgress::MergedTerrainErrorMapSeams(5, 5).progress_msg(), "merging error map seams...100%");
    assert_eq!(TrackedProgress::GeneratedTerrainMeshes(0, 7).progress_msg(), "generating tile meshes...0%");
    assert_eq!(TrackedProgress::LoadTerrainMaterialSet(3, 17).progress_msg(), "loading materials...3/17");
    assert_eq!(TrackedProgress::Ignored.progress_msg(), "");
}

#[test]
fn progress_message_with_zero_total() {
    assert_eq!(TrackedProgress::GeneratedHeightmapNormals(0, 0).progress_msg(), "generating normals...NaN%");
    assert_eq!(TrackedProgress::GeneratedHeightmapNormals(3, 0).progress_msg(), "generating normals...inf%");
}

#[test]
fn progress_message_of_large_counts() {
    let big = usize::MAX;
    assert_eq!(
        TrackedProgress::GeneratedTerrainMeshes(big, big).progress_msg(),
        "generating tile meshes...100%"
    );
}

#[test]
fn finished_messages() {
    assert_eq!(TrackedProgress::LoadHeightmap(true).finished_msg(), "heightmap loaded.");
    assert_eq!(TrackedProgress::GenerateTerrainTiles(true).finished_msg(), "mesh tile info generated.");
    assert_eq!(TrackedProgress::LoadTerrainMaterialSet(0, 1).finished_msg(), "materials loaded.");
    assert_eq!(TrackedProgress::Ignored.finished_msg(), "");
}

#[test]
fn finished_states() {
    assert!(!TrackedProgress::LoadTintMap(false).is_finished());
    assert!(TrackedProgress::LoadTintMap(true).is_finished());
    assert!(!TrackedProgress::GeneratedTerrainMeshes(3, 4).is_finished());
    assert!(TrackedProgress::GeneratedTerrainMeshes(4, 4).is_finished());
    assert!(TrackedProgress::Ignored.is_finished());
}

#[test]
fn equality_ignores_payload() {
    assert_eq!(TrackedProgress::LoadHeightmap(false), TrackedProgress::LoadHeightmap(true));
    assert_eq!(TrackedProgress::GeneratedHeightmapNormals(0, 1), TrackedProgress::GeneratedHeightmapNormals(5, 9));
    assert_ne!(TrackedProgress::LoadHeightmap(true), TrackedProgress::LoadTextureMap(true));
    assert_ne!(TrackedProgress::GeneratedTerrainErrorMaps(1, 1), TrackedProgress::MergedTerrainErrorMapSeams(1, 1));
}

#[test]
fn conversions_from_events() {
    let p: TrackedProgress = AsyncTaskStartEvent::GenerateHeightmapNormals.into();
    assert!(matches!(p, TrackedProgress::GeneratedHeightmapNormals(0, 1)));
    let p: TrackedProgress = AsyncTaskFinishedEvent::TerrainMaterialSetLoaded.into();
    assert!(matches!(p, TrackedProgress::LoadTerrainMaterialSet(1, 1)));
    let p: TrackedProgress = AsyncTaskFinishedEvent::TerrainLoaded.into();
    assert!(matches!(p, TrackedProgress::Ignored));
}

#[test]
fn task_events_report_start_and_finish_of_same_kind() {
    for t in [
        AsyncTask::LoadHeightmap(LoadHeightmap),
        AsyncTask::GenerateTerrainMeshErrorMaps(GenerateTerrainMeshErrorMaps),
        AsyncTask::WaitForTerrainLoaded(WaitForTerrainLoaded),
    ] {
        let start = TrackedProgress::from(t.start_event());
        let done = TrackedProgress::from(t.ready_event());
        assert_eq!(start, done);
        assert!(done.is_finished());
    }
    assert!(!TrackedProgress::from(AsyncTask::LoadHeightmap(LoadHeightmap).start_event()).is_finished());
}

#[test]
fn taskname() {
    assert_eq!(TrackedTaskname(String::from("loading terrain")).as_str(), Some("loading terrain"));
    assert_eq!(TrackedTaskname(String::new()).as_str(), None);
    assert_eq!(TrackedTaskname::default().as_str(), None);
    assert_eq!(TrackedTaskname::from("loading terrain").as_str(), Some("loading terrain"));
    let name: TrackedTaskname = "x".into();
    assert_eq!(name.0, "x");
}
