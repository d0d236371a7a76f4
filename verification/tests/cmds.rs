use terrain_editor::cmds::{
    AsyncCommandManager, AsyncTask, AsyncTaskFinishedEvent, AsyncTaskStartEvent, GenerateClipmap,
    GenerateHeightmapNormals, GenerateTerrainMeshErrorMaps, GenerateTerrainMeshes, GenerateTerrainTiles,
    LoadHeightmap, LoadTerrainMaterialSet, LoadTextureMap, LoadTintMap, WaitForTerrainLoaded,
};
use terrain_editor::cmds::AsyncTaskFinishedEvent as F;
use terrain_editor::cmds::AsyncTaskStartEvent as S;

fn started(events: Option<Vec<AsyncTaskStartEvent>>) -> Vec<AsyncTaskStartEvent> {
    events.expect("expected start events")
}

fn assert_same_events(actual: Vec<AsyncTaskStartEvent>, expected: &[AsyncTaskStartEvent]) {
    assert_eq!(actual.len(), expected.len(), "got {:?}", actual);
    for e in expected {
        assert!(actual.contains(e), "{:?} missing in {:?}", e, actual);
    }
}

fn all_tasks() -> Vec<AsyncTask> {
    vec![
        AsyncTask::LoadHeightmap(LoadHeightmap),
        AsyncTask::LoadTextureMap(LoadTextureMap),
        AsyncTask::LoadTintMap(LoadTintMap),
        AsyncTask::GenerateClipmap(GenerateClipmap),
        AsyncTask::GenerateHeightmapNormals(GenerateHeightmapNormals),
        AsyncTask::GenerateTerrainTiles(GenerateTerrainTiles),
        AsyncTask::GenerateTerrainMeshErrorMaps(GenerateTerrainMeshErrorMaps),
        AsyncTask::GenerateTerrainMeshes(GenerateTerrainMeshes),
        AsyncTask::LoadTerrainMaterialSet(LoadTerrainMaterialSet),
        AsyncTask::WaitForTerrainLoaded(WaitForTerrainLoaded),
    ]
}

#[test]
fn new_manager_starts_nothing() {
    let mut m = AsyncCommandManager::new();
    assert!(m.get_start_events().is_none());
}

#[test]
fn loading_a_terrain_runs_every_task_in_dependency_order() {
    let mut m = AsyncCommandManager::default();
    m.add_new(AsyncTask::LoadHeightmap(LoadHeightmap));
    m.add_new(AsyncTask::LoadTextureMap(LoadTextureMap));
    m.add_new(AsyncTask::LoadTintMap(LoadTintMap));
    m.add_new(AsyncTask::LoadTerrainMaterialSet(LoadTerrainMaterialSet));
    m.add_new(AsyncTask::WaitForTerrainLoaded(WaitForTerrainLoaded));

    assert_same_events(
        started(m.get_start_events()),
        &[S::LoadHeightmap, S::LoadTextureMap, S::LoadTintMap, S::LoadTerrainMaterialSet],
    );
    // nothing changed since the last check
    assert!(m.get_start_events().is_none());

    m.update(F::HeightmapLoaded);
    assert_same_events(started(m.get_start_events()), &[S::GenerateHeightmapNormals, S::GenerateTerrainTiles]);

    m.update(F::HeightmapNormalsGenerated);
    // error maps also wait for the tiles
    assert!(m.get_start_events().is_none());
    m.update(F::TerrainTilesGenerated);
    assert_same_events(started(m.get_start_events()), &[S::GenerateTerrainMeshErrorMaps]);

    m.update(F::TextureMapLoaded);
    assert!(m.get_start_events().is_none());
    m.update(F::TintMapLoaded);
    assert_same_events(started(m.get_start_events()), &[S::GenerateClipmap]);

    m.update(F::TerrainMeshErrorMapsGenerated);
    assert_same_events(started(m.get_start_events()), &[S::GenerateTerrainMeshes]);

    m.update(F::TerrainMeshesGenerated);
    m.update(F::ClipmapGenerated);
    assert!(m.get_start_events().is_none());
    m.update(F::TerrainMaterialSetLoaded);
    assert_same_events(started(m.get_start_events()), &[S::WaitForTerrainLoaded]);

    // queue is empty now
    m.update(F::TerrainLoaded);
    assert!(m.get_start_events().is_none());
}

#[test]
fn repeated_finished_event_changes_nothing() {
    let mut m = AsyncCommandManager::new();
    m.add_new(AsyncTask::GenerateTerrainTiles(GenerateTerrainTiles));
    // preconditions missing
    assert!(m.get_start_events().is_none());
    m.update(AsyncTaskFinishedEvent::HeightmapLoaded);
    assert_same_events(started(m.get_start_events()), &[AsyncTaskStartEvent::GenerateTerrainTiles]);
    m.add_new(AsyncTask::LoadTerrainMaterialSet(LoadTerrainMaterialSet));
    assert_same_events(started(m.get_start_events()), &[AsyncTaskStartEvent::LoadTerrainMaterialSet]);
}

#[test]
fn requeued_task_holds_back_its_followers() {
    let mut m = AsyncCommandManager::new();
    m.update(F::HeightmapLoaded);
    m.update(F::HeightmapNormalsGenerated);
    m.update(F::TerrainTilesGenerated);
    m.add_new(AsyncTask::GenerateTerrainMeshes(GenerateTerrainMeshes));
    m.update(F::TerrainMeshErrorMapsGenerated);
    assert_same_events(started(m.get_start_events()), &[S::GenerateTerrainMeshes]);

    // loading the heightmap again forgets all results that depend on it
    m.add_new(AsyncTask::LoadHeightmap(LoadHeightmap));
    assert_same_events(started(m.get_start_events()), &[S::LoadHeightmap]);
    m.update(F::HeightmapLoaded);
    // error maps wait for new normals and tiles, meshes for new error maps
    assert_same_events(started(m.get_start_events()), &[S::GenerateHeightmapNormals, S::GenerateTerrainTiles]);
    m.update(F::HeightmapNormalsGenerated);
    assert!(m.get_start_events().is_none());
    m.update(F::TerrainTilesGenerated);
    assert_same_events(started(m.get_start_events()), &[S::GenerateTerrainMeshErrorMaps]);
    m.update(F::TerrainMeshErrorMapsGenerated);
    assert_same_events(started(m.get_start_events()), &[S::GenerateTerrainMeshes]);
}

#[test]
fn subsequent_tasks_wait_for_their_predecessor() {
    for t in all_tasks() {
        for s in t.subsequent_tasks() {
            assert!(s.preconditions().contains(&t.ready_event()), "{:?} -> {:?}", t, s);
        }
    }
}

#[test]
fn dependency_table() {
    assert_eq!(
        AsyncTask::LoadHeightmap(LoadHeightmap).subsequent_tasks(),
        vec![
            AsyncTask::GenerateHeightmapNormals(GenerateHeightmapNormals),
            AsyncTask::GenerateTerrainTiles(GenerateTerrainTiles),
            AsyncTask::GenerateTerrainMeshErrorMaps(GenerateTerrainMeshErrorMaps),
        ]
    );
    assert_eq!(
        AsyncTask::WaitForTerrainLoaded(WaitForTerrainLoaded).preconditions(),
        vec![
            AsyncTaskFinishedEvent::TerrainMeshesGenerated,
            AsyncTaskFinishedEvent::ClipmapGenerated,
            AsyncTaskFinishedEvent::TerrainMaterialSetLoaded,
        ]
    );
    assert!(AsyncTask::LoadTintMap(LoadTintMap).preconditions().is_empty());
    assert!(AsyncTask::GenerateTerrainMeshes(GenerateTerrainMeshes).subsequent_tasks().is_empty());
    assert_eq!(AsyncTask::GenerateClipmap(GenerateClipmap).start_event(), AsyncTaskStartEvent::GenerateClipmap);
    assert_eq!(AsyncTask::GenerateClipmap(GenerateClipmap).ready_event(), AsyncTaskFinishedEvent::ClipmapGenerated);
}

#[test]
fn events_identify_their_task() {
    let tasks = all_tasks();
    for (i, a) in tasks.iter().enumerate() {
        for (j, b) in tasks.iter().enumerate() {
            assert_eq!(a.start_event() == b.start_event(), i == j);
            assert_eq!(a.ready_event() == b.ready_event(), i == j);
        }
    }
}
