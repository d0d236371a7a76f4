//! Commands are "complex" operations that may involve multiple sub tasks, some
//! of them asynchronous. A task may only start once the finished events it
//! depends on were seen; finishing a task may make subsequent tasks pending.
use vstd::prelude::*;

pub mod manager;
pub mod progress;
pub mod task_sets;

pub use self::manager::AsyncCommandManager;
pub use self::progress::{TrackedProgress, TrackedTaskname};


verus! {

/// All tasks known to the command manager. Two tasks are equal if they are of
/// the same kind, so a kind is queued at most once.
#[derive(Debug, Clone, Copy, Hash, PartialEq, Eq)]
pub enum AsyncTask {
    LoadHeightmap(LoadHeightmap),
    LoadTextureMap(LoadTextureMap),
    LoadTintMap(LoadTintMap),
    GenerateClipmap(GenerateClipmap),
    GenerateHeightmapNormals(GenerateHeightmapNormals),
    GenerateTerrainTiles(GenerateTerrainTiles),
    GenerateTerrainMeshErrorMaps(GenerateTerrainMeshErrorMaps),
    GenerateTerrainMeshes(GenerateTerrainMeshes),
    LoadTerrainMaterialSet(LoadTerrainMaterialSet),
    WaitForTerrainLoaded(WaitForTerrainLoaded),
}

/// Event sent when all preconditions of a task are met and it is started.
#[derive(Debug, Clone, Copy, PartialEq, Eq)]
pub enum AsyncTaskStartEvent {
    LoadHeightmap,
    LoadTextureMap,
    LoadTintMap,
    GenerateClipmap,
    GenerateHeightmapNormals,
    GenerateTerrainTiles,
    GenerateTerrainMeshErrorMaps,
    GenerateTerrainMeshes,
    LoadTerrainMaterialSet,
    WaitForTerrainLoaded,
}

/// Event sent when a task has finished.
#[derive(Debug, Clone, Copy, Hash, PartialEq, Eq)]
pub enum AsyncTaskFinishedEvent {
    HeightmapLoaded,
    TextureMapLoaded,
    TintMapLoaded,
    ClipmapGenerated,
    HeightmapNormalsGenerated,
    TerrainTilesGenerated,
    TerrainMeshErrorMapsGenerated,
    TerrainMeshesGenerated,
    TerrainLoaded,
    TerrainMaterialSetLoaded,
}

#[derive(Debug, Default, Clone, Copy, Hash, PartialEq, Eq)]
pub struct LoadHeightmap;

#[derive(Debug, Default, Clone, Copy, Hash, PartialEq, Eq)]
pub struct LoadTextureMap;

#[derive(Debug, Default, Clone, Copy, Hash, PartialEq, Eq)]
pub struct LoadTintMap;

#[derive(Debug, Default, Clone, Copy, Hash, PartialEq, Eq)]
pub struct GenerateHeightmapNormals;

#[derive(Debug, Default, Clone, Copy, Hash, PartialEq, Eq)]
pub struct GenerateTerrainTiles;

#[derive(Debug, Default, Clone, Copy, Hash, PartialEq, Eq)]
pub struct GenerateTerrainMeshErrorMaps;

#[derive(Debug, Default, Clone, Copy, Hash, PartialEq, Eq)]
pub struct GenerateTerrainMeshes;

#[derive(Debug, Default, Clone, Copy, Hash, PartialEq, Eq)]
pub struct GenerateClipmap;

#[derive(Debug, Default, Clone, Copy, Hash, PartialEq, Eq)]
pub struct LoadTerrainMaterialSet;

#[derive(Debug, Default, Clone, Copy, Hash, PartialEq, Eq)]
pub struct WaitForTerrainLoaded;

// ----------------------------------------------------------------------------
// dependencies between async tasks
// ----------------------------------------------------------------------------
impl AsyncTask {
    /// Finished events that must have been seen before the task may start.
    pub open spec fn spec_preconditions(self) -> Seq<AsyncTaskFinishedEvent> {
        match self {
            AsyncTask::GenerateClipmap(_) => seq![
                AsyncTaskFinishedEvent::TextureMapLoaded,
                AsyncTaskFinishedEvent::TintMapLoaded,
            ],
            AsyncTask::GenerateHeightmapNormals(_) => seq![AsyncTaskFinishedEvent::HeightmapLoaded],
            AsyncTask::GenerateTerrainTiles(_) => seq![AsyncTaskFinishedEvent::HeightmapLoaded],
            AsyncTask::GenerateTerrainMeshErrorMaps(_) => seq![
                AsyncTaskFinishedEvent::TerrainTilesGenerated,
                AsyncTaskFinishedEvent::HeightmapLoaded,
                AsyncTaskFinishedEvent::HeightmapNormalsGenerated,
            ],
            AsyncTask::GenerateTerrainMeshes(_) => seq![
                AsyncTaskFinishedEvent::TerrainMeshErrorMapsGenerated,
            ],
            AsyncTask::WaitForTerrainLoaded(_) => seq![
                AsyncTaskFinishedEvent::TerrainMeshesGenerated,
                AsyncTaskFinishedEvent::ClipmapGenerated,
                AsyncTaskFinishedEvent::TerrainMaterialSetLoaded,
            ],
            _ => seq![],
        }
    }

    /// Event that is sent when the task is started.
    pub open spec fn spec_start_event(self) -> AsyncTaskStartEvent {
        match self {
            AsyncTask::LoadHeightmap(_) => AsyncTaskStartEvent::LoadHeightmap,
            AsyncTask::LoadTextureMap(_) => AsyncTaskStartEvent::LoadTextureMap,
            AsyncTask::LoadTintMap(_) => AsyncTaskStartEvent::LoadTintMap,
            AsyncTask::GenerateClipmap(_) => AsyncTaskStartEvent::GenerateClipmap,
            AsyncTask::GenerateHeightmapNormals(_) => AsyncTaskStartEvent::GenerateHeightmapNormals,
            AsyncTask::GenerateTerrainTiles(_) => AsyncTaskStartEvent::GenerateTerrainTiles,
            AsyncTask::GenerateTerrainMeshErrorMaps(_) => AsyncTaskStartEvent::GenerateTerrainMeshErrorMaps,
            AsyncTask::GenerateTerrainMeshes(_) => AsyncTaskStartEvent::GenerateTerrainMeshes,
            AsyncTask::LoadTerrainMaterialSet(_) => AsyncTaskStartEvent::LoadTerrainMaterialSet,
            AsyncTask::WaitForTerrainLoaded(_) => AsyncTaskStartEvent::WaitForTerrainLoaded,
        }
    }

    /// Event that signals that the task has finished.
    pub open spec fn spec_ready_event(self) -> AsyncTaskFinishedEvent {
        match self {
            AsyncTask::LoadHeightmap(_) => AsyncTaskFinishedEvent::HeightmapLoaded,
            AsyncTask::LoadTextureMap(_) => AsyncTaskFinishedEvent::TextureMapLoaded,
            AsyncTask::LoadTintMap(_) => AsyncTaskFinishedEvent::TintMapLoaded,
            AsyncTask::GenerateClipmap(_) => AsyncTaskFinishedEvent::ClipmapGenerated,
            AsyncTask::GenerateHeightmapNormals(_) => AsyncTaskFinishedEvent::HeightmapNormalsGenerated,
            AsyncTask::GenerateTerrainTiles(_) => AsyncTaskFinishedEvent::TerrainTilesGenerated,
            AsyncTask::GenerateTerrainMeshErrorMaps(_) => AsyncTaskFinishedEvent::TerrainMeshErrorMapsGenerated,
            AsyncTask::GenerateTerrainMeshes(_) => AsyncTaskFinishedEvent::TerrainMeshesGenerated,
            AsyncTask::LoadTerrainMaterialSet(_) => AsyncTaskFinishedEvent::TerrainMaterialSetLoaded,
            AsyncTask::WaitForTerrainLoaded(_) => AsyncTaskFinishedEvent::TerrainLoaded,
        }
    }

    /// Tasks that depend on the result and must be redone whenever the
    /// receiver is queued again.
    pub open spec fn spec_subsequent_tasks(self) -> Seq<AsyncTask> {
        match self {
            AsyncTask::LoadHeightmap(_) => seq![
                AsyncTask::GenerateHeightmapNormals(GenerateHeightmapNormals),
                AsyncTask::GenerateTerrainTiles(GenerateTerrainTiles),
                AsyncTask::GenerateTerrainMeshErrorMaps(GenerateTerrainMeshErrorMaps),
            ],
            AsyncTask::LoadTextureMap(_) => seq![AsyncTask::GenerateClipmap(GenerateClipmap)],
            AsyncTask::LoadTintMap(_) => seq![AsyncTask::GenerateClipmap(GenerateClipmap)],
            AsyncTask::GenerateHeightmapNormals(_) => seq![
                AsyncTask::GenerateTerrainMeshErrorMaps(GenerateTerrainMeshErrorMaps),
            ],
            AsyncTask::GenerateTerrainMeshErrorMaps(_) => seq![
                AsyncTask::GenerateTerrainMeshes(GenerateTerrainMeshes),
            ],
            _ => seq![],
        }
    }

    /// Longest chain of subsequent tasks that starts at the receiver.
    pub open spec fn depth(self) -> nat {
        match self {
            AsyncTask::LoadHeightmap(_) => 4,
            AsyncTask::GenerateHeightmapNormals(_) => 3,
            AsyncTask::GenerateTerrainMeshErrorMaps(_) => 2,
            AsyncTask::LoadTextureMap(_) => 2,
            AsyncTask::LoadTintMap(_) => 2,
            _ => 1,
        }
    }

    /// The task together with all tasks that (transitively) follow it.
    pub open spec fn closure(self) -> Set<AsyncTask>
        decreases self.depth(),
    {
        let subs = self.spec_subsequent_tasks();
        set![self]
            + (if subs.len() > 0 { subs[0].closure() } else { Set::empty() })
            + (if subs.len() > 1 { subs[1].closure() } else { Set::empty() })
            + (if subs.len() > 2 { subs[2].closure() } else { Set::empty() })
    }

    pub fn preconditions(&self) -> (res: Vec<AsyncTaskFinishedEvent>)
        ensures
            res@ == self.spec_preconditions(),
    {
        match self {
            AsyncTask::GenerateClipmap(_) => vec![
                AsyncTaskFinishedEvent::TextureMapLoaded,
                AsyncTaskFinishedEvent::TintMapLoaded,
            ],
            AsyncTask::GenerateHeightmapNormals(_) => vec![AsyncTaskFinishedEvent::HeightmapLoaded],
            AsyncTask::GenerateTerrainTiles(_) => vec![AsyncTaskFinishedEvent::HeightmapLoaded],
            AsyncTask::GenerateTerrainMeshErrorMaps(_) => vec![
                AsyncTaskFinishedEvent::TerrainTilesGenerated,
                AsyncTaskFinishedEvent::HeightmapLoaded,
                AsyncTaskFinishedEvent::HeightmapNormalsGenerated,
            ],
            AsyncTask::GenerateTerrainMeshes(_) => vec![
                AsyncTaskFinishedEvent::TerrainMeshErrorMapsGenerated,
            ],
            AsyncTask::WaitForTerrainLoaded(_) => vec![
                AsyncTaskFinishedEvent::TerrainMeshesGenerated,
                AsyncTaskFinishedEvent::ClipmapGenerated,
                AsyncTaskFinishedEvent::TerrainMaterialSetLoaded,
            ],
            _ => Vec::new(),
        }
    }

    pub fn start_event(self) -> (res: AsyncTaskStartEvent)
        ensures
            res == self.spec_start_event(),
    {
        match self {
            AsyncTask::LoadHeightmap(_) => AsyncTaskStartEvent::LoadHeightmap,
            AsyncTask::LoadTextureMap(_) => AsyncTaskStartEvent::LoadTextureMap,
            AsyncTask::LoadTintMap(_) => AsyncTaskStartEvent::LoadTintMap,
            AsyncTask::GenerateClipmap(_) => AsyncTaskStartEvent::GenerateClipmap,
            AsyncTask::GenerateHeightmapNormals(_) => AsyncTaskStartEvent::GenerateHeightmapNormals,
            AsyncTask::GenerateTerrainTiles(_) => AsyncTaskStartEvent::GenerateTerrainTiles,
            AsyncTask::GenerateTerrainMeshErrorMaps(_) => AsyncTaskStartEvent::GenerateTerrainMeshErrorMaps,
            AsyncTask::GenerateTerrainMeshes(_) => AsyncTaskStartEvent::GenerateTerrainMeshes,
            AsyncTask::LoadTerrainMaterialSet(_) => AsyncTaskStartEvent::LoadTerrainMaterialSet,
            AsyncTask::WaitForTerrainLoaded(_) => AsyncTaskStartEvent::WaitForTerrainLoaded,
        }
    }

    pub fn ready_event(&self) -> (res: AsyncTaskFinishedEvent)
        ensures
            res == self.spec_ready_event(),
    {
        match self {
            AsyncTask::LoadHeightmap(_) => AsyncTaskFinishedEvent::HeightmapLoaded,
            AsyncTask::LoadTextureMap(_) => AsyncTaskFinishedEvent::TextureMapLoaded,
            AsyncTask::LoadTintMap(_) => AsyncTaskFinishedEvent::TintMapLoaded,
            AsyncTask::GenerateClipmap(_) => AsyncTaskFinishedEvent::ClipmapGenerated,
            AsyncTask::GenerateHeightmapNormals(_) => AsyncTaskFinishedEvent::HeightmapNormalsGenerated,
            AsyncTask::GenerateTerrainTiles(_) => AsyncTaskFinishedEvent::TerrainTilesGenerated,
            AsyncTask::GenerateTerrainMeshErrorMaps(_) => AsyncTaskFinishedEvent::TerrainMeshErrorMapsGenerated,
            AsyncTask::GenerateTerrainMeshes(_) => AsyncTaskFinishedEvent::TerrainMeshesGenerated,
            AsyncTask::LoadTerrainMaterialSet(_) => AsyncTaskFinishedEvent::TerrainMaterialSetLoaded,
            AsyncTask::WaitForTerrainLoaded(_) => AsyncTaskFinishedEvent::TerrainLoaded,
        }
    }

    pub fn subsequent_tasks(&self) -> (res: Vec<AsyncTask>)
        ensures
            res@ == self.spec_subsequent_tasks(),
    {
        match self {
            AsyncTask::LoadHeightmap(_) => vec![
                AsyncTask::GenerateHeightmapNormals(GenerateHeightmapNormals),
                AsyncTask::GenerateTerrainTiles(GenerateTerrainTiles),
                AsyncTask::GenerateTerrainMeshErrorMaps(GenerateTerrainMeshErrorMaps),
            ],
            AsyncTask::LoadTextureMap(_) => vec![AsyncTask::GenerateClipmap(GenerateClipmap)],
            AsyncTask::LoadTintMap(_) => vec![AsyncTask::GenerateClipmap(GenerateClipmap)],
            AsyncTask::GenerateHeightmapNormals(_) => vec![
                AsyncTask::GenerateTerrainMeshErrorMaps(GenerateTerrainMeshErrorMaps),
            ],
            AsyncTask::GenerateTerrainMeshErrorMaps(_) => vec![
                AsyncTask::GenerateTerrainMeshes(GenerateTerrainMeshes),
            ],
            _ => Vec::new(),
        }
    }
}

/// Different tasks have different start events.
pub proof fn lemma_start_event_injective(a: AsyncTask, b: AsyncTask)
    ensures
        a.spec_start_event() == b.spec_start_event() ==> a == b,
{
}

/// Every task has a finished event of its own: different tasks never share one.
pub proof fn law_ready_event_identifies_task(a: AsyncTask, b: AsyncTask)
    ensures
        a.spec_ready_event() == b.spec_ready_event() ==> a == b,
{
}

/// Every subsequent task lies strictly deeper in the dependency order, so the
/// chain of subsequent tasks always ends.
pub proof fn lemma_subsequent_tasks_shallower(t: AsyncTask, i: int)
    requires
        0 <= i < t.spec_subsequent_tasks().len(),
    ensures
        t.spec_subsequent_tasks()[i].depth() < t.depth(),
        t.spec_subsequent_tasks().len() <= 3,
{
}

/// Every task has at most three subsequent tasks.
pub proof fn lemma_subsequent_tasks_shallower_len(t: AsyncTask)
    ensures
        t.spec_subsequent_tasks().len() <= 3,
{
}

/// Every subsequent task of a task waits for that task's finished event.
pub proof fn law_subsequent_waits_for_predecessor(t: AsyncTask, i: int)
    requires
        0 <= i < t.spec_subsequent_tasks().len(),
    ensures
        t.spec_subsequent_tasks()[i].spec_preconditions().contains(t.spec_ready_event()),
{
    let s = t.spec_subsequent_tasks()[i];
    let pre = s.spec_preconditions();
    let e = t.spec_ready_event();
    if pre.len() > 0 && pre[0] == e {
        assert(pre.contains(e));
    } else if pre.len() > 1 && pre[1] == e {
        assert(pre.contains(e));
    } else {
        assert(pre[2] == e);
        assert(pre.contains(e));
    }
}


/// Queuing a task again redoes every task that consumes its result: a task
/// that waits for the finished event of `t` is one of `t`'s subsequent tasks,
/// and so lies in its closure. Left out are the task that waits for a whole
/// terrain load, which the editor queues itself with each load, and the tile
/// generation, whose only consumer also waits for the heightmap and so is
/// redone with it.
pub proof fn law_consumers_are_subsequent(t: AsyncTask, s: AsyncTask)
    requires
        s.spec_preconditions().contains(t.spec_ready_event()),
        !(s is WaitForTerrainLoaded),
        !(t is GenerateTerrainTiles),
    ensures
        t.spec_subsequent_tasks().contains(s),
        t.closure().contains(s),
{
    let pre = s.spec_preconditions();
    let j = choose|j: int| 0 <= j < pre.len() && pre[j] == t.spec_ready_event();
    let subs = t.spec_subsequent_tasks();
    assert(subs.len() > 0 && subs[0] == s || subs.len() > 1 && subs[1] == s || subs.len() > 2 && subs[2] == s);
    if subs.len() > 0 && subs[0] == s {
        assert(subs[0].closure().contains(s));
    } else if subs.len() > 1 && subs[1] == s {
        assert(subs[1].closure().contains(s));
    } else {
        assert(subs[2].closure().contains(s));
    }
}

} // verus!
