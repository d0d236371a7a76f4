//! Progress tracking of (async) commands.
use vstd::prelude::*;
use vstd::std_specs::cmp::PartialEqSpecImpl;

use super::{AsyncTask, AsyncTaskFinishedEvent, AsyncTaskStartEvent};
use crate::text::{decimal, push_decimal};

verus! {

/// Progress of one tracked task: either a flag telling whether it finished or
/// a count of finished parts out of a total.
///
/// Equality only considers the kind of progress and ignores the payload.
#[derive(Clone, Copy, Debug)]
pub enum TrackedProgress {
    LoadHeightmap(bool),
    LoadTextureMap(bool),
    LoadTintMap(bool),
    GenerateClipmap(bool),
    GeneratedHeightmapNormals(usize, usize),
    GeneratedTerrainErrorMaps(usize, usize),
    MergedTerrainErrorMapSeams(usize, usize),
    GenerateTerrainTiles(bool),
    GeneratedTerrainMeshes(usize, usize),
    LoadTerrainMaterialSet(usize, usize),
    Ignored,
}

/// Name of a tracked group of tasks; an empty name means "no name".
#[derive(Clone, Debug, Default)]
pub struct TrackedTaskname(pub String);

impl TrackedProgress {
    /// Number identifying the kind of progress (the payload is ignored).
    pub open spec fn kind(self) -> int {
        match self {
            TrackedProgress::Ignored => 0,
            TrackedProgress::LoadHeightmap(_) => 1,
            TrackedProgress::LoadTextureMap(_) => 2,
            TrackedProgress::LoadTintMap(_) => 3,
            TrackedProgress::GenerateClipmap(_) => 4,
            TrackedProgress::GeneratedHeightmapNormals(_, _) => 5,
            TrackedProgress::GenerateTerrainTiles(_) => 6,
            TrackedProgress::GeneratedTerrainErrorMaps(_, _) => 7,
            TrackedProgress::MergedTerrainErrorMapSeams(_, _) => 8,
            TrackedProgress::GeneratedTerrainMeshes(_, _) => 9,
            TrackedProgress::LoadTerrainMaterialSet(_, _) => 10,
        }
    }

    pub open spec fn spec_is_finished(self) -> bool {
        match self {
            TrackedProgress::LoadHeightmap(b)
            | TrackedProgress::LoadTextureMap(b)
            | TrackedProgress::LoadTintMap(b)
            | TrackedProgress::GenerateClipmap(b)
            | TrackedProgress::GenerateTerrainTiles(b) => b,
            TrackedProgress::GeneratedHeightmapNormals(a, b)
            | TrackedProgress::GeneratedTerrainErrorMaps(a, b)
            | TrackedProgress::MergedTerrainErrorMapSeams(a, b)
            | TrackedProgress::GeneratedTerrainMeshes(a, b)
            | TrackedProgress::LoadTerrainMaterialSet(a, b) => a == b,
            TrackedProgress::Ignored => true,
        }
    }

    /// Text of a progress percentage: `a / b` in percent, truncated towards
    /// zero; a zero total reads as an undefined ("NaN") or infinite ("inf")
    /// percentage.
    pub open spec fn percentage_text(a: nat, b: nat) -> Seq<char> {
        if b == 0 {
            if a == 0 { seq!['N', 'a', 'N'] } else { seq!['i', 'n', 'f'] }
        } else {
            decimal(a * 100 / b)
        }
    }

    /// `msg`, followed by `...`, the percentage and `%`.
    pub open spec fn progress_text(msg: Seq<char>, a: nat, b: nat) -> Seq<char> {
        msg + seq!['.', '.', '.'] + Self::percentage_text(a, b) + seq!['%']
    }

    pub open spec fn spec_progress_msg(self) -> Seq<char> {
        match self {
            TrackedProgress::LoadHeightmap(_) => "loading heighmap..."@,
            TrackedProgress::LoadTextureMap(_) => "loading texturing map..."@,
            TrackedProgress::LoadTintMap(_) => "loading tintmap..."@,
            TrackedProgress::GenerateClipmap(_) => "generating clipmap..."@,
            TrackedProgress::GeneratedHeightmapNormals(a, b) =>
                Self::progress_text("generating normals"@, a as nat, b as nat),
            TrackedProgress::GenerateTerrainTiles(_) => "generating tiles..."@,
            TrackedProgress::GeneratedTerrainErrorMaps(a, b) =>
                Self::progress_text("generating error maps"@, a as nat, b as nat),
            TrackedProgress::MergedTerrainErrorMapSeams(a, b) =>
                Self::progress_text("merging error map seams"@, a as nat, b as nat),
            TrackedProgress::GeneratedTerrainMeshes(a, b) =>
                Self::progress_text("generating tile meshes"@, a as nat, b as nat),
            TrackedProgress::LoadTerrainMaterialSet(a, b) =>
                "loading materials..."@ + decimal(a as nat) + seq!['/'] + decimal(b as nat),
            TrackedProgress::Ignored => Seq::empty(),
        }
    }

    pub open spec fn spec_finished_msg(self) -> Seq<char> {
        match self {
            TrackedProgress::LoadHeightmap(_) => "heightmap loaded."@,
            TrackedProgress::LoadTextureMap(_) => "texturing map loaded."@,
            TrackedProgress::LoadTintMap(_) => "tintmap loaded."@,
            TrackedProgress::GenerateClipmap(_) => "clipmap generated."@,
            TrackedProgress::GeneratedHeightmapNormals(_, _) => "heightmap normals generated."@,
            TrackedProgress::GenerateTerrainTiles(_) => "mesh tile info generated."@,
            TrackedProgress::GeneratedTerrainErrorMaps(_, _) => "terrain error maps generation finished."@,
            TrackedProgress::MergedTerrainErrorMapSeams(_, _) => "terrain error map seams merged."@,
            TrackedProgress::GeneratedTerrainMeshes(_, _) => "terrain mesh generation finished."@,
            TrackedProgress::LoadTerrainMaterialSet(_, _) => "materials loaded."@,
            TrackedProgress::Ignored => ""@,
        }
    }

    /// True if the tracked task is done: a set flag, all parts finished or an
    /// ignored task.
    pub fn is_finished(&self) -> (res: bool)
        ensures
            res == self.spec_is_finished(),
    {
        match self {
            TrackedProgress::LoadHeightmap(b)
            | TrackedProgress::LoadTextureMap(b)
            | TrackedProgress::LoadTintMap(b)
            | TrackedProgress::GenerateClipmap(b)
            | TrackedProgress::GenerateTerrainTiles(b) => *b,
            TrackedProgress::GeneratedHeightmapNormals(a, b)
            | TrackedProgress::GeneratedTerrainErrorMaps(a, b)
            | TrackedProgress::MergedTerrainErrorMapSeams(a, b)
            | TrackedProgress::GeneratedTerrainMeshes(a, b)
            | TrackedProgress::LoadTerrainMaterialSet(a, b) => *a == *b,
            TrackedProgress::Ignored => true,
        }
    }

    fn format_progress(msg: &str, a: usize, b: usize) -> (res: String)
        ensures
            res@ == Self::progress_text(msg@, a as nat, b as nat),
    {
        let mut res = String::from_str(msg);
        res.append("...");
        if b == 0 {
            if a == 0 {
                res.append("NaN");
            } else {
                res.append("inf");
            }
        } else {
            let a_wide = a as u128;
            let b_wide = b as u128;
            assert(a_wide * 100 <= u128::MAX) by (nonlinear_arith)
                requires a_wide <= usize::MAX;
            push_decimal(&mut res, a_wide * 100 / b_wide);
        }
        res.append("%");
        proof {
            reveal_strlit("...");
            reveal_strlit("NaN");
            reveal_strlit("inf");
            reveal_strlit("%");
        }
        assert(res@ =~= Self::progress_text(msg@, a as nat, b as nat));
        res
    }

    /// Message describing the running task; tasks made of parts show the
    /// finished percentage, the material set loading shows the count.
    pub fn progress_msg(&self) -> (res: String)
        ensures
            res@ == self.spec_progress_msg(),
    {
        match self {
            TrackedProgress::LoadHeightmap(_) => String::from_str("loading heighmap..."),
            TrackedProgress::LoadTextureMap(_) => String::from_str("loading texturing map..."),
            TrackedProgress::LoadTintMap(_) => String::from_str("loading tintmap..."),
            TrackedProgress::GenerateClipmap(_) => String::from_str("generating clipmap..."),
            TrackedProgress::GeneratedHeightmapNormals(a, b) => {
                Self::format_progress("generating normals", *a, *b)
            },
            TrackedProgress::GenerateTerrainTiles(_) => String::from_str("generating tiles..."),
            TrackedProgress::GeneratedTerrainErrorMaps(a, b) => {
                Self::format_progress("generating error maps", *a, *b)
            },
            TrackedProgress::MergedTerrainErrorMapSeams(a, b) => {
                Self::format_progress("merging error map seams", *a, *b)
            },
            TrackedProgress::GeneratedTerrainMeshes(a, b) => {
                Self::format_progress("generating tile meshes", *a, *b)
            },
            TrackedProgress::LoadTerrainMaterialSet(a, b) => {
                let mut res = String::from_str("loading materials...");
                push_decimal(&mut res, *a as u128);
                res.append("/");
                push_decimal(&mut res, *b as u128);
                proof {
                    reveal_strlit("/");
                }
                assert(res@ =~= self.spec_progress_msg());
                res
            },
            TrackedProgress::Ignored => String::new(),
        }
    }

    /// Message shown once the task is done.
    pub fn finished_msg(&self) -> (res: &'static str)
        ensures
            res@ == self.spec_finished_msg(),
    {
        match self {
            TrackedProgress::LoadHeightmap(_) => "heightmap loaded.",
            TrackedProgress::LoadTextureMap(_) => "texturing map loaded.",
            TrackedProgress::LoadTintMap(_) => "tintmap loaded.",
            TrackedProgress::GenerateClipmap(_) => "clipmap generated.",
            TrackedProgress::GeneratedHeightmapNormals(_, _) => "heightmap normals generated.",
            TrackedProgress::GenerateTerrainTiles(_) => "mesh tile info generated.",
            TrackedProgress::GeneratedTerrainErrorMaps(_, _) => "terrain error maps generation finished.",
            TrackedProgress::MergedTerrainErrorMapSeams(_, _) => "terrain error map seams merged.",
            TrackedProgress::GeneratedTerrainMeshes(_, _) => "terrain mesh generation finished.",
            TrackedProgress::LoadTerrainMaterialSet(_, _) => "materials loaded.",
            TrackedProgress::Ignored => "",
        }
    }

    /// The kind number of `kind`, computed.
    pub fn kind_of(&self) -> (res: u8)
        ensures
            res as int == self.kind(),
    {
        match self {
            TrackedProgress::Ignored => 0,
            TrackedProgress::LoadHeightmap(_) => 1,
            TrackedProgress::LoadTextureMap(_) => 2,
            TrackedProgress::LoadTintMap(_) => 3,
            TrackedProgress::GenerateClipmap(_) => 4,
            TrackedProgress::GeneratedHeightmapNormals(_, _) => 5,
            TrackedProgress::GenerateTerrainTiles(_) => 6,
            TrackedProgress::GeneratedTerrainErrorMaps(_, _) => 7,
            TrackedProgress::MergedTerrainErrorMapSeams(_, _) => 8,
            TrackedProgress::GeneratedTerrainMeshes(_, _) => 9,
            TrackedProgress::LoadTerrainMaterialSet(_, _) => 10,
        }
    }

    /// Progress reported when a task is started.
    pub open spec fn spec_from_start_event(s: AsyncTaskStartEvent) -> TrackedProgress {
        match s {
            AsyncTaskStartEvent::LoadHeightmap => TrackedProgress::LoadHeightmap(false),
            AsyncTaskStartEvent::LoadTextureMap => TrackedProgress::LoadTextureMap(false),
            AsyncTaskStartEvent::LoadTintMap => TrackedProgress::LoadTintMap(false),
            AsyncTaskStartEvent::GenerateClipmap => TrackedProgress::GenerateClipmap(false),
            AsyncTaskStartEvent::GenerateHeightmapNormals => TrackedProgress::GeneratedHeightmapNormals(0, 1),
            AsyncTaskStartEvent::GenerateTerrainTiles => TrackedProgress::GenerateTerrainTiles(false),
            AsyncTaskStartEvent::GenerateTerrainMeshErrorMaps => TrackedProgress::GeneratedTerrainErrorMaps(0, 1),
            AsyncTaskStartEvent::GenerateTerrainMeshes => TrackedProgress::GeneratedTerrainMeshes(0, 1),
            AsyncTaskStartEvent::LoadTerrainMaterialSet => TrackedProgress::LoadTerrainMaterialSet(0, 1),
            AsyncTaskStartEvent::WaitForTerrainLoaded => TrackedProgress::Ignored,
        }
    }

    /// Progress reported when a task has finished.
    pub open spec fn spec_from_finished_event(s: AsyncTaskFinishedEvent) -> TrackedProgress {
        match s {
            AsyncTaskFinishedEvent::HeightmapLoaded => TrackedProgress::LoadHeightmap(true),
            AsyncTaskFinishedEvent::TextureMapLoaded => TrackedProgress::LoadTextureMap(true),
            AsyncTaskFinishedEvent::TintMapLoaded => TrackedProgress::LoadTintMap(true),
            AsyncTaskFinishedEvent::ClipmapGenerated => TrackedProgress::GenerateClipmap(true),
            AsyncTaskFinishedEvent::HeightmapNormalsGenerated => TrackedProgress::GeneratedHeightmapNormals(1, 1),
            AsyncTaskFinishedEvent::TerrainTilesGenerated => TrackedProgress::GenerateTerrainTiles(true),
            AsyncTaskFinishedEvent::TerrainMeshErrorMapsGenerated => TrackedProgress::GeneratedTerrainErrorMaps(1, 1),
            AsyncTaskFinishedEvent::TerrainMeshesGenerated => TrackedProgress::GeneratedTerrainMeshes(1, 1),
            AsyncTaskFinishedEvent::TerrainMaterialSetLoaded => TrackedProgress::LoadTerrainMaterialSet(1, 1),
            AsyncTaskFinishedEvent::TerrainLoaded => TrackedProgress::Ignored,
        }
    }
}

impl PartialEq for TrackedProgress {
    fn eq(&self, other: &Self) -> (res: bool) {
        self.kind_of() == other.kind_of()
    }
}

impl PartialEqSpecImpl for TrackedProgress {
    open spec fn obeys_eq_spec() -> bool {
        true
    }

    open spec fn eq_spec(&self, other: &TrackedProgress) -> bool {
        self.kind() == other.kind()
    }
}

impl Eq for TrackedProgress {}

impl vstd::std_specs::convert::FromSpecImpl<AsyncTaskStartEvent> for TrackedProgress {
    open spec fn obeys_from_spec() -> bool {
        true
    }

    open spec fn from_spec(s: AsyncTaskStartEvent) -> TrackedProgress {
        TrackedProgress::spec_from_start_event(s)
    }
}

impl From<AsyncTaskStartEvent> for TrackedProgress {
    fn from(s: AsyncTaskStartEvent) -> (res: TrackedProgress) {
        match s {
            AsyncTaskStartEvent::LoadHeightmap => TrackedProgress::LoadHeightmap(false),
            AsyncTaskStartEvent::LoadTextureMap => TrackedProgress::LoadTextureMap(false),
            AsyncTaskStartEvent::LoadTintMap => TrackedProgress::LoadTintMap(false),
            AsyncTaskStartEvent::GenerateClipmap => TrackedProgress::GenerateClipmap(false),
            AsyncTaskStartEvent::GenerateHeightmapNormals => TrackedProgress::GeneratedHeightmapNormals(0, 1),
            AsyncTaskStartEvent::GenerateTerrainTiles => TrackedProgress::GenerateTerrainTiles(false),
            AsyncTaskStartEvent::GenerateTerrainMeshErrorMaps => TrackedProgress::GeneratedTerrainErrorMaps(0, 1),
            AsyncTaskStartEvent::GenerateTerrainMeshes => TrackedProgress::GeneratedTerrainMeshes(0, 1),
            AsyncTaskStartEvent::LoadTerrainMaterialSet => TrackedProgress::LoadTerrainMaterialSet(0, 1),
            AsyncTaskStartEvent::WaitForTerrainLoaded => TrackedProgress::Ignored,
        }
    }
}

impl vstd::std_specs::convert::FromSpecImpl<AsyncTaskFinishedEvent> for TrackedProgress {
    open spec fn obeys_from_spec() -> bool {
        true
    }

    open spec fn from_spec(s: AsyncTaskFinishedEvent) -> TrackedProgress {
        TrackedProgress::spec_from_finished_event(s)
    }
}

impl From<AsyncTaskFinishedEvent> for TrackedProgress {
    fn from(s: AsyncTaskFinishedEvent) -> (res: TrackedProgress) {
        match s {
            AsyncTaskFinishedEvent::HeightmapLoaded => TrackedProgress::LoadHeightmap(true),
            AsyncTaskFinishedEvent::TextureMapLoaded => TrackedProgress::LoadTextureMap(true),
            AsyncTaskFinishedEvent::TintMapLoaded => TrackedProgress::LoadTintMap(true),
            AsyncTaskFinishedEvent::ClipmapGenerated => TrackedProgress::GenerateClipmap(true),
            AsyncTaskFinishedEvent::HeightmapNormalsGenerated => TrackedProgress::GeneratedHeightmapNormals(1, 1),
            AsyncTaskFinishedEvent::TerrainTilesGenerated => TrackedProgress::GenerateTerrainTiles(true),
            AsyncTaskFinishedEvent::TerrainMeshErrorMapsGenerated => TrackedProgress::GeneratedTerrainErrorMaps(1, 1),
            AsyncTaskFinishedEvent::TerrainMeshesGenerated => TrackedProgress::GeneratedTerrainMeshes(1, 1),
            AsyncTaskFinishedEvent::TerrainMaterialSetLoaded => TrackedProgress::LoadTerrainMaterialSet(1, 1),
            AsyncTaskFinishedEvent::TerrainLoaded => TrackedProgress::Ignored,
        }
    }
}

impl TrackedTaskname {
    /// The name, or `None` if it is empty.
    pub fn as_str(&self) -> (res: Option<&str>)
        ensures
            self.0@.len() == 0 ==> res is None,
            self.0@.len() != 0 ==> (res matches Some(s) && s@ == self.0@),
    {
        if self.0.as_str().is_empty() {
            None
        } else {
            Some(self.0.as_str())
        }
    }

    /// A name made of `s`.
    pub fn from_str(s: &str) -> (res: TrackedTaskname)
        ensures
            res.0@ == s@,
    {
        TrackedTaskname(String::from_str(s))
    }
}

impl<'s> From<&'s str> for TrackedTaskname {
    /// A name made of `s`.
    fn from(s: &'s str) -> (res: TrackedTaskname)
        ensures
            res.0@ == s@,
    {
        TrackedTaskname(String::from_str(s))
    }
}

/// A `String` cannot be built from its text in specifications, so `from` is
/// not given a spec function; its own `ensures` says what it returns.
impl<'s> vstd::std_specs::convert::FromSpecImpl<&'s str> for TrackedTaskname {
    open spec fn obeys_from_spec() -> bool {
        false
    }

    open spec fn from_spec(v: &'s str) -> TrackedTaskname {
        choose|t: TrackedTaskname| t.0@ == v@
    }
}

/// The progress reported by a task's finished event is of the same kind as
/// the one reported by its start event, so it replaces it; it is finished,
/// while the progress at the start is not, except for the task that only
/// waits for the others, whose progress is ignored.
pub proof fn law_progress_of_task_events(t: AsyncTask)
    ensures
        TrackedProgress::spec_from_start_event(t.spec_start_event()).kind()
            == TrackedProgress::spec_from_finished_event(t.spec_ready_event()).kind(),
        TrackedProgress::spec_from_finished_event(t.spec_ready_event()).spec_is_finished(),
        !(t is WaitForTerrainLoaded) ==> !TrackedProgress::spec_from_start_event(t.spec_start_event()).spec_is_finished(),
{
}


/// Progress of different tasks is never taken for the same: two progresses
/// are of the same kind exactly when they report on the same task (are the
/// same variant), whatever their payloads.
pub proof fn law_kind_tells_tasks_apart(a: TrackedProgress, b: TrackedProgress)
    ensures
        a.kind() == b.kind() <==> {
            &&& (a is Ignored) == (b is Ignored)
            &&& (a is LoadHeightmap) == (b is LoadHeightmap)
            &&& (a is LoadTextureMap) == (b is LoadTextureMap)
            &&& (a is LoadTintMap) == (b is LoadTintMap)
            &&& (a is GenerateClipmap) == (b is GenerateClipmap)
            &&& (a is GeneratedHeightmapNormals) == (b is GeneratedHeightmapNormals)
            &&& (a is GenerateTerrainTiles) == (b is GenerateTerrainTiles)
            &&& (a is GeneratedTerrainErrorMaps) == (b is GeneratedTerrainErrorMaps)
            &&& (a is MergedTerrainErrorMapSeams) == (b is MergedTerrainErrorMapSeams)
            &&& (a is GeneratedTerrainMeshes) == (b is GeneratedTerrainMeshes)
            &&& (a is LoadTerrainMaterialSet) == (b is LoadTerrainMaterialSet)
        },
{
}

} // verus!
