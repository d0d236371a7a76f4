use terrain_editor::cmds::{TrackedProgress, TrackedTaskname};
use terrain_editor::progresstracking::ProgressTracking;

fn tasks() -> Vec<TrackedProgress> {
    vec![
        TrackedProgress::LoadHeightmap(false),
        TrackedProgress::GeneratedHeightmapNormals(0, 1),
        // a second progress of a tracked kind is dropped
        TrackedProgress::LoadHeightmap(false),
        TrackedProgress::Ignored,
    ]
}

#[test]
fn start_tracking_keeps_one_progress_per_kind() {
    let mut p = ProgressTracking::new();
    assert!(p.task().is_none());
    p.start_task_tracking(&TrackedTaskname(String::from("loading terrain")), &tasks());
    let t = p.task().expect("tracking");
    assert_eq!(t.tasks().len(), 3);
    assert_eq!(t.last_msg(), "loading terrain");
    assert!(!t.is_finished());
}

#[test]
fn updates_replace_progress_and_message() {
    let mut p = ProgressTracking::default();
    p.start_task_tracking(&TrackedTaskname(String::from("x")), &tasks());
    p.update(&TrackedProgress::GeneratedHeightmapNormals(1, 4));
    let t = p.task().expect("tracking");
    assert_eq!(t.last_msg(), "generating normals...25%");
    assert!(matches!(t.tasks()[1], TrackedProgress::GeneratedHeightmapNormals(1, 4)));

    p.update(&TrackedProgress::LoadHeightmap(true));
    assert_eq!(p.task().expect("tracking").last_msg(), "heightmap loaded.");

    // untracked kinds are ignored
    p.update(&TrackedProgress::LoadTintMap(true));
    assert_eq!(p.task().expect("tracking").last_msg(), "heightmap loaded.");
}

#[test]
fn tracking_ends_when_all_tasks_finished() {
    let mut p = ProgressTracking::new();
    p.start_task_tracking(&TrackedTaskname(String::new()), &tasks());
    assert_eq!(p.task().expect("tracking").last_msg(), "");
    p.update(&TrackedProgress::GeneratedHeightmapNormals(1, 1));
    assert!(p.task().is_some());
    p.update(&TrackedProgress::LoadHeightmap(true));
    assert!(p.task().is_none());
    // updates without tracking do nothing
    p.update(&TrackedProgress::LoadHeightmap(false));
    assert!(p.task().is_none());
}

#[test]
fn cancel_tracking() {
    let mut p = ProgressTracking::new();
    p.start_task_tracking(&TrackedTaskname(String::from("x")), &tasks());
    p.cancel_tracking();
    assert!(p.task().is_none());
}

#[test]
fn tracking_nothing_is_finished() {
    let mut p = ProgressTracking::new();
    p.start_task_tracking(&TrackedTaskname(String::from("x")), &[]);
    assert!(p.task().expect("tracking").is_finished());
}
