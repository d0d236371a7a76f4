//! Progress of a group of tracked tasks, as shown while the terrain loads.
use vstd::prelude::*;

use crate::cmds::{TrackedProgress, TrackedTaskname};

verus! {

/// `s` holds at most one progress of each kind.
pub open spec fn distinct_kinds(s: Seq<TrackedProgress>) -> bool {
    forall|i: int, j: int| 0 <= i < j < s.len() ==> (#[trigger] s[i]).kind() != (#[trigger] s[j]).kind()
}

/// `s` holds a progress of kind `k`.
pub open spec fn has_kind(s: Seq<TrackedProgress>, k: int) -> bool {
    exists|i: int| 0 <= i < s.len() && (#[trigger] s[i]).kind() == k
}

/// The first progress of every kind in `s`, in their order.
pub open spec fn first_of_each_kind(s: Seq<TrackedProgress>) -> Seq<TrackedProgress>
    decreases s.len(),
{
    if s.len() == 0 {
        Seq::empty()
    } else {
        let d = first_of_each_kind(s.drop_last());
        if has_kind(d, s.last().kind()) { d } else { d.push(s.last()) }
    }
}

/// Message for an update: the finished message once the task is done,
/// the progress message before.
pub open spec fn update_msg(update: TrackedProgress) -> Seq<char> {
    if update.spec_is_finished() { update.spec_finished_msg() } else { update.spec_progress_msg() }
}

/// Position of the progress of kind `k` in `s` (meaningful where `has_kind(s, k)`).
pub open spec fn kind_index(s: Seq<TrackedProgress>, k: int) -> int {
    choose|i: int| 0 <= i < s.len() && (#[trigger] s[i]).kind() == k
}

/// `tasks` with the progress of the kind of `update` replaced by `update`;
/// unchanged where no progress of that kind is tracked.
pub open spec fn updated_tasks(tasks: Seq<TrackedProgress>, update: TrackedProgress) -> Seq<TrackedProgress> {
    if has_kind(tasks, update.kind()) {
        tasks.update(kind_index(tasks, update.kind()), update)
    } else {
        tasks
    }
}

/// Every progress in `s` is finished.
pub open spec fn all_finished(s: Seq<TrackedProgress>) -> bool {
    forall|i: int| 0 <= i < s.len() ==> (#[trigger] s[i]).spec_is_finished()
}

/// Progress of a group of tasks with the message of the last update.
///
/// A progress is one entry per kind: an update of a kind replaces the entry
/// of that kind, whatever its counts. The entries are kept in a `Vec` whose
/// kinds are distinct (see `distinct_kinds`), so that this identity by kind
/// is stated over the entries themselves.
pub struct MultiTaskProgress {
    last_msg: String,
    tasks: Vec<TrackedProgress>,
}

/// The group of tasks currently tracked, if any.
pub struct ProgressTracking {
    task: Option<MultiTaskProgress>,
}

impl MultiTaskProgress {
    pub closed spec fn spec_last_msg(self) -> Seq<char> {
        self.last_msg@
    }

    pub closed spec fn spec_tasks(self) -> Seq<TrackedProgress> {
        self.tasks@
    }

    /// No kind of task is tracked twice.
    pub open spec fn wf(self) -> bool {
        distinct_kinds(self.spec_tasks())
    }

    /// All tracked tasks are finished.
    pub open spec fn spec_is_finished(self) -> bool {
        all_finished(self.spec_tasks())
    }

    /// Records the new state of a tracked task (found by its kind) and takes
    /// its message; updates of untracked kinds are ignored.
    pub fn update(&mut self, update: &TrackedProgress)
        requires
            old(self).wf(),
        ensures
            final(self).wf(),
            final(self).spec_tasks() == updated_tasks(old(self).spec_tasks(), *update),
            final(self).spec_last_msg() == if has_kind(old(self).spec_tasks(), update.kind()) {
                update_msg(*update)
            } else {
                old(self).spec_last_msg()
            },
    {
        let kind = update.kind_of();
        let mut i: usize = 0;
        while i < self.tasks.len()
            invariant
                0 <= i <= self.tasks@.len(),
                self.tasks@ == old(self).tasks@,
                self.last_msg@ == old(self).last_msg@,
                distinct_kinds(old(self).tasks@),
                kind == update.kind(),
                forall|j: int| 0 <= j < i ==> (#[trigger] self.tasks@[j]).kind() != kind,
            decreases self.tasks@.len() - i,
        {
            if self.tasks[i].kind_of() == kind {
                let ghost chosen = kind_index(old(self).tasks@, update.kind());
                proof {
                    assert(old(self).tasks@[i as int].kind() == update.kind());
                    assert(has_kind(old(self).tasks@, update.kind()));
                    if chosen != i {
                        if chosen < i {
                            assert(self.tasks@[chosen].kind() != kind);
                        } else {
                            assert(old(self).tasks@[i as int].kind() != old(self).tasks@[chosen].kind());
                        }
                    }
                }
                self.tasks.set(i, *update);
                self.last_msg = if update.is_finished() {
                    String::from_str(update.finished_msg())
                } else {
                    update.progress_msg()
                };
                proof {
                    assert forall|a: int, b: int| 0 <= a < b < self.tasks@.len() implies
                        (#[trigger] self.tasks@[a]).kind() != (#[trigger] self.tasks@[b]).kind() by {
                        assert(old(self).tasks@[a].kind() != old(self).tasks@[b].kind());
                    }
                }
                return;
            }
            i = i + 1;
        }
        proof {
            assert(!has_kind(old(self).tasks@, update.kind()));
        }
    }

    /// True if all tracked tasks are finished.
    pub fn is_finished(&self) -> (res: bool)
        ensures
            res == self.spec_is_finished(),
    {
        let mut i: usize = 0;
        while i < self.tasks.len()
            invariant
                0 <= i <= self.tasks@.len(),
                forall|j: int| 0 <= j < i ==> (#[trigger] self.tasks@[j]).spec_is_finished(),
            decreases self.tasks@.len() - i,
        {
            if !self.tasks[i].is_finished() {
                assert(!self.tasks@[i as int].spec_is_finished());
                return false;
            }
            i = i + 1;
        }
        true
    }

    pub fn last_msg(&self) -> (res: &str)
        ensures
            res@ == self.spec_last_msg(),
    {
        self.last_msg.as_str()
    }

    /// The tracked tasks.
    pub fn tasks(&self) -> (res: &Vec<TrackedProgress>)
        ensures
            res@ == self.spec_tasks(),
    {
        &self.tasks
    }
}

impl ProgressTracking {
    pub closed spec fn spec_task(self) -> Option<MultiTaskProgress> {
        self.task
    }

    pub open spec fn wf(self) -> bool {
        self.spec_task() matches Some(t) ==> t.wf()
    }

    /// Nothing is tracked.
    pub fn new() -> (res: ProgressTracking)
        ensures
            res.spec_task() is None,
    {
        ProgressTracking { task: None }
    }

    pub fn task(&self) -> (res: Option<&MultiTaskProgress>)
        ensures
            res matches Some(t) ==> self.spec_task() == Some(*t),
            res is None ==> self.spec_task() is None,
    {
        match &self.task {
            Some(t) => Some(t),
            None => None,
        }
    }

    /// Starts tracking `sub_tasks` (one per kind, the first of each kind
    /// counts); the message starts as the name of the group.
    pub fn start_task_tracking(&mut self, name: &TrackedTaskname, sub_tasks: &[TrackedProgress])
        ensures
            final(self).wf(),
            final(self).spec_task() matches Some(t) && t.spec_tasks() == first_of_each_kind(sub_tasks@)
                && t.spec_last_msg() == name.0@,
    {
        let mut tasks: Vec<TrackedProgress> = Vec::new();
        let mut i: usize = 0;
        proof {
            assert(sub_tasks@.take(0) =~= Seq::<TrackedProgress>::empty());
        }
        while i < sub_tasks.len()
            invariant
                0 <= i <= sub_tasks@.len(),
                tasks@ == first_of_each_kind(sub_tasks@.take(i as int)),
                distinct_kinds(tasks@),
            decreases sub_tasks@.len() - i,
        {
            let candidate = sub_tasks[i];
            let kind = candidate.kind_of();
            let mut found = false;
            let mut j: usize = 0;
            while j < tasks.len()
                invariant
                    0 <= j <= tasks@.len(),
                    kind == candidate.kind(),
                    found == exists|k: int| 0 <= k < j && (#[trigger] tasks@[k]).kind() == kind,
                decreases tasks@.len() - j,
            {
                if tasks[j].kind_of() == kind {
                    found = true;
                }
                j = j + 1;
            }
            proof {
                assert(sub_tasks@.take(i + 1).drop_last() =~= sub_tasks@.take(i as int));
                assert(sub_tasks@.take(i + 1).last() == candidate);
            }
            if !found {
                tasks.push(candidate);
                proof {
                    assert forall|a: int, b: int| 0 <= a < b < tasks@.len() implies
                        (#[trigger] tasks@[a]).kind() != (#[trigger] tasks@[b]).kind() by {
                        if b == tasks@.len() - 1 {
                            assert(tasks@[a] == first_of_each_kind(sub_tasks@.take(i as int))[a]);
                        }
                    }
                }
            }
            i = i + 1;
        }
        proof {
            assert(sub_tasks@.take(sub_tasks@.len() as int) =~= sub_tasks@);
        }
        let last_msg = match name.as_str() {
            Some(s) => String::from_str(s),
            None => String::new(),
        };
        self.task = Some(MultiTaskProgress { last_msg, tasks });
    }

    /// Applies an update to the tracked group; tracking ends once all tasks
    /// of the group are finished.
    pub fn update(&mut self, update: &TrackedProgress)
        requires
            old(self).wf(),
        ensures
            final(self).wf(),
            old(self).spec_task() is None ==> final(self).spec_task() is None,
            old(self).spec_task() matches Some(t) ==> {
                &&& (final(self).spec_task() is None <==> all_finished(updated_tasks(t.spec_tasks(), *update)))
                &&& final(self).spec_task() matches Some(after) ==> {
                    &&& after.spec_tasks() == updated_tasks(t.spec_tasks(), *update)
                    &&& after.spec_last_msg() == if has_kind(t.spec_tasks(), update.kind()) {
                        update_msg(*update)
                    } else {
                        t.spec_last_msg()
                    }
                }
            },
    {
        if self.task.is_some() {
            let mut multi_task = self.task.take().unwrap();
            multi_task.update(update);
            if multi_task.is_finished() {
                self.task = None;
            } else {
                self.task = Some(multi_task);
            }
        }
    }

    /// Stops tracking.
    pub fn cancel_tracking(&mut self)
        ensures
            final(self).spec_task() is None,
    {
        self.task = None;
    }
}

/// `tasks` after applying the updates `us` one after the other.
pub open spec fn apply_updates(tasks: Seq<TrackedProgress>, us: Seq<TrackedProgress>) -> Seq<TrackedProgress>
    decreases us.len(),
{
    if us.len() == 0 {
        tasks
    } else {
        updated_tasks(apply_updates(tasks, us.drop_last()), us.last())
    }
}

/// Applying updates keeps the length and the kind at every position, and
/// every position whose kind some update reported as finished is finished.
proof fn lemma_apply_updates(tasks: Seq<TrackedProgress>, us: Seq<TrackedProgress>)
    requires
        distinct_kinds(tasks),
        forall|j: int| 0 <= j < us.len() ==> (#[trigger] us[j]).spec_is_finished(),
    ensures
        apply_updates(tasks, us).len() == tasks.len(),
        forall|i: int| 0 <= i < tasks.len() ==> (#[trigger] apply_updates(tasks, us)[i]).kind() == tasks[i].kind(),
        forall|i: int, j: int| #![trigger apply_updates(tasks, us)[i], us[j]]
            0 <= i < tasks.len() && 0 <= j < us.len() && us[j].kind() == tasks[i].kind()
            ==> apply_updates(tasks, us)[i].spec_is_finished(),
    decreases us.len(),
{
    if us.len() > 0 {
        let prev_us = us.drop_last();
        lemma_apply_updates(tasks, prev_us);
        let t = apply_updates(tasks, prev_us);
        let u = us.last();
        if has_kind(t, u.kind()) {
            let idx = kind_index(t, u.kind());
            assert forall|i: int, j: int| #![trigger apply_updates(tasks, us)[i], us[j]]
                0 <= i < tasks.len() && 0 <= j < us.len() && us[j].kind() == tasks[i].kind()
                implies apply_updates(tasks, us)[i].spec_is_finished() by {
                if j < us.len() - 1 {
                    assert(prev_us[j] == us[j]);
                    assert(t[i].spec_is_finished());
                } else if i != idx {
                    assert(t[i].kind() == u.kind());
                    assert(tasks[i].kind() == tasks[idx].kind());
                }
            }
        } else {
            assert forall|i: int, j: int| #![trigger apply_updates(tasks, us)[i], us[j]]
                0 <= i < tasks.len() && 0 <= j < us.len() && us[j].kind() == tasks[i].kind()
                implies apply_updates(tasks, us)[i].spec_is_finished() by {
                if j < us.len() - 1 {
                    assert(prev_us[j] == us[j]);
                } else {
                    assert(t[i].kind() == u.kind());
                }
            }
        }
    }
}

/// Tracking ends once every tracked task has reported that it finished:
/// after finished updates that cover the kind of every tracked task, all
/// tracked tasks are finished, in whatever order the updates came.
pub proof fn law_finished_updates_finish_all(tasks: Seq<TrackedProgress>, us: Seq<TrackedProgress>)
    requires
        distinct_kinds(tasks),
        forall|j: int| 0 <= j < us.len() ==> (#[trigger] us[j]).spec_is_finished(),
        forall|i: int| 0 <= i < tasks.len() ==> has_kind(us, (#[trigger] tasks[i]).kind()),
    ensures
        all_finished(apply_updates(tasks, us)),
{
    lemma_apply_updates(tasks, us);
    assert forall|i: int| 0 <= i < apply_updates(tasks, us).len() implies
        (#[trigger] apply_updates(tasks, us)[i]).spec_is_finished() by {
        assert(has_kind(us, tasks[i].kind()));
        let j = choose|j: int| 0 <= j < us.len() && (#[trigger] us[j]).kind() == tasks[i].kind();
        assert(us[j].kind() == tasks[i].kind());
    }
}

impl Default for ProgressTracking {
    /// Nothing is tracked.
    fn default() -> (res: ProgressTracking)
        ensures
            res.spec_task() is None,
    {
        ProgressTracking::new()
    }
}

} // verus!
