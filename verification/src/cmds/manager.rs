//! Manages dependent sub tasks of async commands: provides start events for
//! queued tasks once all their preconditions are met.
use vstd::prelude::*;

use super::task_sets::{
    pending_tasks_drain, pending_tasks_insert, pending_tasks_is_empty, pending_tasks_new,
    pending_tasks_view, ready_events_contains, ready_events_insert, ready_events_new,
    ready_events_remove, ready_events_view, PendingTasks, ReadyEvents,
};
use super::{
    law_subsequent_waits_for_predecessor, lemma_subsequent_tasks_shallower,
    lemma_subsequent_tasks_shallower_len, AsyncTask, AsyncTaskFinishedEvent, AsyncTaskStartEvent,
};

verus! {

/// The finished events of all tasks in `tasks`.
pub open spec fn ready_events_of(tasks: Set<AsyncTask>) -> Set<AsyncTaskFinishedEvent> {
    Set::new(|e: AsyncTaskFinishedEvent| exists|t: AsyncTask| tasks.contains(t) && t.spec_ready_event() == e)
}

/// All preconditions of `task` are among the `ready` events.
pub open spec fn preconditions_met(task: AsyncTask, ready: Set<AsyncTaskFinishedEvent>) -> bool {
    forall|i: int| 0 <= i < task.spec_preconditions().len() ==> ready.contains(#[trigger] task.spec_preconditions()[i])
}

/// The pending tasks that may start given the `ready` events.
pub open spec fn startable(pending: Set<AsyncTask>, ready: Set<AsyncTaskFinishedEvent>) -> Set<AsyncTask> {
    pending.filter(|t: AsyncTask| preconditions_met(t, ready))
}

/// Union of the closures of the first `n` tasks of `tasks`.
pub open spec fn closure_prefix(tasks: Seq<AsyncTask>, n: int) -> Set<AsyncTask>
    decreases n,
{
    if n <= 0 {
        Set::empty()
    } else {
        closure_prefix(tasks, n - 1) + tasks[n - 1].closure()
    }
}

/// Bookkeeping of queued tasks and of the finished events seen so far.
pub struct AsyncCommandManager {
    changed: bool,
    ready: ReadyEvents,
    pending: PendingTasks,
}

impl AsyncCommandManager {
    /// Something changed since the last check for startable tasks.
    pub closed spec fn spec_changed(self) -> bool {
        self.changed
    }

    /// The finished events seen so far.
    pub closed spec fn spec_ready(self) -> Set<AsyncTaskFinishedEvent> {
        ready_events_view(self.ready)
    }

    /// The queued tasks.
    pub closed spec fn spec_pending(self) -> Set<AsyncTask> {
        pending_tasks_view(self.pending)
    }

    /// A manager without queued tasks and without seen events.
    pub fn new() -> (res: AsyncCommandManager)
        ensures
            res.spec_ready() == Set::<AsyncTaskFinishedEvent>::empty(),
            res.spec_pending() == Set::<AsyncTask>::empty(),
            !res.spec_changed(),
    {
        AsyncCommandManager { changed: false, ready: ready_events_new(), pending: pending_tasks_new() }
    }

    /// Queues `task` and all tasks that (transitively) follow it; the finished
    /// events of all of them are forgotten, since they must be redone.
    pub fn add_new(&mut self, task: AsyncTask)
        ensures
            final(self).spec_pending() == old(self).spec_pending() + task.closure(),
            final(self).spec_ready() == old(self).spec_ready() - ready_events_of(task.closure()),
            final(self).spec_changed(),
        decreases task.depth(),
    {
        let ghost ready0 = self.spec_ready();
        let ghost pending0 = self.spec_pending();
        let ev = task.ready_event();
        ready_events_remove(&mut self.ready, &ev);
        let subs = task.subsequent_tasks();
        let mut i: usize = 0;
        while i < subs.len()
            invariant
                0 <= i <= subs.len(),
                subs@ == task.spec_subsequent_tasks(),
                self.spec_pending() == pending0 + closure_prefix(subs@, i as int),
                self.spec_ready() == ready0.remove(task.spec_ready_event())
                    - ready_events_of(closure_prefix(subs@, i as int)),
            decreases subs.len() - i,
        {
            proof {
                crate::cmds::lemma_subsequent_tasks_shallower(task, i as int);
            }
            let sub = subs[i];
            let ghost before_ready = self.spec_ready();
            self.add_new(sub);
            proof {
                let prev = closure_prefix(subs@, i as int);
                let next = closure_prefix(subs@, i + 1);
                assert(next == prev + sub.closure());
                assert(ready_events_of(next) =~= ready_events_of(prev) + ready_events_of(sub.closure()));
                assert(self.spec_ready() =~= ready0.remove(task.spec_ready_event()) - ready_events_of(next));
                assert(self.spec_pending() =~= pending0 + next);
            }
            i = i + 1;
        }
        pending_tasks_insert(&mut self.pending, task);
        self.changed = true;
        proof {
            let subs_s = task.spec_subsequent_tasks();
            crate::cmds::lemma_subsequent_tasks_shallower_len(task);
            reveal_with_fuel(closure_prefix, 4);
            assert(task.closure() =~= set![task] + closure_prefix(subs_s, subs_s.len() as int));
            assert(ready_events_of(task.closure()) =~= set![task.spec_ready_event()]
                + ready_events_of(closure_prefix(subs_s, subs_s.len() as int)));
            assert(self.spec_ready() =~= ready0 - ready_events_of(task.closure()));
            assert(self.spec_pending() =~= pending0 + task.closure());
        }
    }

    /// Records a finished event; marks a change if it was not seen before.
    pub fn update(&mut self, ready_event: AsyncTaskFinishedEvent)
        ensures
            final(self).spec_ready() == old(self).spec_ready().insert(ready_event),
            final(self).spec_pending() == old(self).spec_pending(),
            final(self).spec_changed() == (old(self).spec_changed()
                || !old(self).spec_ready().contains(ready_event)),
    {
        let newly = ready_events_insert(&mut self.ready, ready_event);
        self.changed = newly || self.changed;
    }

    fn preconditions_ready(&self, task: &AsyncTask) -> (res: bool)
        ensures
            res == preconditions_met(*task, self.spec_ready()),
    {
        let conditions = task.preconditions();
        let mut i: usize = 0;
        while i < conditions.len()
            invariant
                0 <= i <= conditions.len(),
                conditions@ == task.spec_preconditions(),
                forall|j: int| 0 <= j < i ==> self.spec_ready().contains(#[trigger] conditions@[j]),
            decreases conditions.len() - i,
        {
            if !ready_events_contains(&self.ready, &conditions[i]) {
                return false;
            }
            i = i + 1;
        }
        true
    }

    /// If anything changed since the last call and tasks are queued: starts
    /// every queued task whose preconditions are all among the finished
    /// events, removes it from the queue and returns the start events (in no
    /// particular order), or `None` if no task could start. Otherwise nothing
    /// happens and `None` is returned.
    pub fn get_start_events(&mut self) -> (res: Option<Vec<AsyncTaskStartEvent>>)
        ensures
            final(self).spec_ready() == old(self).spec_ready(),
            old(self).spec_changed() && old(self).spec_pending() != Set::<AsyncTask>::empty() ==> {
                let started = startable(old(self).spec_pending(), old(self).spec_ready());
                &&& !final(self).spec_changed()
                &&& final(self).spec_pending() == old(self).spec_pending() - started
                &&& (res is Some <==> started != Set::<AsyncTask>::empty())
                &&& res matches Some(events) ==> {
                    &&& events@.no_duplicates()
                    &&& forall|e: AsyncTaskStartEvent| events@.contains(e) <==>
                        exists|t: AsyncTask| started.contains(t) && t.spec_start_event() == e
                }
            },
            !(old(self).spec_changed() && old(self).spec_pending() != Set::<AsyncTask>::empty()) ==> {
                &&& res is None
                &&& final(self).spec_pending() == old(self).spec_pending()
                &&& final(self).spec_changed() == old(self).spec_changed()
            },
    {
        let ghost ready = self.spec_ready();
        let ghost pending0 = self.spec_pending();
        if self.changed && !pending_tasks_is_empty(&self.pending) {
            self.changed = false;
            let mut still_pending = pending_tasks_new();
            let mut start_events: Vec<AsyncTaskStartEvent> = Vec::new();
            let drained = pending_tasks_drain(&mut self.pending);
            let mut i: usize = 0;
            while i < drained.len()
                invariant
                    0 <= i <= drained.len(),
                    drained@.to_set() == pending0,
                    drained@.no_duplicates(),
                    self.spec_ready() == ready,
                    pending_tasks_view(still_pending) == Set::new(|t: AsyncTask|
                        exists|j: int| 0 <= j < i && drained@[j] == t && !preconditions_met(t, ready)),
                    start_events@.no_duplicates(),
                    forall|e: AsyncTaskStartEvent| start_events@.contains(e) <==>
                        exists|j: int| 0 <= j < i && preconditions_met(drained@[j], ready)
                            && (#[trigger] drained@[j]).spec_start_event() == e,
                decreases drained.len() - i,
            {
                let task = drained[i];
                let ghost before = pending_tasks_view(still_pending);
                let ghost starts_before = start_events@;
                if !self.preconditions_ready(&task) {
                    pending_tasks_insert(&mut still_pending, task);
                    assert(pending_tasks_view(still_pending) =~= Set::new(|t: AsyncTask|
                        exists|j: int| 0 <= j < i + 1 && drained@[j] == t && !preconditions_met(t, ready)));
                    assert forall|e: AsyncTaskStartEvent| start_events@.contains(e) <==>
                        exists|j: int| 0 <= j < i + 1 && preconditions_met(drained@[j], ready)
                            && (#[trigger] drained@[j]).spec_start_event() == e by {
                        if exists|j: int| 0 <= j < i + 1 && preconditions_met(drained@[j], ready)
                            && (#[trigger] drained@[j]).spec_start_event() == e {
                            let j = choose|j: int| 0 <= j < i + 1 && preconditions_met(drained@[j], ready)
                                && (#[trigger] drained@[j]).spec_start_event() == e;
                            assert(j != i);
                        }
                    }
                } else {
                    let ev = task.start_event();
                    start_events.push(ev);
                    assert(pending_tasks_view(still_pending) =~= Set::new(|t: AsyncTask|
                        exists|j: int| 0 <= j < i + 1 && drained@[j] == t && !preconditions_met(t, ready)));
                    assert forall|e: AsyncTaskStartEvent| start_events@.contains(e) <==>
                        exists|j: int| 0 <= j < i + 1 && preconditions_met(drained@[j], ready)
                            && (#[trigger] drained@[j]).spec_start_event() == e by {
                        assert(start_events@ == starts_before.push(ev));
                        if start_events@.contains(e) {
                            let k = choose|k: int| 0 <= k < start_events@.len() && start_events@[k] == e;
                            if k < starts_before.len() {
                                assert(starts_before[k] == e);
                                assert(starts_before.contains(e));
                            } else {
                                assert(drained@[i as int].spec_start_event() == e);
                            }
                        }
                        if exists|j: int| 0 <= j < i + 1 && preconditions_met(drained@[j], ready)
                            && (#[trigger] drained@[j]).spec_start_event() == e {
                            let j = choose|j: int| 0 <= j < i + 1 && preconditions_met(drained@[j], ready)
                                && (#[trigger] drained@[j]).spec_start_event() == e;
                            if j < i {
                                assert(starts_before.contains(e));
                                let k = choose|k: int| 0 <= k < starts_before.len() && starts_before[k] == e;
                                assert(start_events@[k] == e);
                            } else {
                                assert(start_events@[starts_before.len() as int] == e);
                            }
                        }
                    }
                    assert(!starts_before.contains(ev)) by {
                        if starts_before.contains(ev) {
                            let j = choose|j: int| 0 <= j < i && preconditions_met(drained@[j], ready)
                                && (#[trigger] drained@[j]).spec_start_event() == ev;
                            crate::cmds::lemma_start_event_injective(drained@[j], task);
                        }
                    }
                    assert(start_events@.no_duplicates()) by {
                        assert(start_events@ == starts_before.push(ev));
                    }
                }
                i = i + 1;
            }
            self.pending = still_pending;
            proof {
                let started = startable(pending0, ready);
                assert(self.spec_pending() =~= pending0 - started) by {
                    assert forall|t: AsyncTask| pending0.contains(t) implies exists|j: int|
                        0 <= j < drained@.len() && drained@[j] == t by {
                        assert(drained@.to_set().contains(t));
                    }
                }
                assert forall|e: AsyncTaskStartEvent| start_events@.contains(e) <==>
                    exists|t: AsyncTask| started.contains(t) && t.spec_start_event() == e by {
                    if start_events@.contains(e) {
                        let j = choose|j: int| 0 <= j < drained@.len() && preconditions_met(drained@[j], ready)
                            && (#[trigger] drained@[j]).spec_start_event() == e;
                        assert(drained@.to_set().contains(drained@[j]));
                        assert(started.contains(drained@[j]));
                    }
                    if exists|t: AsyncTask| started.contains(t) && t.spec_start_event() == e {
                        let t = choose|t: AsyncTask| started.contains(t) && t.spec_start_event() == e;
                        assert(drained@.to_set().contains(t));
                        let j = choose|j: int| 0 <= j < drained@.len() && drained@[j] == t;
                        assert(preconditions_met(drained@[j], ready) && drained@[j].spec_start_event() == e);
                    }
                }
                if started != Set::<AsyncTask>::empty() {
                    if !(exists|t: AsyncTask| started.contains(t)) {
                        assert(started =~= Set::<AsyncTask>::empty());
                    }
                    let t = choose|t: AsyncTask| started.contains(t);
                    assert(start_events@.contains(t.spec_start_event()));
                }
                if start_events.len() > 0 {
                    assert(start_events@.contains(start_events@[0]));
                    assert(started != Set::<AsyncTask>::empty());
                }
            }
            if start_events.len() > 0 {
                return Some(start_events);
            }
        }
        None
    }
}

/// Every task that (transitively) follows `t` waits for the finished event of
/// some task of the closure of `t`.
proof fn lemma_follower_waits(t: AsyncTask, s: AsyncTask) -> (p: AsyncTask)
    requires
        t.closure().contains(s),
        s != t,
    ensures
        t.closure().contains(p),
        s.spec_preconditions().contains(p.spec_ready_event()),
    decreases t.depth(),
{
    let subs = t.spec_subsequent_tasks();
    lemma_subsequent_tasks_shallower_len(t);
    let k: int = if subs.len() > 0 && subs[0].closure().contains(s) {
        0
    } else if subs.len() > 1 && subs[1].closure().contains(s) {
        1
    } else {
        2
    };
    assert(subs[k].closure().contains(s));
    assert(subs[k].closure().subset_of(t.closure()));
    if s == subs[k] {
        law_subsequent_waits_for_predecessor(t, k);
        assert(t.closure().contains(t));
        t
    } else {
        lemma_subsequent_tasks_shallower(t, k);
        lemma_follower_waits(subs[k], s)
    }
}

/// Queuing a task again holds back every task that follows it: after
/// `add_new(task)` none of them can start before finished events of their
/// predecessors come in anew, whatever had finished before.
pub proof fn law_requeue_holds_back_followers(task: AsyncTask, ready: Set<AsyncTaskFinishedEvent>, s: AsyncTask)
    requires
        task.closure().contains(s),
        s != task,
    ensures
        !preconditions_met(s, ready - ready_events_of(task.closure())),
{
    let p = lemma_follower_waits(task, s);
    let e = p.spec_ready_event();
    assert(ready_events_of(task.closure()).contains(e));
    let pre = s.spec_preconditions();
    let i = choose|i: int| 0 <= i < pre.len() && pre[i] == e;
    assert(!(ready - ready_events_of(task.closure())).contains(pre[i]));
}

impl Default for AsyncCommandManager {
    /// No queued tasks and no finished events.
    fn default() -> (res: AsyncCommandManager)
        ensures
            res.spec_ready() == Set::<AsyncTaskFinishedEvent>::empty(),
            res.spec_pending() == Set::<AsyncTask>::empty(),
            !res.spec_changed(),
    {
        AsyncCommandManager::new()
    }
}

} // verus!
