//! The two hash sets of the command manager. They are held in hashbrown's
//! `HashSet` with its default aHash hasher, the set type that bevy's
//! `utils::HashSet` names.
use vstd::prelude::*;

use super::{AsyncTask, AsyncTaskFinishedEvent};

verus! {

/// Set of finished events (hashbrown `HashSet`).
#[verifier::external_body]
pub struct ReadyEvents {
    set: hashbrown::HashSet<AsyncTaskFinishedEvent>,
}

/// Set of queued tasks (hashbrown `HashSet`).
#[verifier::external_body]
pub struct PendingTasks {
    set: hashbrown::HashSet<AsyncTask>,
}

/// The events held by a `ReadyEvents` set.
pub uninterp spec fn ready_events_view(s: ReadyEvents) -> Set<AsyncTaskFinishedEvent>;

/// The tasks held by a `PendingTasks` set.
pub uninterp spec fn pending_tasks_view(s: PendingTasks) -> Set<AsyncTask>;

/// `HashSet::default`: a set that holds nothing.
#[verifier::external_body]
pub(crate) fn ready_events_new() -> (s: ReadyEvents)
    ensures
        ready_events_view(s) == Set::<AsyncTaskFinishedEvent>::empty(),
{
    ReadyEvents { set: hashbrown::HashSet::default() }
}

/// `HashSet::insert`: adds the event; returns whether it was not held before.
/// Two events are equal exactly if they are the same variant (derived
/// `PartialEq`/`Hash` of a field-less enum).
#[verifier::external_body]
pub(crate) fn ready_events_insert(s: &mut ReadyEvents, e: AsyncTaskFinishedEvent) -> (newly: bool)
    ensures
        ready_events_view(*final(s)) == ready_events_view(*old(s)).insert(e),
        newly == !ready_events_view(*old(s)).contains(e),
{
    s.set.insert(e)
}

/// `HashSet::remove`: removes the event; returns whether it was held.
#[verifier::external_body]
pub(crate) fn ready_events_remove(s: &mut ReadyEvents, e: &AsyncTaskFinishedEvent) -> (removed: bool)
    ensures
        ready_events_view(*final(s)) == ready_events_view(*old(s)).remove(*e),
        removed == ready_events_view(*old(s)).contains(*e),
{
    s.set.remove(e)
}

/// `HashSet::contains`.
#[verifier::external_body]
pub(crate) fn ready_events_contains(s: &ReadyEvents, e: &AsyncTaskFinishedEvent) -> (res: bool)
    ensures
        res == ready_events_view(*s).contains(*e),
{
    s.set.contains(e)
}

/// `HashSet::default`: a set that holds nothing.
#[verifier::external_body]
pub(crate) fn pending_tasks_new() -> (s: PendingTasks)
    ensures
        pending_tasks_view(s) == Set::<AsyncTask>::empty(),
{
    PendingTasks { set: hashbrown::HashSet::default() }
}

/// `HashSet::insert`: adds the task. Tasks are equal exactly if they are the
/// same variant (their payloads are unit structs).
#[verifier::external_body]
pub(crate) fn pending_tasks_insert(s: &mut PendingTasks, t: AsyncTask) -> (newly: bool)
    ensures
        pending_tasks_view(*final(s)) == pending_tasks_view(*old(s)).insert(t),
        newly == !pending_tasks_view(*old(s)).contains(t),
{
    s.set.insert(t)
}

/// `HashSet::is_empty`.
#[verifier::external_body]
pub(crate) fn pending_tasks_is_empty(s: &PendingTasks) -> (res: bool)
    ensures
        res == (pending_tasks_view(*s) == Set::<AsyncTask>::empty()),
{
    s.set.is_empty()
}

/// `HashSet::drain`: hands out every held task once, in an order that
/// depends on the hasher's per-process seed, and leaves the set empty.
#[verifier::external_body]
pub(crate) fn pending_tasks_drain(s: &mut PendingTasks) -> (tasks: Vec<AsyncTask>)
    ensures
        pending_tasks_view(*final(s)) == Set::<AsyncTask>::empty(),
        tasks@.to_set() == pending_tasks_view(*old(s)),
        tasks@.no_duplicates(),
{
    s.set.drain().collect()
}

} // verus!
