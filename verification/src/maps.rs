//! The two concurrent maps of the task manager, and what is trusted of the
//! `dashmap` crate about them.
//!
//! A map is only changed here through an exclusive reference, so a call never
//! waits for a lock that its own caller holds.
use dashmap::DashMap;
use vstd::prelude::*;

use crate::cache::{JobInfo, JobInfoCache};
use crate::graph::GraphId;
use crate::lifecycle::LifecycleId;

verus! {

/// The concurrent map of the `dashmap` crate.
#[verifier::external_type_specification]
#[verifier::external_body]
#[verifier::reject_recursive_types(K)]
#[verifier::reject_recursive_types(V)]
#[verifier::reject_recursive_types(S)]
pub struct ExDashMap<K, V, S>(dashmap::DashMap<K, V, S>);

/// What the active cache holds: the cached facts of each job, by job.
pub uninterp spec fn active_jobs(map: DashMap<String, JobInfoCache>) -> Map<Seq<char>, JobInfo>;

/// What the lifecycle map holds: the control of each job, by job.
pub uninterp spec fn job_controls(map: DashMap<String, LifecycleId>) -> Map<Seq<char>, LifecycleId>;

/// Whether `entries` lists every active job once, each with a scheduling
/// snapshot of what is cached for it. Nothing is said of the order.
pub open spec fn lists_active(
    active: Map<Seq<char>, JobInfo>,
    entries: Seq<(String, JobInfoCache)>,
) -> bool {
    &&& forall|i: int|
        0 <= i < entries.len() ==> {
            &&& active.contains_key(#[trigger] entries[i].0@)
            &&& entries[i].1@ == active[entries[i].0@].snapshot()
        }
    &&& forall|i: int, j: int|
        0 <= i < j < entries.len() ==> #[trigger] entries[i].0@ != #[trigger] entries[j].0@
    &&& forall|job_id: Seq<char>| #[trigger]
        active.contains_key(job_id) ==> exists|i: int|
            0 <= i < entries.len() && #[trigger] entries[i].0@ == job_id
}

/// `DashMap::new`: an empty map.
#[verifier::external_body]
pub(crate) fn new_active_cache() -> (map: DashMap<String, JobInfoCache>)
    ensures
        (active_jobs(map) == Map::<Seq<char>, JobInfo>::empty()),
{
    DashMap::new()
}

/// `DashMap::insert`: puts a value under a key, in place of the one that was
/// there, which it returns.
#[verifier::external_body]
pub(crate) fn active_insert(
    map: &mut DashMap<String, JobInfoCache>,
    job_id: String,
    info: JobInfoCache,
) -> (replaced: Option<JobInfoCache>)
    ensures
        active_jobs(*final(map)) == active_jobs(*old(map)).insert(job_id@, info@),
        match replaced {
            Some(earlier) => {
                &&& active_jobs(*old(map)).contains_key(job_id@)
                &&& earlier@ == active_jobs(*old(map))[job_id@]
            },
            None => !active_jobs(*old(map)).contains_key(job_id@),
        },
{
    map.insert(job_id, info)
}

/// `DashMap::remove`: takes a key and its value out of the map and returns
/// them, or changes nothing where the key is absent.
#[verifier::external_body]
pub(crate) fn active_remove(
    map: &mut DashMap<String, JobInfoCache>,
    job_id: &str,
) -> (removed: Option<(String, JobInfoCache)>)
    ensures
        active_jobs(*final(map)) == active_jobs(*old(map)).remove(job_id@),
        match removed {
            Some(entry) => {
                &&& active_jobs(*old(map)).contains_key(job_id@)
                &&& entry.0@ == job_id@
                &&& entry.1@ == active_jobs(*old(map))[job_id@]
            },
            None => !active_jobs(*old(map)).contains_key(job_id@),
        },
{
    map.remove(job_id)
}

/// `DashMap::get`: looks a key up. Of the value, the execution graph is
/// returned.
#[verifier::external_body]
pub(crate) fn active_graph(map: &DashMap<String, JobInfoCache>, job_id: &str) -> (graph: Option<
    GraphId,
>)
    ensures
        match graph {
            Some(id) => {
                &&& active_jobs(*map).contains_key(job_id@)
                &&& id == active_jobs(*map)[job_id@].execution_graph
            },
            None => !active_jobs(*map).contains_key(job_id@),
        },
{
    map.get(job_id).map(|entry| entry.execution_graph)
}

/// `DashMap::len`: the number of keys in the map.
#[verifier::external_body]
pub(crate) fn active_len(map: &DashMap<String, JobInfoCache>) -> (count: usize)
    ensures
        count == active_jobs(*map).len(),
{
    map.len()
}

/// `DashMap::iter`: hands every entry out once, in no particular order. A
/// value is handed out as its scheduling snapshot.
#[verifier::external_body]
pub(crate) fn active_entries(map: &DashMap<String, JobInfoCache>) -> (entries: Vec<
    (String, JobInfoCache),
>)
    ensures
        lists_active(active_jobs(*map), entries@),
{
    map.iter().map(|entry| (entry.key().clone(), entry.value().clone())).collect()
}

/// `DashMap::new`: an empty map.
#[verifier::external_body]
pub(crate) fn new_lifecycle_map() -> (map: DashMap<String, LifecycleId>)
    ensures
        (job_controls(map) == Map::<Seq<char>, LifecycleId>::empty()),
{
    DashMap::new()
}

/// `DashMap::entry` with `Entry::or_insert`: the value under a key, after
/// putting `fresh` there where the key was absent.
#[verifier::external_body]
pub(crate) fn lifecycle_or_insert(
    map: &mut DashMap<String, LifecycleId>,
    job_id: String,
    fresh: LifecycleId,
) -> (lifecycle: LifecycleId)
    ensures
        job_controls(*old(map)).contains_key(job_id@) ==> {
            &&& lifecycle == job_controls(*old(map))[job_id@]
            &&& job_controls(*final(map)) == job_controls(*old(map))
        },
        !job_controls(*old(map)).contains_key(job_id@) ==> {
            &&& lifecycle == fresh
            &&& job_controls(*final(map)) == job_controls(*old(map)).insert(job_id@, fresh)
        },
{
    *map.entry(job_id).or_insert(fresh).value()
}

/// `DashMap::get`: looks a key up.
#[verifier::external_body]
pub(crate) fn lifecycle_get(map: &DashMap<String, LifecycleId>, job_id: &str) -> (lifecycle: Option<
    LifecycleId,
>)
    ensures
        match lifecycle {
            Some(id) => {
                &&& job_controls(*map).contains_key(job_id@)
                &&& id == job_controls(*map)[job_id@]
            },
            None => !job_controls(*map).contains_key(job_id@),
        },
{
    map.get(job_id).map(|entry| *entry.value())
}

/// `DashMap::remove`: takes a key and its value out of the map. The value is
/// returned.
#[verifier::external_body]
pub(crate) fn lifecycle_remove(map: &mut DashMap<String, LifecycleId>, job_id: &str) -> (removed:
    Option<LifecycleId>)
    ensures
        job_controls(*final(map)) == job_controls(*old(map)).remove(job_id@),
        match removed {
            Some(id) => {
                &&& job_controls(*old(map)).contains_key(job_id@)
                &&& id == job_controls(*old(map))[job_id@]
            },
            None => !job_controls(*old(map)).contains_key(job_id@),
        },
{
    map.remove(job_id).map(|entry| entry.1)
}

/// Whether two controls are the same one.
pub(crate) fn same_lifecycle(left: &LifecycleId, right: &LifecycleId) -> (same: bool)
    ensures
        same == (*left == *right),
{
    *left == *right
}

/// `DashMap::remove_if`: takes a key out of the map if its value is
/// `lifecycle`, and says whether it did.
#[verifier::external_body]
pub(crate) fn lifecycle_remove_if(
    map: &mut DashMap<String, LifecycleId>,
    job_id: &str,
    lifecycle: LifecycleId,
) -> (removed: bool)
    ensures
        removed == (job_controls(*old(map)).contains_key(job_id@) && job_controls(*old(map))[job_id@]
            == lifecycle),
        job_controls(*final(map)) == (if removed {
            job_controls(*old(map)).remove(job_id@)
        } else {
            job_controls(*old(map))
        }),
{
    map.remove_if(job_id, |_, current| same_lifecycle(current, &lifecycle)).is_some()
}

} // verus!
