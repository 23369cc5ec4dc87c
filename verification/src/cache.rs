//! What is cached for an active job.
use std::collections::HashMap;

use vstd::prelude::*;

use crate::error::BallistaError;
use crate::graph::{ExecutionGraph, GraphId};
use crate::status::{copy_status, JobStatus, Status};

verus! {

/// Cached facts about one active job.
#[derive(Debug)]
pub struct JobInfoCache {
    /// The job's execution graph.
    pub execution_graph: GraphId,
    /// The state that the graph reported when the job was published.
    pub status: Option<Status>,
    /// Encoded stage plans, by stage.
    encoded_stage_plans: HashMap<usize, Vec<u8>>,
}

/// The mathematical counterpart of a [`JobInfoCache`].
pub struct JobInfo {
    pub execution_graph: GraphId,
    pub status: Option<Status>,
    pub plans: Map<usize, Seq<u8>>,
}

impl View for JobInfoCache {
    type V = JobInfo;

    closed spec fn view(&self) -> JobInfo {
        JobInfo {
            execution_graph: self.execution_graph,
            status: self.status,
            plans: self.encoded_stage_plans@.map_values(|plan: Vec<u8>| plan@),
        }
    }
}

/// What is spoken of as the graph and the status of a cached job is what anyone
/// can read off it.
proof fn law_fields_are_shown(info: JobInfoCache)
    ensures
        info@.execution_graph == info.execution_graph,
        info@.status == info.status,
{
}

impl JobInfo {
    /// What is cached of a job right after its graph was published with a
    /// reported state.
    pub open spec fn published(graph: GraphId, status: Option<Status>) -> JobInfo {
        JobInfo { execution_graph: graph, status, plans: Map::empty() }
    }

    /// What a scheduling snapshot keeps.
    pub open spec fn snapshot(self) -> JobInfo {
        JobInfo { plans: Map::empty(), ..self }
    }

    /// What is cached once the plan of a stage has been encoded.
    pub open spec fn with_plan(self, stage_id: usize, plan: Seq<u8>) -> JobInfo {
        JobInfo { plans: self.plans.insert(stage_id, plan), ..self }
    }
}

impl JobInfoCache {
    /// Cached facts about a job whose graph is `graph`, without any plan yet.
    pub fn new(graph: &ExecutionGraph) -> (info: Self)
        ensures
            info@ == JobInfo::published(graph.id, graph.status.status),
    {
        Self::of_graph(graph.id, &graph.status)
    }

    /// Cached facts about a job whose graph is `graph` and reports `status`.
    pub(crate) fn of_graph(graph: GraphId, status: &JobStatus) -> (info: Self)
        ensures
            info@ == JobInfo::published(graph, status.status),
    {
        let info = JobInfoCache {
            execution_graph: graph,
            status: copy_status(&status.status),
            encoded_stage_plans: HashMap::new(),
        };
        assert(info@.plans =~= Map::empty());
        info
    }

    /// The job's execution graph.
    pub fn graph(&self) -> (graph: GraphId)
        ensures
            graph == self@.execution_graph,
    {
        self.execution_graph
    }

    /// The state that the graph reported when the job was published.
    pub fn status(&self) -> (status: &Option<Status>)
        ensures
            *status == self@.status,
    {
        &self.status
    }

    /// The encoded plan of a stage. It is encoded at most once: later requests
    /// for the same stage are answered from the cache, and a failure to encode
    /// leaves nothing behind.
    pub fn encode_stage_plan<E, P, F: FnOnce(&P) -> Result<Vec<u8>, BallistaError<E>>>(
        &mut self,
        stage_id: usize,
        plan: &P,
        encode: F,
    ) -> (encoded: Result<Vec<u8>, BallistaError<E>>)
        requires
            !old(self)@.plans.contains_key(stage_id) ==> encode.requires((plan,)),
        ensures
            stage_plan_encoded(
                old(self)@,
                final(self)@,
                stage_id,
                |given: Result<Vec<u8>, BallistaError<E>>| encode.ensures((plan,), given),
                encoded,
            ),
    {
        match self.cached_plan(stage_id) {
            Some(cached) => {
                return Ok(cached);
            },
            None => {},
        }
        let encoded = encode(plan);
        match &encoded {
            Ok(bytes) => {
                self.keep_plan(stage_id, bytes);
            },
            Err(_) => {},
        }
        encoded
    }

    /// The encoded plan of a stage, without the cache: it is encoded anew each
    /// time, and nothing is kept.
    pub fn encode_stage_plan_uncached<E, P, F: FnOnce(&P) -> Result<Vec<u8>, BallistaError<E>>>(
        plan: &P,
        encode: F,
    ) -> (encoded: Result<Vec<u8>, BallistaError<E>>)
        requires
            encode.requires((plan,)),
        ensures
            encode.ensures((plan,), encoded),
    {
        encode(plan)
    }

    /// The cached plan of a stage, if there is one.
    pub(crate) fn cached_plan(&self, stage_id: usize) -> (cached: Option<Vec<u8>>)
        ensures
            match cached {
                Some(plan) => self@.plans.contains_key(stage_id) && plan@ == self@.plans[stage_id],
                None => !self@.plans.contains_key(stage_id),
            },
    {
        broadcast use vstd::std_specs::hash::group_hash_axioms;

        match self.encoded_stage_plans.get(&stage_id) {
            Some(plan) => Some(plan.clone()),
            None => None,
        }
    }

    /// Caches the encoded plan of a stage.
    pub(crate) fn keep_plan(&mut self, stage_id: usize, plan: &Vec<u8>)
        ensures
            final(self)@ == old(self)@.with_plan(stage_id, plan@),
    {
        broadcast use vstd::std_specs::hash::group_hash_axioms;

        let kept: Vec<u8> = plan.clone();
        self.encoded_stage_plans.insert(stage_id, kept);
        assert(self@.plans =~= old(self)@.plans.insert(stage_id, plan@));
    }
}

/// What it means to ask for the encoded plan of a stage: a cached plan is the
/// answer and nothing changes; otherwise the answer is one that the encoder may
/// give, and a plan that it gives is cached.
pub open spec fn stage_plan_encoded<E>(
    before: JobInfo,
    after: JobInfo,
    stage_id: usize,
    encodes: spec_fn(Result<Vec<u8>, BallistaError<E>>) -> bool,
    encoded: Result<Vec<u8>, BallistaError<E>>,
) -> bool {
    if before.plans.contains_key(stage_id) {
        &&& encoded matches Ok(plan)
        &&& plan@ == before.plans[stage_id]
        &&& after == before
    } else {
        &&& encodes(encoded)
        &&& match encoded {
            Ok(plan) => after == before.with_plan(stage_id, plan@),
            Err(_) => after == before,
        }
    }
}

impl Clone for JobInfoCache {
    /// A snapshot for scheduling, which needs the graph and the status only:
    /// the encoded plans are not copied.
    fn clone(&self) -> (snapshot: Self)
        ensures
            snapshot@ == self@.snapshot(),
    {
        let snapshot = JobInfoCache {
            execution_graph: self.execution_graph,
            status: copy_status(&self.status),
            encoded_stage_plans: HashMap::new(),
        };
        assert(snapshot@.plans =~= Map::empty());
        snapshot
    }
}

} // verus!
