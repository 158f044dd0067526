//! Distributed training jobs: how jobs and workers are keyed, named and
//! described, and what starting, stopping and inspecting a job checks.
use vstd::prelude::*;
use crate::api_error::{ApiError, ApiErrorView};
use crate::text::{bytes_to_hex, concat, decimal, decimal_string, hex_of, push_all, str_eq};

verus! {

broadcast use vstd::string::group_string_axioms;

pub struct StartTrainRequest {
    pub model: String,
    pub dataset: String,
    pub config: Option<String>,
}

pub struct StopTrainRequest {
    pub job_id: String,
}

pub struct TrainStatusQuery {
    pub job_id: Option<String>,
}

pub struct CoordinatorQuery {
    pub job_id: String,
}

pub struct StopTrainResponse {
    pub job_id: String,
    pub action: String,
    pub status: String,
}

pub struct CoordinatorInfo {
    pub active_workers: usize,
    pub phase: String,
}

/// The store key of a training job.
pub fn train_db_key(job_id: &str) -> (k: String)
    ensures
        k@ == "job:"@ + job_id@,
{
    concat("job:", job_id)
}

/// The store key of a worker.
pub fn worker_db_key(worker_id: &str) -> (k: String)
    ensures
        k@ == "worker:"@ + worker_id@,
{
    concat("worker:", worker_id)
}

/// Why a start request is refused before anything is stored, if it is.
pub fn check_start(req: &StartTrainRequest) -> (r: Result<(), ApiError>)
    ensures
        req.model@.len() == 0 ==> r is Err && r->Err_0@ == ApiErrorView::BadRequest("model cannot be empty"@),
        req.model@.len() > 0 && req.dataset@.len() == 0 ==> r is Err && r->Err_0@ == ApiErrorView::BadRequest(
            "dataset cannot be empty"@,
        ),
        req.model@.len() > 0 && req.dataset@.len() > 0 ==> r is Ok,
{
    if req.model.as_str().is_empty() {
        return Err(ApiError::BadRequest("model cannot be empty".to_string()));
    }
    if req.dataset.as_str().is_empty() {
        return Err(ApiError::BadRequest("dataset cannot be empty".to_string()));
    }
    Ok(())
}

/// The text hashed to name a job: model, dataset and start time, run together.
pub fn job_hash_input(model: &str, dataset: &str, now: u64) -> (s: String)
    ensures
        s@ == model@ + dataset@ + decimal(now as nat),
{
    let mut s = concat(model, dataset);
    let d = decimal_string(now as u128);
    push_all(&mut s, d.as_str());
    s
}

/// A job's id from the digest of its hash input: `train_` and the hex of the
/// digest's first eight bytes.
pub fn job_id_from_digest(digest: &[u8]) -> (id: String)
    requires
        digest@.len() >= 8,
    ensures
        id@ == "train_"@ + hex_of(digest@.take(8)),
{
    let mut head: Vec<u8> = Vec::new();
    let mut i: usize = 0;
    while i < 8
        invariant
            i <= 8 <= digest@.len(),
            head@ == digest@.take(i as int),
        decreases 8 - i,
    {
        head.push(digest[i]);
        assert(digest@.take(i as int + 1) =~= digest@.take(i as int).push(digest@[i as int]));
        i = i + 1;
    }
    concat("train_", bytes_to_hex(head.as_slice()).as_str())
}

/// The message for a job id that is not stored.
pub fn job_not_found(job_id: &str) -> (e: ApiError)
    ensures
        e@ == ApiErrorView::NotFound("training job not found: "@ + job_id@),
{
    ApiError::NotFound(concat("training job not found: ", job_id))
}

/// What stopping a job answers.
pub fn stop_response(job_id: &str) -> (r: StopTrainResponse)
    ensures
        r.job_id@ == job_id@,
        r.action@ == "stop"@,
        r.status@ == "stopped"@,
{
    StopTrainResponse { job_id: job_id.to_string(), action: "stop".to_string(), status: "stopped".to_string() }
}

/// The coordinator's phase for a job status.
pub open spec fn phase_of(status: Seq<char>) -> Seq<char> {
    if status == "running"@ {
        "training"@
    } else if status == "queued"@ {
        "scheduling"@
    } else if status == "stopped"@ {
        "stopped"@
    } else {
        "unknown"@
    }
}

/// How many workers are available.
pub open spec fn available_count(statuses: Seq<Seq<char>>) -> nat
    decreases statuses.len(),
{
    if statuses.len() == 0 {
        0
    } else {
        available_count(statuses.drop_last()) + if statuses.last() == "available"@ { 1nat } else { 0nat }
    }
}

/// The coordinator's view of a job: how many workers are available, and
/// the phase its status puts it in.
pub fn coordinator_info(job_status: &str, worker_statuses: &Vec<String>) -> (c: CoordinatorInfo)
    ensures
        c.active_workers == available_count(crate::text::views(worker_statuses@)),
        c.phase@ == phase_of(job_status@),
{
    let ghost v = crate::text::views(worker_statuses@);
    let mut n: usize = 0;
    let mut i: usize = 0;
    while i < worker_statuses.len()
        invariant
            i <= worker_statuses@.len(),
            v == crate::text::views(worker_statuses@),
            n == available_count(v.take(i as int)),
            n <= i,
        decreases worker_statuses.len() - i,
    {
        assert(v.take(i as int + 1).drop_last() =~= v.take(i as int));
        assert(v.take(i as int + 1).last() == worker_statuses@[i as int]@);
        if str_eq(worker_statuses[i].as_str(), "available") {
            n = n + 1;
        }
        i = i + 1;
    }
    assert(v.take(v.len() as int) =~= v);
    let phase = if str_eq(job_status, "running") {
        "training"
    } else if str_eq(job_status, "queued") {
        "scheduling"
    } else if str_eq(job_status, "stopped") {
        "stopped"
    } else {
        "unknown"
    };
    CoordinatorInfo { active_workers: n, phase: phase.to_string() }
}

} // verus!
