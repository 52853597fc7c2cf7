use vstd::prelude::*;
use core::time::Duration;

verus! {

/// The span of `secs` whole seconds that `Duration::from_secs` builds.
pub uninterp spec fn secs_duration(secs: u64) -> Duration;

/// Relies on Duration::from_secs to build a span of whole seconds; the
/// result depends on `secs` alone.
pub assume_specification[ core::time::Duration::from_secs ](secs: u64) -> (r: core::time::Duration)
    ensures
        r == secs_duration(secs),
;

/// The outcome of checking one website, as it enters the final output.
#[derive(Debug)]
pub struct WebsiteStatus {
    pub url: String,
    /// The HTTP status code, or why the check failed.
    pub status: Result<u16, String>,
    /// Wall time that the last probe took.
    pub response_time: Duration,
    /// When the record was made, in milliseconds since the Unix epoch (UTC).
    pub timestamp_ms: i64,
}

impl Clone for WebsiteStatus {
    fn clone(&self) -> (r: Self)
        ensures
            r == *self,
    {
        let status = match &self.status {
            Ok(code) => Ok(*code),
            Err(reason) => Err(reason.clone()),
        };
        WebsiteStatus {
            url: self.url.clone(),
            status,
            response_time: self.response_time,
            timestamp_ms: self.timestamp_ms,
        }
    }
}

/// Settings of a monitoring run.
#[derive(Debug)]
pub struct MonitorConfig {
    /// Number of worker threads.
    pub worker_threads: usize,
    /// Per-request timeout.
    pub request_timeout: Duration,
    /// Maximum number of retries per website (0 = no retry).
    pub max_retries: u32,
}

impl Clone for MonitorConfig {
    fn clone(&self) -> (r: Self)
        ensures
            r == *self,
    {
        MonitorConfig {
            worker_threads: self.worker_threads,
            request_timeout: self.request_timeout,
            max_retries: self.max_retries,
        }
    }
}

impl Default for MonitorConfig {
    fn default() -> (r: Self)
        ensures
            r.worker_threads == 50,
            r.request_timeout == secs_duration(5),
            r.max_retries == 0,
    {
        Self { worker_threads: 50, request_timeout: Duration::from_secs(5), max_retries: 0 }
    }
}

/// One pending check of a URL; `attempt` counts the retries made before it.
#[derive(Debug, Clone)]
pub struct Job {
    pub url: String,
    pub attempt: u32,
}

/// What a worker does once a probe has returned.
#[derive(Debug)]
pub enum Step {
    /// Wait `backoff_ms` milliseconds, then put `job` back on the queue.
    Retry { job: Job, backoff_ms: u64 },
    /// Send this record to the collector.
    Emit(WebsiteStatus),
}

/// What a timed dequeue from the job queue gave.
#[derive(Debug)]
pub enum PollResult {
    /// A job.
    Job(Job),
    /// Nothing within the poll interval.
    Empty,
    /// The queue has no producer left; no job will ever come.
    Closed,
}

/// What a polling worker does next.
#[derive(Debug)]
pub enum WorkerAction {
    /// Leave the loop; the worker is done.
    Stop,
    /// Poll again.
    Wait,
    /// Probe the job.
    Run(Job),
}

/// The polling step of a worker: a set token stops it, whatever was
/// dequeued; otherwise a closed queue stops it, an empty poll makes it poll
/// again, and a job is run.
pub open spec fn next_action(cancelled: bool, polled: PollResult) -> WorkerAction {
    if cancelled {
        WorkerAction::Stop
    } else {
        match polled {
            PollResult::Job(job) => WorkerAction::Run(job),
            PollResult::Empty => WorkerAction::Wait,
            PollResult::Closed => WorkerAction::Stop,
        }
    }
}

/// Decides what a polling worker does, from the token as read at the top of
/// its loop and what the dequeue gave; see `next_action`. A worker that finds
/// the token set need not dequeue: any `polled` gives `Stop`.
pub fn poll_step(cancelled: bool, polled: PollResult) -> (a: WorkerAction)
    ensures
        a == next_action(cancelled, polled),
        cancelled ==> a is Stop,
{
    if cancelled {
        WorkerAction::Stop
    } else {
        match polled {
            PollResult::Job(job) => WorkerAction::Run(job),
            PollResult::Empty => WorkerAction::Wait,
            PollResult::Closed => WorkerAction::Stop,
        }
    }
}

/// Milliseconds to wait before retrying a job that failed at `attempt`.
pub open spec fn backoff_for(attempt: u32) -> u64 {
    (100 * (attempt + 1)) as u64
}

/// The step that follows a probe of `job` that returned `result`: a failure is
/// retried while retries remain and the run is not cancelled; anything else
/// becomes the URL's record.
pub open spec fn next_step(
    job: Job,
    result: Result<u16, String>,
    elapsed: Duration,
    observed_at_ms: i64,
    cancelled: bool,
    max_retries: u32,
) -> Step {
    if result is Err && !cancelled && job.attempt < max_retries {
        Step::Retry {
            job: Job { url: job.url, attempt: (job.attempt + 1) as u32 },
            backoff_ms: backoff_for(job.attempt),
        }
    } else {
        Step::Emit(
            WebsiteStatus {
                url: job.url,
                status: result,
                response_time: elapsed,
                timestamp_ms: observed_at_ms,
            },
        )
    }
}

/// Milliseconds to wait before retrying a job that failed at `attempt`.
pub fn retry_backoff_ms(attempt: u32) -> (r: u64)
    ensures
        r == backoff_for(attempt),
        r >= 100,
{
    100 * (attempt as u64 + 1)
}

/// Decides what a worker does after probing `job`; see `next_step`.
pub fn after_probe(
    job: Job,
    result: Result<u16, String>,
    elapsed: Duration,
    observed_at_ms: i64,
    cancelled: bool,
    max_retries: u32,
) -> (r: Step)
    ensures
        r == next_step(job, result, elapsed, observed_at_ms, cancelled, max_retries),
{
    if result.is_err() && !cancelled && job.attempt < max_retries {
        let backoff_ms = retry_backoff_ms(job.attempt);
        Step::Retry { job: Job { url: job.url, attempt: job.attempt + 1 }, backoff_ms }
    } else {
        Step::Emit(
            WebsiteStatus {
                url: job.url,
                status: result,
                response_time: elapsed,
                timestamp_ms: observed_at_ms,
            },
        )
    }
}

/// Relies on chrono's conversion of `SystemTime::now()` into a UTC date and
/// on DateTime::timestamp_millis: the current time in milliseconds since the
/// Unix epoch, negative for a clock set before 1970.
#[verifier::external_body]
fn now_millis() -> (r: i64) {
    chrono::DateTime::<chrono::Utc>::from(std::time::SystemTime::now()).timestamp_millis()
}

/// Decides what a worker does after probing `job`, stamping a record with
/// the current time.
pub fn finish_attempt(
    job: Job,
    result: Result<u16, String>,
    elapsed: Duration,
    cancelled: bool,
    max_retries: u32,
) -> (r: Step)
    ensures
        exists|t: i64| r == #[trigger] next_step(job, result, elapsed, t, cancelled, max_retries),
{
    let now = now_millis();
    after_probe(job, result, elapsed, now, cancelled, max_retries)
}

/// The record that the attempts of one URL end in, and the attempt that
/// produced it, when the probe at attempt `a` returns `outcomes[a]` and the
/// run is not cancelled; `None` if the outcomes run out first.
pub open spec fn settle(
    url: String,
    outcomes: Seq<Result<u16, String>>,
    max_retries: u32,
    elapsed: Duration,
    observed_at_ms: i64,
    a: nat,
) -> Option<(WebsiteStatus, nat)>
    decreases outcomes.len() - a,
{
    if a >= outcomes.len() || a > u32::MAX {
        None
    } else {
        match next_step(
            Job { url, attempt: a as u32 },
            outcomes[a as int],
            elapsed,
            observed_at_ms,
            false,
            max_retries,
        ) {
            Step::Emit(s) => Some((s, a)),
            Step::Retry { .. } => settle(url, outcomes, max_retries, elapsed, observed_at_ms, a + 1),
        }
    }
}

proof fn lemma_settle_through_failures(
    url: String,
    outcomes: Seq<Result<u16, String>>,
    max_retries: u32,
    elapsed: Duration,
    observed_at_ms: i64,
    a: nat,
    last: nat,
)
    requires
        a <= last <= max_retries,
        last < outcomes.len(),
        forall|i: int| a <= i < last ==> outcomes[i] is Err,
        last == max_retries || outcomes[last as int] is Ok,
    ensures
        settle(url, outcomes, max_retries, elapsed, observed_at_ms, a) == Some(
            (
                WebsiteStatus {
                    url,
                    status: outcomes[last as int],
                    response_time: elapsed,
                    timestamp_ms: observed_at_ms,
                },
                last,
            ),
        ),
    decreases last - a,
{
    if a < last {
        lemma_settle_through_failures(url, outcomes, max_retries, elapsed, observed_at_ms, a + 1, last);
    }
}

/// A URL whose probe fails at every attempt, in a run that is not cancelled,
/// ends in a failure record only at attempt `max_retries`: after exactly
/// `max_retries` retries, `max_retries + 1` probes in all. Each retry before
/// it waits a backoff of at least 100 ms.
pub proof fn lemma_failing_url_exhausts_retries(
    url: String,
    outcomes: Seq<Result<u16, String>>,
    max_retries: u32,
    elapsed: Duration,
    observed_at_ms: i64,
)
    requires
        outcomes.len() > max_retries,
        forall|i: int| 0 <= i < outcomes.len() ==> outcomes[i] is Err,
    ensures
        settle(url, outcomes, max_retries, elapsed, observed_at_ms, 0) == Some(
            (
                WebsiteStatus {
                    url,
                    status: outcomes[max_retries as int],
                    response_time: elapsed,
                    timestamp_ms: observed_at_ms,
                },
                max_retries as nat,
            ),
        ),
        forall|a: u32|
            a < max_retries ==> #[trigger] next_step(
                Job { url, attempt: a },
                outcomes[a as int],
                elapsed,
                observed_at_ms,
                false,
                max_retries,
            ) == (Step::Retry {
                job: Job { url, attempt: (a + 1) as u32 },
                backoff_ms: backoff_for(a),
            }) && backoff_for(a) >= 100,
{
    lemma_settle_through_failures(url, outcomes, max_retries, elapsed, observed_at_ms, 0, max_retries as nat);
}

/// A URL whose probe fails `k < max_retries` times and then returns `code`,
/// in a run that is not cancelled, ends in a success record with `code`,
/// made at attempt `k`, that is after `k` retries.
pub proof fn lemma_recovering_url_succeeds(
    url: String,
    outcomes: Seq<Result<u16, String>>,
    k: nat,
    code: u16,
    max_retries: u32,
    elapsed: Duration,
    observed_at_ms: i64,
)
    requires
        k < max_retries,
        k < outcomes.len(),
        forall|i: int| 0 <= i < k ==> outcomes[i] is Err,
        outcomes[k as int] == Ok::<u16, String>(code),
    ensures
        settle(url, outcomes, max_retries, elapsed, observed_at_ms, 0) == Some(
            (
                WebsiteStatus {
                    url,
                    status: Ok(code),
                    response_time: elapsed,
                    timestamp_ms: observed_at_ms,
                },
                k,
            ),
        ),
{
    lemma_settle_through_failures(url, outcomes, max_retries, elapsed, observed_at_ms, 0, k);
}

} // verus!
