//! Jobs as storage hands them out, and what a client may see of them.

use crate::json::{Field, Json, JsonView};
use vstd::prelude::*;

verus! {

/// A job as it is kept in storage.
#[derive(Debug, PartialEq)]
pub struct JobEnvelope {
    pub id: String,
    pub queue: String,
    pub job: Job,
    pub meta: JobMeta,
}

/// Which worker runs a job, and on what.
#[derive(Debug, PartialEq)]
pub struct Job {
    pub name: String,
    /// The payload; never shown to clients.
    pub args: serde_json::Value,
}

/// What is known of a job besides its payload. Timestamps are Unix microseconds.
#[derive(Debug, PartialEq)]
pub struct JobMeta {
    pub id: String,
    pub retries: u32,
    pub unique: bool,
    pub created_at: i64,
    pub scheduled_at: i64,
    pub started_at: Option<i64>,
    /// What a resumable job remembers; never shown to clients.
    pub state: Option<serde_json::Value>,
    pub error: Option<String>,
}

/// An optional time as JSON: a number, or null.
pub open spec fn time_view(time: Option<i64>) -> JsonView {
    match time {
        Some(time) => JsonView::Number(time as int),
        None => JsonView::Null,
    }
}

/// An optional text as JSON: a string, or null.
pub open spec fn text_view(text: Option<String>) -> JsonView {
    match text {
        Some(text) => JsonView::Text(text@),
        None => JsonView::Null,
    }
}

/// What a client sees of a job.
pub open spec fn summary_view(job: JobEnvelope) -> JsonView {
    JsonView::Object(
        seq![
            ("id"@, JsonView::Text(job.id@)),
            ("worker"@, JsonView::Text(job.job.name@)),
            ("queue"@, JsonView::Text(job.queue@)),
            ("retries"@, JsonView::Number(job.meta.retries as int)),
            ("unique"@, JsonView::Bool(job.meta.unique)),
            ("created_at"@, JsonView::Number(job.meta.created_at as int)),
            ("scheduled_at"@, JsonView::Number(job.meta.scheduled_at as int)),
            ("started_at"@, time_view(job.meta.started_at)),
            ("error"@, text_view(job.meta.error)),
        ],
    )
}

/// What clients see of a list of jobs: the summary of each, in the same order.
pub open spec fn summaries_view(jobs: Seq<JobEnvelope>) -> JsonView {
    JsonView::List(jobs.map_values(|job: JobEnvelope| summary_view(job)))
}

/// Shows a job to a client: its identity, its course and its last error, without
/// its arguments and its resumable state.
pub fn job_summary(job: JobEnvelope) -> (summary: Json)
    ensures
        summary@ == summary_view(job),
{
    let started_at = match job.meta.started_at {
        Some(time) => Json::Int(time),
        None => Json::Null,
    };
    let error = match job.meta.error {
        Some(text) => Json::Text(text),
        None => Json::Null,
    };
    let fields = vec![
        Field::new("id", Json::Text(job.id)),
        Field::new("worker", Json::Text(job.job.name)),
        Field::new("queue", Json::Text(job.queue)),
        Field::new("retries", Json::Uint(job.meta.retries as u64)),
        Field::new("unique", Json::Bool(job.meta.unique)),
        Field::new("created_at", Json::Int(job.meta.created_at)),
        Field::new("scheduled_at", Json::Int(job.meta.scheduled_at)),
        Field::new("started_at", started_at),
        Field::new("error", error),
    ];
    let summary = Json::Object(fields);
    assert(summary@ == summary_view(job)) by {
        reveal_with_fuel(<Json as View>::view, 2);
        assert(summary@->Object_0 =~= summary_view(job)->Object_0);
    }
    summary
}

/// Shows a list of jobs to a client.
pub fn job_summaries(jobs: Vec<JobEnvelope>) -> (summaries: Json)
    ensures
        summaries@ == summaries_view(jobs@),
{
    let mut items: Vec<Json> = Vec::new();
    for job in it: jobs.into_iter()
        invariant
            it.seq() == jobs@,
            items@.len() == it.index(),
            forall|i: int| 0 <= i < items@.len() ==> (#[trigger] items@[i])@ == summary_view(jobs@[i]),
    {
        items.push(job_summary(job));
    }
    let summaries = Json::List(items);
    assert(summaries@->List_0 =~= summaries_view(jobs@)->List_0);
    summaries
}

/// Whether two jobs are the same but for their payload: their arguments and
/// their resumable state.
pub open spec fn same_but_payload(a: JobEnvelope, b: JobEnvelope) -> bool {
    &&& a.id == b.id
    &&& a.queue == b.queue
    &&& a.job.name == b.job.name
    &&& a.meta.id == b.meta.id
    &&& a.meta.retries == b.meta.retries
    &&& a.meta.unique == b.meta.unique
    &&& a.meta.created_at == b.meta.created_at
    &&& a.meta.scheduled_at == b.meta.scheduled_at
    &&& a.meta.started_at == b.meta.started_at
    &&& a.meta.error == b.meta.error
}

/// Nothing of a job's arguments and resumable state reaches a client: lists of
/// jobs that differ in nothing else are shown alike.
pub proof fn law_payload_omitted(a: Seq<JobEnvelope>, b: Seq<JobEnvelope>)
    requires
        a.len() == b.len(),
        forall|i: int| 0 <= i < a.len() ==> same_but_payload(#[trigger] a[i], b[i]),
    ensures
        forall|i: int| 0 <= i < a.len() ==> summary_view(#[trigger] a[i]) == summary_view(b[i]),
        summaries_view(a) == summaries_view(b),
{
    assert(summaries_view(a)->List_0 =~= summaries_view(b)->List_0);
}

/// No member of a job's summary hides another.
pub proof fn law_summary_members_distinct(job: JobEnvelope)
    ensures
        summary_view(job) matches JsonView::Object(fields) && crate::json::distinct_names(fields),
{
    reveal_strlit("id");
    reveal_strlit("worker");
    reveal_strlit("queue");
    reveal_strlit("retries");
    reveal_strlit("unique");
    reveal_strlit("created_at");
    reveal_strlit("scheduled_at");
    reveal_strlit("started_at");
    reveal_strlit("error");
    assert("worker"@[0] == 'w' && "unique"@[0] == 'u');
    assert("queue"@[0] == 'q' && "error"@[0] == 'e');
    assert("created_at"@[0] == 'c' && "started_at"@[0] == 's');
    let fields = summary_view(job)->Object_0;
    assert(fields.len() == 9);
    assert(fields[0].0 == "id"@ && fields[1].0 == "worker"@ && fields[2].0 == "queue"@);
    assert(fields[3].0 == "retries"@ && fields[4].0 == "unique"@ && fields[5].0 == "created_at"@);
    assert(fields[6].0 == "scheduled_at"@ && fields[7].0 == "started_at"@);
    assert(fields[8].0 == "error"@);
}

/// A summary shows each thing that a client may know of a job under its own
/// name, whatever the rest of the job is: an error message wherever there is
/// one, and null only where there is none, and likewise the time of the start.
pub proof fn law_summary_shows(job: JobEnvelope)
    ensures
        summary_view(job) matches JsonView::Object(fields) && {
            &&& fields.len() == 9
            &&& fields.contains(("id"@, JsonView::Text(job.id@)))
            &&& fields.contains(("worker"@, JsonView::Text(job.job.name@)))
            &&& fields.contains(("queue"@, JsonView::Text(job.queue@)))
            &&& fields.contains(("retries"@, JsonView::Number(job.meta.retries as int)))
            &&& fields.contains(("unique"@, JsonView::Bool(job.meta.unique)))
            &&& fields.contains(("created_at"@, JsonView::Number(job.meta.created_at as int)))
            &&& fields.contains(("scheduled_at"@, JsonView::Number(job.meta.scheduled_at as int)))
            &&& job.meta.started_at matches Some(time) ==> fields.contains(
                ("started_at"@, JsonView::Number(time as int)),
            )
            &&& job.meta.started_at is None ==> fields.contains(("started_at"@, JsonView::Null))
            &&& job.meta.error matches Some(error) ==> fields.contains(
                ("error"@, JsonView::Text(error@)),
            )
            &&& job.meta.error is None ==> fields.contains(("error"@, JsonView::Null))
        },
{
    let fields = summary_view(job)->Object_0;
    assert(fields[0] == ("id"@, JsonView::Text(job.id@)));
    assert(fields[1] == ("worker"@, JsonView::Text(job.job.name@)));
    assert(fields[2] == ("queue"@, JsonView::Text(job.queue@)));
    assert(fields[3] == ("retries"@, JsonView::Number(job.meta.retries as int)));
    assert(fields[4] == ("unique"@, JsonView::Bool(job.meta.unique)));
    assert(fields[5] == ("created_at"@, JsonView::Number(job.meta.created_at as int)));
    assert(fields[6] == ("scheduled_at"@, JsonView::Number(job.meta.scheduled_at as int)));
    assert(fields[7] == ("started_at"@, time_view(job.meta.started_at)));
    assert(fields[8] == ("error"@, text_view(job.meta.error)));
}

/// Jobs that a client may tell apart are shown apart: equal summaries come from
/// jobs with the same identity, course and error message.
pub proof fn law_summary_tells_jobs_apart(a: JobEnvelope, b: JobEnvelope)
    requires
        summary_view(a) == summary_view(b),
    ensures
        a.id@ == b.id@,
        a.job.name@ == b.job.name@,
        a.queue@ == b.queue@,
        a.meta.retries == b.meta.retries,
        a.meta.unique == b.meta.unique,
        a.meta.created_at == b.meta.created_at,
        a.meta.scheduled_at == b.meta.scheduled_at,
        a.meta.started_at == b.meta.started_at,
        a.meta.error is Some <==> b.meta.error is Some,
        a.meta.error is Some ==> a.meta.error->0@ == b.meta.error->0@,
{
    let x = summary_view(a)->Object_0;
    let y = summary_view(b)->Object_0;
    assert(x[0] == y[0] && x[1] == y[1] && x[2] == y[2] && x[3] == y[3] && x[4] == y[4]);
    assert(x[5] == y[5] && x[6] == y[6] && x[7] == y[7] && x[8] == y[8]);
}

/// Giving a job other arguments and another resumable state changes nothing of
/// its summary.
pub proof fn law_payload_replaced(
    job: JobEnvelope,
    args: serde_json::Value,
    state: Option<serde_json::Value>,
)
    ensures
        summary_view(
            JobEnvelope {
                job: Job { args, ..job.job },
                meta: JobMeta { state, ..job.meta },
                ..job
            },
        ) == summary_view(job),
{
}

/// A list shows the summary of every job, in its place, and nothing else.
pub proof fn law_summaries_in_place(jobs: Seq<JobEnvelope>)
    ensures
        summaries_view(jobs) matches JsonView::List(items) && items.len() == jobs.len() && forall|
            i: int,
        |
            0 <= i < jobs.len() ==> #[trigger] items[i] == summary_view(jobs[i]),
{
}

} // verus!
