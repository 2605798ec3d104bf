//! What clients may ask for, and what is read from storage to answer them.

use crate::outside::invalid_params;
use vstd::prelude::*;

verus! {

/// A refusal in the terms of JSON-RPC.
#[derive(Debug, PartialEq, Eq)]
pub struct RequestError {
    pub code: i32,
    pub message: String,
}

/// Which job to inspect.
#[derive(Debug, PartialEq, Eq)]
pub struct JobRequest {
    /// Exact job ID, including the worker prefix for unique jobs.
    pub id: String,
}

/// The lists that jobs are kept in.
#[derive(Clone, Copy, Debug, PartialEq, Eq)]
pub enum JobList {
    Queue,
    Dead,
    Retries,
    Scheduled,
}

/// Which part of which list to show.
#[derive(Debug, PartialEq, Eq)]
pub struct ListJobsRequest {
    /// Which list to inspect.
    pub list: JobList,
    /// Required for the queue list. Exact queue key, including dynamic suffix.
    pub queue: Option<String>,
    /// Number of jobs to return (1 to 100; defaults to 20).
    pub limit: Option<usize>,
    /// Number of jobs to skip (defaults to 0).
    pub offset: Option<usize>,
}

/// The part of a list that is read from storage.
#[derive(Clone, Copy, Debug, PartialEq, Eq)]
pub struct QueueListOpts {
    pub count: usize,
    pub offset: usize,
}

/// A list of storage, by name where there are several.
#[derive(Debug, PartialEq, Eq)]
pub enum JobSource {
    Queue(String),
    Dead,
    Retries,
    Scheduled,
}

/// A reading of storage that answers a request for a job list.
#[derive(Debug, PartialEq, Eq)]
pub struct JobListQuery {
    pub source: JobSource,
    pub options: QueueListOpts,
}

/// The code with which JSON-RPC refuses the parameters of a request.
pub open spec fn invalid_params_code() -> i32 {
    -32602i32
}

/// The code with which JSON-RPC reports a fault of the server.
pub open spec fn internal_error_code() -> i32 {
    -32603i32
}

impl ListJobsRequest {
    /// How many jobs are asked for.
    pub open spec fn count(self) -> int {
        match self.limit {
            Some(limit) => limit as int,
            None => 20,
        }
    }

    /// How many jobs are skipped.
    pub open spec fn skipped(self) -> int {
        match self.offset {
            Some(offset) => offset as int,
            None => 0,
        }
    }

    /// Between 1 and 100 jobs are asked for, and the last of them has a position
    /// that storage can count to.
    pub open spec fn window_ok(self) -> bool {
        1 <= self.count() <= 100 && self.skipped() + self.count() <= isize::MAX
    }

    /// Why the request is refused, if it is.
    pub open spec fn refusal(self) -> Option<Seq<char>> {
        if !self.window_ok() {
            Some("invalid limit or offset"@)
        } else {
            match (self.list, self.queue) {
                (JobList::Queue, Some(queue)) => if queue@.len() > 0 {
                    None
                } else {
                    Some("queue is required"@)
                },
                (JobList::Queue, None) => Some("queue is required"@),
                (_, Some(_)) => Some("queue only applies to list=queue"@),
                (_, None) => None,
            }
        }
    }

    /// The list that an accepted request reads.
    pub open spec fn source(self) -> JobSource {
        match (self.list, self.queue) {
            (JobList::Queue, Some(queue)) => JobSource::Queue(queue),
            (JobList::Dead, _) => JobSource::Dead,
            (JobList::Retries, _) => JobSource::Retries,
            _ => JobSource::Scheduled,
        }
    }

    /// The part of the list that is asked for, or why there is no such part.
    pub fn options(&self) -> (options: Result<QueueListOpts, RequestError>)
        ensures
            options is Ok <==> self.window_ok(),
            options matches Ok(options) ==> {
                &&& self.limit matches Some(limit) ==> options.count == limit
                &&& self.limit is None ==> options.count == 20
                &&& self.offset matches Some(offset) ==> options.offset == offset
                &&& self.offset is None ==> options.offset == 0
            },
            options matches Ok(options) ==> options.count == self.count() && options.offset
                == self.skipped(),
            options matches Err(error) ==> error.code == invalid_params_code() && error.message@
                == "invalid limit or offset"@,
    {
        let count: usize = match self.limit {
            Some(limit) => limit,
            None => 20,
        };
        let offset: usize = match self.offset {
            Some(offset) => offset,
            None => 0,
        };
        if count < 1 || count > 100 || offset > (isize::MAX as usize).saturating_sub(count) {
            return Err(invalid_params("invalid limit or offset"));
        }
        Ok(QueueListOpts { count, offset })
    }

    /// What to read from storage, or why nothing is read.
    pub fn query(self) -> (query: Result<JobListQuery, RequestError>)
        ensures
            query is Ok <==> self.refusal() is None,
            query matches Ok(query) ==> {
                &&& query.source == self.source()
                &&& self.limit matches Some(limit) ==> query.options.count == limit
                &&& self.limit is None ==> query.options.count == 20
                &&& self.offset matches Some(offset) ==> query.options.offset == offset
                &&& self.offset is None ==> query.options.offset == 0
                &&& query.options.count == self.count()
                &&& query.options.offset == self.skipped()
            },
            query matches Err(error) ==> {
                &&& error.code == invalid_params_code()
                &&& Some(error.message@) == self.refusal()
            },
    {
        let options = match self.options() {
            Ok(options) => options,
            Err(error) => {
                return Err(error);
            },
        };
        let source = match (self.list, self.queue) {
            (JobList::Queue, Some(queue)) => {
                if queue.as_str().is_empty() {
                    return Err(invalid_params("queue is required"));
                }
                JobSource::Queue(queue)
            },
            (JobList::Queue, None) => {
                return Err(invalid_params("queue is required"));
            },
            (_, Some(_)) => {
                return Err(invalid_params("queue only applies to list=queue"));
            },
            (JobList::Dead, None) => JobSource::Dead,
            (JobList::Retries, None) => JobSource::Retries,
            (JobList::Scheduled, None) => JobSource::Scheduled,
        };
        Ok(JobListQuery { source, options })
    }
}

/// How far back metrics are asked for.
#[derive(Clone, Copy, Debug, PartialEq, Eq)]
pub struct MetricsRequest {
    /// Lookback in minutes. Omitted or zero means 60; values above 1440 are capped.
    pub minutes: Option<usize>,
}

/// The number of minutes that metrics look back: an hour where nothing is asked
/// for, and never more than a day.
pub open spec fn lookback_minutes(minutes: Option<usize>) -> int {
    match minutes {
        Some(minutes) => if minutes == 0 {
            60
        } else if minutes > 1440 {
            1440
        } else {
            minutes as int
        },
        None => 60,
    }
}

impl MetricsRequest {
    /// The number of minutes to look back.
    pub fn lookback(&self) -> (minutes: usize)
        ensures
            minutes == lookback_minutes(self.minutes),
            self.minutes matches Some(asked) ==> 1 <= asked <= 1440 ==> minutes == asked,
            self.minutes matches Some(asked) ==> asked > 1440 ==> minutes == 1440,
            self.minutes is None || self.minutes == Some(0usize) ==> minutes == 60,
    {
        let minutes: usize = match self.minutes {
            Some(minutes) => minutes,
            None => 0,
        };
        if minutes == 0 {
            60
        } else if minutes > 1440 {
            1440
        } else {
            minutes
        }
    }
}

/// The part of a list that a reading with the given options yields: the options
/// say how many entries are skipped and how many are then taken, as far as
/// there are any.
pub open spec fn window<T>(list: Seq<T>, options: QueueListOpts) -> Seq<T> {
    list.skip(at_most(options.offset as int, list.len() as int)).take(
        at_most(options.count as int, list.len() - at_most(options.offset as int, list.len() as int)),
    )
}

/// The smaller of two numbers.
pub open spec fn at_most(n: int, bound: int) -> int {
    if n <= bound {
        n
    } else {
        bound
    }
}

/// A request that goes on where another stopped reads the entries that follow,
/// without a gap and without repeating any.
pub proof fn law_pages_adjoin<T>(list: Seq<T>, first: QueueListOpts, second: QueueListOpts)
    requires
        second.offset == first.offset + first.count,
    ensures
        forall|both: QueueListOpts|
            both.offset == first.offset && both.count == first.count + second.count ==> window(
                list,
                first,
            ) + window(list, second) == #[trigger] window(list, both),
        list.no_duplicates() ==> forall|i: int, j: int|
            0 <= i < window(list, first).len() && 0 <= j < window(list, second).len()
                ==> #[trigger] window(list, first)[i] != #[trigger] window(list, second)[j],
{
    assert forall|both: QueueListOpts|
        both.offset == first.offset && both.count == first.count + second.count implies window(
        list,
        first,
    ) + window(list, second) == #[trigger] window(list, both) by {
        assert(window(list, first) + window(list, second) =~= window(list, both));
    }
}

/// An accepted request reads at least one and at most 100 entries, up to a
/// position that fits a signed word. It reads the kind of list that it names; a
/// queue is named, and not by an empty key, exactly where it reads a queue.
pub proof fn law_accepted_requests(request: ListJobsRequest)
    requires
        request.refusal() is None,
    ensures
        1 <= request.count() <= 100,
        0 <= request.skipped(),
        request.skipped() + request.count() <= isize::MAX,
        request.list is Queue <==> request.queue is Some,
        request.source() is Queue <==> request.list is Queue,
        request.source() is Dead <==> request.list is Dead,
        request.source() is Retries <==> request.list is Retries,
        request.source() is Scheduled <==> request.list is Scheduled,
        request.source() matches JobSource::Queue(queue) ==> queue@.len() > 0 && request.queue
            == Some(queue),
{
}

/// Metrics always look back at least a minute and at most a day, and a lookback
/// that was settled once is not changed by settling it again.
pub proof fn law_lookback_settles(minutes: Option<usize>)
    ensures
        1 <= lookback_minutes(minutes) <= 1440,
        lookback_minutes(Some(lookback_minutes(minutes) as usize)) == lookback_minutes(minutes),
{
}

/// The limit and the offset that are asked for are the ones that are used;
/// without them 20 jobs are asked for and none is skipped.
pub proof fn law_limit_and_offset_as_asked(request: ListJobsRequest)
    ensures
        request.limit matches Some(limit) ==> request.count() == limit,
        request.limit is None ==> request.count() == 20,
        request.offset matches Some(offset) ==> request.skipped() == offset,
        request.offset is None ==> request.skipped() == 0,
{
}

/// A request is refused for its window exactly where more than 100 jobs or none
/// are asked for, or where the last of them lies beyond what a signed word
/// counts. That is looked at before the queue, of which a queue list needs one
/// with a nonempty key, and any other list none. All other requests are
/// accepted. Refusals have JSON-RPC's code for invalid parameters.
pub proof fn law_refusals(request: ListJobsRequest, limit: usize, offset: usize)
    requires
        request.limit == Some(limit) || request.limit is None && limit == 20,
        request.offset == Some(offset) || request.offset is None && offset == 0,
    ensures
        invalid_params_code() == -32602,
        internal_error_code() == -32603,
        request.window_ok() <==> limit != 0 && limit <= 100 && offset + limit <= isize::MAX,
        limit == 0 || limit > 100 || offset + limit > isize::MAX ==> request.refusal() == Some(
            "invalid limit or offset"@,
        ),
        limit != 0 && limit <= 100 && offset + limit <= isize::MAX ==> {
            &&& request.list is Queue && request.queue is None ==> request.refusal() == Some(
                "queue is required"@,
            )
            &&& request.list is Queue ==> (request.queue matches Some(queue) ==> request.refusal()
                == if queue@.len() == 0 {
                Some("queue is required"@)
            } else {
                None
            })
            &&& request.list !is Queue && request.queue is Some ==> request.refusal() == Some(
                "queue only applies to list=queue"@,
            )
            &&& request.list !is Queue && request.queue is None ==> request.refusal() is None
        },
{
}

/// A lookback from a minute to a day is used as it is asked for; a longer one is
/// a day, and none at all, or zero, is an hour.
pub proof fn law_lookback_as_asked(minutes: usize)
    ensures
        1 <= minutes <= 1440 ==> lookback_minutes(Some(minutes)) == minutes,
        minutes > 1440 ==> lookback_minutes(Some(minutes)) == 1440,
        lookback_minutes(Some(0)) == 60,
        lookback_minutes(None) == 60,
{
}

/// A reading yields the entries that follow those that are skipped, in their
/// order, up to the count that is asked for or to the end of the list.
pub proof fn law_window_entries<T>(list: Seq<T>, options: QueueListOpts)
    ensures
        forall|i: int|
            0 <= i < window(list, options).len() ==> #[trigger] window(list, options)[i]
                == list[options.offset + i],
        window(list, options).len() <= options.count,
        options.offset + options.count <= list.len() ==> window(list, options).len()
            == options.count,
        options.offset <= list.len() <= options.offset + options.count ==> window(
            list,
            options,
        ).len() == list.len() - options.offset,
        options.offset >= list.len() ==> window(list, options).len() == 0,
{
}

} // verus!
