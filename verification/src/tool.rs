//! What the server offers to clients.

use vstd::prelude::*;

verus! {

/// The tools that clients may call.
#[derive(Clone, Copy, Debug, PartialEq, Eq)]
pub enum Tool {
    GetOverview,
    ListQueues,
    ListProcesses,
    GetJob,
    ListJobs,
    GetJobMetrics,
    GetQueueMetrics,
}

/// What a client is told of the effects of a tool.
#[derive(Clone, Copy, Debug, PartialEq, Eq)]
pub struct Annotations {
    pub read_only: bool,
    pub destructive: bool,
    pub idempotent: bool,
}

impl Tool {
    /// The name under which the tool is called.
    pub open spec fn spec_name(self) -> Seq<char> {
        match self {
            Tool::GetOverview => "get_overview"@,
            Tool::ListQueues => "list_queues"@,
            Tool::ListProcesses => "list_processes"@,
            Tool::GetJob => "get_job"@,
            Tool::ListJobs => "list_jobs"@,
            Tool::GetJobMetrics => "get_job_metrics"@,
            Tool::GetQueueMetrics => "get_queue_metrics"@,
        }
    }

    /// What a client is told of the tool.
    pub open spec fn spec_description(self) -> Seq<char> {
        match self {
            Tool::GetOverview => "Get global counts, queues, worker processes and currently processing jobs. Job arguments and resumable state are omitted."@,
            Tool::ListQueues => "List queue statistics, including dynamic queues, latency and drain estimates."@,
            Tool::ListProcesses => "List active worker processes and their heartbeat timestamps."@,
            Tool::GetJob => "Inspect one job by ID. Returns null if absent. Arguments and resumable state are omitted; error messages are included."@,
            Tool::ListJobs => "List queued, dead, retrying or scheduled jobs with pagination. Arguments and resumable state are omitted; error messages are included. Lists may change between pages."@,
            Tool::GetJobMetrics => "Get worker execution metrics over the requested lookback. Retained for up to 24 hours."@,
            Tool::GetQueueMetrics => "Get per-minute queue length history over the requested lookback. Retained for up to 24 hours."@,
        }
    }

    /// All tools.
    pub fn all() -> (tools: Vec<Tool>)
        ensures
            tools@ == seq![
                Tool::GetOverview,
                Tool::ListQueues,
                Tool::ListProcesses,
                Tool::GetJob,
                Tool::ListJobs,
                Tool::GetJobMetrics,
                Tool::GetQueueMetrics,
            ],
    {
        vec![
            Tool::GetOverview,
            Tool::ListQueues,
            Tool::ListProcesses,
            Tool::GetJob,
            Tool::ListJobs,
            Tool::GetJobMetrics,
            Tool::GetQueueMetrics,
        ]
    }

    /// The name under which the tool is called.
    pub fn name(self) -> (name: &'static str)
        ensures
            name@ == self.spec_name(),
    {
        match self {
            Tool::GetOverview => "get_overview",
            Tool::ListQueues => "list_queues",
            Tool::ListProcesses => "list_processes",
            Tool::GetJob => "get_job",
            Tool::ListJobs => "list_jobs",
            Tool::GetJobMetrics => "get_job_metrics",
            Tool::GetQueueMetrics => "get_queue_metrics",
        }
    }

    /// What a client is told of the tool.
    pub fn description(self) -> (text: &'static str)
        ensures
            text@ == self.spec_description(),
    {
        match self {
            Tool::GetOverview => "Get global counts, queues, worker processes and currently processing jobs. Job arguments and resumable state are omitted.",
            Tool::ListQueues => "List queue statistics, including dynamic queues, latency and drain estimates.",
            Tool::ListProcesses => "List active worker processes and their heartbeat timestamps.",
            Tool::GetJob => "Inspect one job by ID. Returns null if absent. Arguments and resumable state are omitted; error messages are included.",
            Tool::ListJobs => "List queued, dead, retrying or scheduled jobs with pagination. Arguments and resumable state are omitted; error messages are included. Lists may change between pages.",
            Tool::GetJobMetrics => "Get worker execution metrics over the requested lookback. Retained for up to 24 hours.",
            Tool::GetQueueMetrics => "Get per-minute queue length history over the requested lookback. Retained for up to 24 hours.",
        }
    }

    /// What a client is told of the effects of the tool: every tool only reads,
    /// and may be called again.
    pub fn annotations(self) -> (annotations: Annotations)
        ensures
            annotations.read_only,
            !annotations.destructive,
            annotations.idempotent,
    {
        Annotations { read_only: true, destructive: false, idempotent: true }
    }
}

/// No two tools answer to the same name.
pub proof fn law_names_tell_tools_apart(a: Tool, b: Tool)
    ensures
        a.spec_name() == b.spec_name() <==> a == b,
{
    reveal_strlit("get_overview");
    reveal_strlit("list_queues");
    reveal_strlit("list_processes");
    reveal_strlit("get_job");
    reveal_strlit("list_jobs");
    reveal_strlit("get_job_metrics");
    reveal_strlit("get_queue_metrics");
    assert("get_overview"@.len() == 12 && "list_queues"@.len() == 11);
    assert("list_processes"@.len() == 14 && "get_job"@.len() == 7 && "list_jobs"@.len() == 9);
    assert("get_job_metrics"@.len() == 15 && "get_queue_metrics"@.len() == 17);
}

/// How the server introduces itself to a client.
#[derive(Debug, PartialEq, Eq)]
pub struct ServerInfo {
    pub name: String,
    pub version: String,
    /// How to use the server.
    pub instructions: String,
    /// Whether the server offers tools.
    pub tools: bool,
}

/// Each tool is offered under its own name and with the text that tells clients
/// what it reads and what it leaves out.
pub proof fn law_catalogue(tool: Tool)
    ensures
        tool is GetOverview ==> tool.spec_name() == "get_overview"@ && tool.spec_description()
            == "Get global counts, queues, worker processes and currently processing jobs. Job arguments and resumable state are omitted."@,
        tool is ListQueues ==> tool.spec_name() == "list_queues"@ && tool.spec_description()
            == "List queue statistics, including dynamic queues, latency and drain estimates."@,
        tool is ListProcesses ==> tool.spec_name() == "list_processes"@ && tool.spec_description()
            == "List active worker processes and their heartbeat timestamps."@,
        tool is GetJob ==> tool.spec_name() == "get_job"@ && tool.spec_description()
            == "Inspect one job by ID. Returns null if absent. Arguments and resumable state are omitted; error messages are included."@,
        tool is ListJobs ==> tool.spec_name() == "list_jobs"@ && tool.spec_description()
            == "List queued, dead, retrying or scheduled jobs with pagination. Arguments and resumable state are omitted; error messages are included. Lists may change between pages."@,
        tool is GetJobMetrics ==> tool.spec_name() == "get_job_metrics"@ && tool.spec_description()
            == "Get worker execution metrics over the requested lookback. Retained for up to 24 hours."@,
        tool is GetQueueMetrics ==> tool.spec_name() == "get_queue_metrics"@ && tool.spec_description()
            == "Get per-minute queue length history over the requested lookback. Retained for up to 24 hours."@,
{
}

} // verus!
