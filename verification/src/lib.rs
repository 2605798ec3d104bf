//! The decisions of a read-only monitoring server for a job queue.
//!
//! [`router`] settles the bearer token, [`authenticate`] guards every request,
//! [`OxanaMcp`] turns what was read from storage into replies, and [`JobPage`]
//! cuts the dashboard's job lists into pages. Reading storage and serving HTTP
//! are left to the application around this library.

pub mod auth;
pub mod job;
pub mod json;
pub mod outside;
pub mod pagination;
pub mod query;
pub mod server;
pub mod tool;

pub use auth::{authenticate, router, Challenge, InvalidBearerToken, RouterPlan};
pub use job::{job_summary, Job, JobEnvelope, JobMeta};
pub use json::{Field, Json};
pub use pagination::{JobPage, JOBS_PER_PAGE};
pub use query::{
    JobList, JobListQuery, JobRequest, JobSource, ListJobsRequest, MetricsRequest, QueueListOpts,
    RequestError,
};
pub use server::{OxanaMcp, ProcessingJob, Reading, Stats, ToolReply};
pub use tool::{Annotations, ServerInfo, Tool};
