use crate::model::{ClientMsg, FlowSnake, JobResultKind, JobResultMsg};
use vstd::prelude::*;
use vstd::string::StringExecFns;

verus! {

/// Why a job could not finish. Failures of outside services carry their
/// description as text.
pub enum JobExecErr {
    NoSuchFile(String),
    NoSuchConfig(String),
    Io(String),
    Ws(String),
    Json(String),
    TomlDes(String),
    Request(String),
    Build(String),
    Exec(String),
    Git(String),
    /// An error of no known kind: its description, and the errors of known
    /// kinds found along its chain of causes, outermost first.
    Any { description: String, causes: Vec<JobExecErr> },
    Cancelled,
    Aborted,
}

/// Whether an error stands for cooperative cancellation rather than a failure.
pub open spec fn is_cancellation(e: JobExecErr) -> bool {
    e is Cancelled || e is Aborted
}

/// The error that decides how a failure is reported: the innermost error of a
/// known kind along the chain of causes, or the error itself.
pub open spec fn spec_reported(e: JobExecErr) -> JobExecErr
    decreases e,
{
    match e {
        JobExecErr::Any { description, causes } => if causes.len() > 0 {
            spec_reported(causes@.last())
        } else {
            e
        },
        _ => e,
    }
}

/// The verdict a failure maps to.
pub open spec fn spec_failure_kind(e: JobExecErr) -> JobResultKind {
    match spec_reported(e) {
        JobExecErr::NoSuchFile(_) => JobResultKind::CompileError,
        JobExecErr::NoSuchConfig(_) => JobResultKind::CompileError,
        JobExecErr::Git(_) => JobResultKind::CompileError,
        JobExecErr::Build(_) => JobResultKind::CompileError,
        JobExecErr::Exec(_) => JobResultKind::PipelineError,
        JobExecErr::Io(_) => JobResultKind::JudgerError,
        JobExecErr::Ws(_) => JobResultKind::JudgerError,
        JobExecErr::Json(_) => JobResultKind::JudgerError,
        JobExecErr::TomlDes(_) => JobResultKind::JudgerError,
        JobExecErr::Request(_) => JobResultKind::JudgerError,
        _ => JobResultKind::OtherError,
    }
}

/// The text that reports a failure.
pub open spec fn spec_failure_message(e: JobExecErr) -> Seq<char> {
    match spec_reported(e) {
        JobExecErr::NoSuchFile(f) => "Cannot find file: "@ + f@,
        JobExecErr::NoSuchConfig(f) => "Cannot find config for "@ + f@ + " in `judger.toml`"@,
        JobExecErr::Io(d) => "IO error: "@ + d@,
        JobExecErr::Ws(d) => "Websocket error: "@ + d@,
        JobExecErr::Json(d) => "JSON error: "@ + d@,
        JobExecErr::TomlDes(d) => "TOML deserialization error: "@ + d@,
        JobExecErr::Request(d) => "Web request error: "@ + d@,
        JobExecErr::Build(d) => d@,
        JobExecErr::Exec(d) => d@,
        JobExecErr::Git(d) => d@,
        JobExecErr::Any { description, causes } => description@,
        _ => Seq::empty(),
    }
}

/// Whether no cancellation hides along the chain of causes.
pub open spec fn reports_failure(e: JobExecErr) -> bool {
    !is_cancellation(spec_reported(e))
}

pub(crate) fn reported(e: &JobExecErr) -> (r: &JobExecErr)
    ensures
        *r == spec_reported(*e),
    decreases e,
{
    match e {
        JobExecErr::Any { description, causes } => {
            if causes.len() > 0 {
                proof {
                    assert(decreases_to!(causes => causes@));
                    assert(decreases_to!(causes@ => causes@[causes@.len() - 1]));
                }
                reported(&causes[causes.len() - 1])
            } else {
                e
            }
        },
        _ => e,
    }
}

fn prefixed(prefix: &str, text: &String) -> (r: String)
    ensures
        r@ == prefix@ + text@,
{
    String::from_str(prefix).concat(text.as_str())
}

/// The final report of a job that failed with `err`: its verdict and the text
/// that explains it, with no test results.
pub fn extract_job_err(job_id: FlowSnake, err: &JobExecErr) -> (r: ClientMsg)
    requires
        reports_failure(*err),
    ensures
        r == ClientMsg::JobResult(
            JobResultMsg {
                job_id,
                results: r->JobResult_0.results,
                job_result: spec_failure_kind(*err),
                message: r->JobResult_0.message,
            },
        ),
        r->JobResult_0.results@.len() == 0,
        r->JobResult_0.message is Some,
        r->JobResult_0.message.unwrap()@ == spec_failure_message(*err),
{
    let e = reported(err);
    let (kind, message) = match e {
        JobExecErr::NoSuchFile(f) => (JobResultKind::CompileError, prefixed("Cannot find file: ", f)),
        JobExecErr::NoSuchConfig(f) => (
            JobResultKind::CompileError,
            prefixed("Cannot find config for ", f).concat(" in `judger.toml`"),
        ),
        JobExecErr::Io(d) => (JobResultKind::JudgerError, prefixed("IO error: ", d)),
        JobExecErr::Ws(d) => (JobResultKind::JudgerError, prefixed("Websocket error: ", d)),
        JobExecErr::Json(d) => (JobResultKind::JudgerError, prefixed("JSON error: ", d)),
        JobExecErr::TomlDes(d) => (
            JobResultKind::JudgerError,
            prefixed("TOML deserialization error: ", d),
        ),
        JobExecErr::Request(d) => (JobResultKind::JudgerError, prefixed("Web request error: ", d)),
        JobExecErr::Build(d) => (JobResultKind::CompileError, d.clone()),
        JobExecErr::Exec(d) => (JobResultKind::PipelineError, d.clone()),
        JobExecErr::Git(d) => (JobResultKind::CompileError, d.clone()),
        JobExecErr::Any { description, causes } => (JobResultKind::OtherError, description.clone()),
        JobExecErr::Cancelled => (JobResultKind::OtherError, String::new()),
        JobExecErr::Aborted => (JobResultKind::OtherError, String::new()),
    };
    ClientMsg::JobResult(
        JobResultMsg { job_id, results: Vec::new(), job_result: kind, message: Some(message) },
    )
}

} // verus!
