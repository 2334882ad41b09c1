use vstd::prelude::*;

verus! {

/// An identifier of a job, a test suite or a poll message, unique and opaque,
/// kept in the form it travels in on the wire.
pub type FlowSnake = String;

/// The stage a job has reached, as reported to the coordinator.
#[derive(Clone, Copy, Debug, PartialEq, Eq, Structural)]
pub enum JobStage {
    Fetching,
    Running,
    Aborted,
    Cancelled,
}

/// The verdict of a whole job.
#[derive(Clone, Copy, Debug, PartialEq, Eq, Structural)]
pub enum JobResultKind {
    Accepted,
    CompileError,
    PipelineError,
    JudgerError,
    OtherError,
}

/// The verdict of one test case.
#[derive(Clone, Copy, Debug, PartialEq, Eq, Structural)]
pub enum TestResultKind {
    Accepted,
    WrongAnswer,
    RuntimeError,
    TimeLimitExceeded,
    MemoryLimitExceeded,
    PipelineFailed,
    NotRunned,
    OtherError,
}

/// The outcome of one test case.
#[derive(Clone, Debug)]
pub struct TestResult {
    pub kind: TestResultKind,
    pub message: Option<String>,
}

/// A job as the coordinator hands it out.
#[derive(Clone, Debug)]
pub struct Job {
    pub id: FlowSnake,
    pub repo: String,
    pub revision: String,
    pub test_suite: FlowSnake,
    /// The test cases to run; all of them when empty.
    pub tests: Vec<String>,
}

/// The final report of a job.
#[derive(Clone, Debug)]
pub struct JobResultMsg {
    pub job_id: FlowSnake,
    pub results: Vec<(String, TestResult)>,
    pub job_result: JobResultKind,
    pub message: Option<String>,
}

/// A request for a server to abort a job.
#[derive(Clone, Debug)]
pub struct AbortJob {
    pub job_id: FlowSnake,
    /// Whether the abort is a user's cancel rather than a system abort.
    pub as_cancel: bool,
}

/// A message from the worker to the coordinator.
#[derive(Clone, Debug)]
pub enum ClientMsg {
    ClientStatus { active_task_count: u32, can_accept_new_task: bool },
    JobRequest { active_task_count: u32, request_for_new_task: u32, message_id: Option<FlowSnake> },
    JobProgress { job_id: FlowSnake, stage: JobStage },
    PartialResult { job_id: FlowSnake, test_id: String, test_result: TestResult },
    JobOutput { job_id: FlowSnake, stream: Option<String>, error: Option<String> },
    JobResult(JobResultMsg),
}

/// The body of a registration request.
#[derive(Clone, Debug)]
pub struct JudgerRegisterMessage {
    pub token: String,
    pub alternate_name: Option<String>,
    pub tags: Option<Vec<String>>,
}

/// A message from the coordinator to the worker.
#[derive(Clone, Debug)]
pub enum ServerMsg {
    ServerHello,
    MultiNewJob { reply_to: Option<FlowSnake>, jobs: Vec<Job> },
    AbortJob(AbortJob),
}

} // verus!
