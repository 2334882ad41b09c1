use crate::config::{
    copy_strings, join_path, spec_join, Image, JobConfig, JudgeToml, JudgerPrivateConfig, JudgerPublicConfig,
    TestSuiteOptions,
};
use crate::error::{
    extract_job_err, reported, spec_failure_kind, spec_failure_message,
    spec_reported, JobExecErr,
};
use crate::model::{AbortJob, ClientMsg, FlowSnake, Job, JobResultKind, JobResultMsg, JobStage, TestResult};
use crate::paths::{is_child_path, spec_is_child_path};
use vstd::prelude::*;
use vstd::string::StringExecFns;

verus! {

/// What kind of frame a message is, as far as the order of a job's frames goes.
pub enum Frame {
    Progress(JobStage),
    Partial,
    Output,
    Result,
    Other,
}

pub open spec fn frame_of(m: ClientMsg) -> Frame {
    match m {
        ClientMsg::JobProgress { job_id, stage } => Frame::Progress(stage),
        ClientMsg::PartialResult { .. } => Frame::Partial,
        ClientMsg::JobOutput { .. } => Frame::Output,
        ClientMsg::JobResult(_) => Frame::Result,
        _ => Frame::Other,
    }
}

pub open spec fn is_final_frame(f: Frame) -> bool {
    f is Result || f == Frame::Progress(JobStage::Aborted) || f == Frame::Progress(
        JobStage::Cancelled,
    )
}

/// The frames of a job still under way: nothing, or `Fetching`, then
/// possibly `Running` followed by partial results and build output.
pub open spec fn ordered_open(t: Seq<Frame>) -> bool {
    t.len() == 0 || (t[0] == Frame::Progress(JobStage::Fetching) && (t.len() == 1 || (t[1]
        == Frame::Progress(JobStage::Running) && forall|i: int|
        2 <= i < t.len() ==> (#[trigger] t[i] is Partial || t[i] is Output))))
}

/// The frames of a finished job: an open sequence closed by one final frame.
pub open spec fn ordered_frames(t: Seq<Frame>) -> bool {
    t.len() >= 1 && is_final_frame(t.last()) && ordered_open(t.drop_last())
}

pub open spec fn sent(m: Option<ClientMsg>) -> Seq<Frame> {
    match m {
        Some(m) => seq![frame_of(m)],
        None => Seq::empty(),
    }
}

/// How far a job has come.
#[derive(Clone, Copy, Debug, PartialEq, Eq, Structural)]
pub enum JobPhase {
    Created,
    FetchingSuite,
    Cloning,
    Configuring,
    CheckingPath,
    Running,
    Finished,
    Reported,
}

/// Everything needed to run a job's test suite.
pub struct SuiteRun {
    pub image: Image,
    /// The directory of the submission that holds its judge file.
    pub judge_root: String,
    pub public_cfg: JudgerPublicConfig,
    pub private_cfg: JudgerPrivateConfig,
    pub options: TestSuiteOptions,
    pub binds: Option<Vec<String>>,
}

/// The next piece of outside work a job needs.
pub enum JobAction {
    /// Make sure the suite is cached and read its configuration.
    FetchSuite { suite_id: FlowSnake },
    /// Clone a repository shallowly into a fresh directory.
    CloneRepo { repo: String, revision: String, depth: u32, path: String },
    /// Find the judge file under `root`, read and parse it.
    ReadJudgeFile { root: String },
    /// Tell whether any component of `path` under `root` is a symbolic link.
    CheckSymlinks { root: String, path: String },
    /// Build the image and run the suite in a container.
    RunSuite(SuiteRun),
    /// Nothing new; keep waiting on the current work.
    Wait,
    /// The job is over; its final report is due.
    Report,
}

/// What a step asks for: a frame to send first, if any, then the next work.
pub struct JobStep {
    pub send: Option<ClientMsg>,
    pub next: JobAction,
}

/// What outside work reports back to a job.
pub enum JobEvent {
    Start,
    SuiteFetched(Result<JudgerPublicConfig, JobExecErr>),
    Cloned(Result<(), JobExecErr>),
    /// The directory holding the judge file, and its contents.
    JudgeFileRead(Result<(String, JudgeToml), JobExecErr>),
    SymlinksChecked(bool),
    Partial(String, TestResult),
    Output(Option<String>, Option<String>),
    SuiteRan(Result<Vec<(String, TestResult)>, JobExecErr>),
    /// The job's cancellation token fired during the current work.
    Cancelled,
}

/// Whether `i` is the index of the first configuration named `name`.
pub open spec fn first_config(jobs: Seq<(String, JobConfig)>, name: Seq<char>, i: int) -> bool {
    &&& 0 <= i < jobs.len()
    &&& jobs[i].0@ == name
    &&& forall|j: int| 0 <= j < i ==> (#[trigger] jobs[j]).0@ != name
}

fn find_job_config(jobs: &Vec<(String, JobConfig)>, name: &String) -> (r: Option<usize>)
    ensures
        r is Some ==> first_config(jobs@, name@, r.unwrap() as int),
        r is None ==> forall|j: int| 0 <= j < jobs@.len() ==> (#[trigger] jobs@[j]).0@ != name@,
{
    let mut i: usize = 0;
    while i < jobs.len()
        invariant
            0 <= i <= jobs@.len(),
            forall|j: int| 0 <= j < i ==> (#[trigger] jobs@[j]).0@ != name@,
        decreases jobs@.len() - i,
    {
        if jobs[i].0 == *name {
            return Some(i);
        }
        i = i + 1;
    }
    None
}

/// The stage a cancelled job reports: a user's cancel unless the abort
/// request says it was a system abort.
pub open spec fn spec_cancel_stage(info: Option<AbortJob>) -> JobStage {
    match info {
        Some(a) => if a.as_cancel {
            JobStage::Cancelled
        } else {
            JobStage::Aborted
        },
        None => JobStage::Cancelled,
    }
}

pub fn cancel_stage(info: &Option<AbortJob>) -> (r: JobStage)
    ensures
        r == spec_cancel_stage(*info),
{
    match info {
        Some(a) => if a.as_cancel {
            JobStage::Cancelled
        } else {
            JobStage::Aborted
        },
        None => JobStage::Cancelled,
    }
}

/// The run of a suite as planned for `job`: the submission's image, steps
/// and bindings; the job's steps before the suite's; the suite's limits and
/// test cases; the job's test filter; the suite's test directory on the host
/// (under `suite_dir`) and in the container; the image built and removed.
pub open spec fn planned_run(
    job: Job,
    suite_dir: Seq<char>,
    public_cfg: JudgerPublicConfig,
    job_cfg: JobConfig,
    judge_root: Seq<char>,
    r: SuiteRun,
) -> bool {
    &&& r.image == job_cfg.image
    &&& r.judge_root@ == judge_root
    &&& r.binds == job_cfg.binds
    &&& r.public_cfg.name == public_cfg.name
    &&& r.public_cfg.run@ == job_cfg.run@ + public_cfg.run@
    &&& r.public_cfg.test_cases == public_cfg.test_cases
    &&& r.private_cfg.test_root_dir@ == spec_join(suite_dir, public_cfg.mapped_dir.from@)
    &&& r.private_cfg.mapped_test_root_dir@ == public_cfg.mapped_dir.to@
    &&& r.options.tests@.len() == job.tests@.len()
    &&& forall|i: int|
        0 <= i < job.tests@.len() ==> (#[trigger] r.options.tests@[i])@ == job.tests@[i]@
    &&& r.options.time_limit == public_cfg.time_limit
    &&& r.options.mem_limit == public_cfg.memory_limit
    &&& r.options.build_image
    &&& r.options.remove_image
}

/// The step sends the progress frame `stage` of `job`.
pub open spec fn sends_progress(r: JobStep, job: Job, stage: JobStage) -> bool {
    &&& r.send is Some
    &&& r.send->Some_0 is JobProgress
    &&& r.send->Some_0->JobProgress_job_id@ == job.id@
    &&& r.send->Some_0->JobProgress_stage == stage
}

/// The step ends the job with `outcome` and asks for its report.
pub open spec fn ends_with(p: JobPipeline, r: JobStep, outcome: Result<JobResultMsg, JobExecErr>) -> bool {
    &&& p.phase() == JobPhase::Finished
    &&& p.outcome() == Some(outcome)
    &&& r.send is None
    &&& r.next is Report
}

/// The step ends the job with a failure reported as a compile error.
pub open spec fn ends_in_compile_error(p: JobPipeline, r: JobStep) -> bool {
    &&& p.phase() == JobPhase::Finished
    &&& p.outcome() is Some
    &&& p.outcome()->Some_0 is Err
    &&& spec_failure_kind(p.outcome()->Some_0->Err_0) == JobResultKind::CompileError
    &&& r.send is None
    &&& r.next is Report
}

/// What each event does in each phase; events that do not fit the phase are
/// ignored.
pub open spec fn step_taken(p: JobPipeline, event: JobEvent, q: JobPipeline, r: JobStep) -> bool {
    let job = p.job();
    match p.phase() {
        JobPhase::Created => match event {
            JobEvent::Start => {
                &&& q.phase() == JobPhase::FetchingSuite
                &&& r.send is None
                &&& r.next is FetchSuite
                &&& r.next->FetchSuite_suite_id@ == job.test_suite@
            },
            JobEvent::Cancelled => ends_with(q, r, Err(JobExecErr::Cancelled)),
            _ => q.phase() == p.phase() && r.send is None,
        },
        JobPhase::FetchingSuite => match event {
            JobEvent::SuiteFetched(Ok(cfg)) => {
                &&& q.phase() == JobPhase::Cloning
                &&& q.public_cfg() is Some
                &&& q.public_cfg()->Some_0.run == cfg.run
                &&& q.public_cfg()->Some_0.name == cfg.name
                &&& sends_progress(r, job, JobStage::Fetching)
                &&& r.next is CloneRepo
                &&& r.next->CloneRepo_repo@ == job.repo@
                &&& r.next->CloneRepo_revision@ == job.revision@
                &&& r.next->CloneRepo_depth == 3
                &&& r.next->CloneRepo_path@ == p.job_dir()
            },
            JobEvent::SuiteFetched(Err(e)) => ends_with(q, r, Err(e)),
            JobEvent::Cancelled => ends_with(q, r, Err(JobExecErr::Cancelled)),
            _ => q.phase() == p.phase() && r.send is None,
        },
        JobPhase::Cloning => match event {
            JobEvent::Cloned(Ok(_)) => {
                &&& q.phase() == JobPhase::Configuring
                &&& q.public_cfg() == p.public_cfg()
                &&& r.send is None
                &&& r.next is ReadJudgeFile
                &&& r.next->ReadJudgeFile_root@ == p.job_dir()
            },
            JobEvent::Cloned(Err(e)) => ends_with(q, r, Err(e)),
            JobEvent::Cancelled => ends_with(q, r, Err(JobExecErr::Aborted)),
            _ => q.phase() == p.phase() && r.send is None,
        },
        JobPhase::Configuring => match event {
            JobEvent::JudgeFileRead(Ok((root, judge))) => configured(p, root, judge, q, r),
            JobEvent::JudgeFileRead(Err(e)) => ends_with(q, r, Err(e)),
            JobEvent::Cancelled => ends_with(q, r, Err(JobExecErr::Cancelled)),
            _ => q.phase() == p.phase() && r.send is None,
        },
        JobPhase::CheckingPath => match event {
            JobEvent::SymlinksChecked(found) => if found {
                ends_in_compile_error(q, r)
            } else {
                q.phase() == JobPhase::Running && sends_progress(r, job, JobStage::Running)
                    && p.pending() is Some && r.next == JobAction::RunSuite(p.pending()->Some_0)
            },
            JobEvent::Cancelled => ends_with(q, r, Err(JobExecErr::Cancelled)),
            _ => q.phase() == p.phase() && r.send is None,
        },
        JobPhase::Running => match event {
            JobEvent::Partial(test_id, test_result) => {
                &&& q.phase() == JobPhase::Running
                &&& r.send is Some
                &&& r.send->Some_0 is PartialResult
                &&& r.send->Some_0->PartialResult_job_id@ == job.id@
                &&& r.send->Some_0->PartialResult_test_id == test_id
                &&& r.send->Some_0->PartialResult_test_result == test_result
                &&& r.next is Wait
            },
            JobEvent::Output(stream, error) => {
                &&& q.phase() == JobPhase::Running
                &&& r.send is Some
                &&& r.send->Some_0 is JobOutput
                &&& r.send->Some_0->JobOutput_job_id@ == job.id@
                &&& r.send->Some_0->JobOutput_stream == stream
                &&& r.send->Some_0->JobOutput_error == error
                &&& r.next is Wait
            },
            JobEvent::SuiteRan(Ok(results)) => {
                &&& q.phase() == JobPhase::Finished
                &&& q.outcome() is Some
                &&& q.outcome()->Some_0 is Ok
                &&& q.outcome()->Some_0->Ok_0.job_id@ == job.id@
                &&& q.outcome()->Some_0->Ok_0.results == results
                &&& q.outcome()->Some_0->Ok_0.job_result == JobResultKind::Accepted
                &&& q.outcome()->Some_0->Ok_0.message is None
                &&& r.send is None
                &&& r.next is Report
            },
            JobEvent::SuiteRan(Err(e)) => ends_with(q, r, Err(e)),
            JobEvent::Cancelled => ends_with(q, r, Err(JobExecErr::Cancelled)),
            _ => q.phase() == p.phase() && r.send is None,
        },
        _ => q.phase() == p.phase() && q.outcome() == p.outcome() && r.send is None,
    }
}

/// A job whose cancellation token fires before it finished ends at the next
/// step, with its report due, whatever it was doing; a cancelled clone counts
/// as an abort, any other cancelled step as a cancel.
pub proof fn lemma_cancel_ends_job(p: JobPipeline, q: JobPipeline, r: JobStep)
    requires
        p.phase() != JobPhase::Finished,
        p.phase() != JobPhase::Reported,
        step_taken(p, JobEvent::Cancelled, q, r),
    ensures
        q.phase() == JobPhase::Finished,
        r.next is Report,
        q.outcome() == Some(
            Result::<JobResultMsg, JobExecErr>::Err(
                if p.phase() == JobPhase::Cloning {
                    JobExecErr::Aborted
                } else {
                    JobExecErr::Cancelled
                },
            ),
        ),
{
}

/// What reading the judge file does: the job's configuration is the first one
/// named after the suite; a Dockerfile path that leaves the repository is a
/// compile error; one that stays inside still has its symbolic links checked; a
/// prebuilt image goes straight to running, with the job's steps before the
/// suite's.
pub open spec fn configured(p: JobPipeline, root: String, judge: JudgeToml, q: JobPipeline, r: JobStep) -> bool {
    let name = p.public_cfg()->Some_0.name@;
    let jobs = judge.jobs@;
    &&& (forall|j: int| 0 <= j < jobs.len() ==> (#[trigger] jobs[j]).0@ != name) ==> ends_with(
        q,
        r,
        Err(JobExecErr::NoSuchConfig(p.public_cfg()->Some_0.name)),
    )
    &&& forall|i: int|
        #![trigger jobs[i]]
        first_config(jobs, name, i) ==> {
            let image = jobs[i].1.image;
            &&& (image is Dockerfile && !spec_is_child_path(image->Dockerfile_path@))
                ==> ends_in_compile_error(q, r)
            &&& (image is Dockerfile && spec_is_child_path(image->Dockerfile_path@)) ==> {
                &&& q.phase() == JobPhase::CheckingPath
                &&& q.pending() is Some
                &&& planned_run(
                    p.job(),
                    p.suite_dir(),
                    p.public_cfg()->Some_0,
                    jobs[i].1,
                    root@,
                    q.pending()->Some_0,
                )
                &&& r.send is None
                &&& r.next is CheckSymlinks
                &&& r.next->CheckSymlinks_root@ == root@
                &&& r.next->CheckSymlinks_path@ == image->Dockerfile_path@
            }
            &&& image is Prebuilt ==> {
                &&& q.phase() == JobPhase::Running
                &&& sends_progress(r, p.job(), JobStage::Running)
                &&& r.next is RunSuite
                &&& planned_run(
                    p.job(),
                    p.suite_dir(),
                    p.public_cfg()->Some_0,
                    jobs[i].1,
                    root@,
                    r.next->RunSuite_0,
                )
            }
        }
}

/// The final frame of a job that ended with `outcome`: its result when it
/// succeeded; a progress frame when it was cancelled or aborted (a cancel
/// counts as an abort when the abort request says so); otherwise the failure's
/// verdict and explanation.
pub open spec fn final_report(
    outcome: Result<JobResultMsg, JobExecErr>,
    job_id: Seq<char>,
    info: Option<AbortJob>,
    msg: ClientMsg,
) -> bool {
    match outcome {
        Ok(res) => msg == ClientMsg::JobResult(res),
        Err(e) => match spec_reported(e) {
            JobExecErr::Aborted => msg is JobProgress && msg->JobProgress_job_id@ == job_id
                && msg->JobProgress_stage == JobStage::Aborted,
            JobExecErr::Cancelled => msg is JobProgress && msg->JobProgress_job_id@ == job_id
                && msg->JobProgress_stage == spec_cancel_stage(info),
            _ => {
                &&& msg is JobResult
                &&& msg->JobResult_0.job_id@ == job_id
                &&& msg->JobResult_0.results@.len() == 0
                &&& msg->JobResult_0.job_result == spec_failure_kind(e)
                &&& msg->JobResult_0.message is Some
                &&& msg->JobResult_0.message->Some_0@ == spec_failure_message(e)
            },
        },
    }
}

/// The decisions of one job, from fetching its suite to its final report.
/// Outside work is asked for by the steps it returns and reported back as
/// events.
pub struct JobPipeline {
    job: Job,
    job_dir: String,
    suite_dir: String,
    phase: JobPhase,
    public_cfg: Option<JudgerPublicConfig>,
    pending: Option<SuiteRun>,
    outcome: Option<Result<JobResultMsg, JobExecErr>>,
    frames: Ghost<Seq<Frame>>,
}

impl JobPipeline {
    pub closed spec fn phase(&self) -> JobPhase {
        self.phase
    }

    pub closed spec fn job(&self) -> Job {
        self.job
    }

    pub closed spec fn job_dir(&self) -> Seq<char> {
        self.job_dir@
    }

    pub closed spec fn suite_dir(&self) -> Seq<char> {
        self.suite_dir@
    }

    /// Every frame of this job sent so far, in order.
    pub closed spec fn frames(&self) -> Seq<Frame> {
        self.frames@
    }

    /// How the job ended, once it has.
    pub closed spec fn outcome(&self) -> Option<Result<JobResultMsg, JobExecErr>> {
        self.outcome
    }

    /// The run planned while the Dockerfile path is checked.
    pub closed spec fn pending(&self) -> Option<SuiteRun> {
        self.pending
    }

    /// The suite configuration, once fetched and until handed to the run.
    pub closed spec fn public_cfg(&self) -> Option<JudgerPublicConfig> {
        self.public_cfg
    }

    pub closed spec fn wf(&self) -> bool {
        let t = self.frames@;
        match self.phase {
            JobPhase::Created => t.len() == 0,
            JobPhase::FetchingSuite => t.len() == 0,
            JobPhase::Cloning => t == seq![Frame::Progress(JobStage::Fetching)]
                && self.public_cfg is Some,
            JobPhase::Configuring => t == seq![Frame::Progress(JobStage::Fetching)]
                && self.public_cfg is Some,
            JobPhase::CheckingPath => t == seq![Frame::Progress(JobStage::Fetching)]
                && self.pending is Some,
            JobPhase::Running => t.len() >= 2 && ordered_open(t),
            JobPhase::Finished => ordered_open(t) && self.outcome is Some,
            JobPhase::Reported => ordered_frames(t),
        }
    }

    /// A job about to start; `job_dir` is its workspace, `suite_dir` where its
    /// suite is cached.
    pub fn new(job: Job, job_dir: String, suite_dir: String) -> (r: JobPipeline)
        ensures
            r.wf(),
            r.phase() == JobPhase::Created,
            r.job() == job,
            r.job_dir() == job_dir@,
            r.suite_dir() == suite_dir@,
            r.frames() == Seq::<Frame>::empty(),
    {
        JobPipeline {
            job,
            job_dir,
            suite_dir,
            phase: JobPhase::Created,
            public_cfg: None,
            pending: None,
            outcome: None,
            frames: Ghost(Seq::empty()),
        }
    }

    pub fn current_phase(&self) -> (r: JobPhase)
        ensures
            r == self.phase(),
    {
        self.phase
    }

    fn finish(&mut self, outcome: Result<JobResultMsg, JobExecErr>) -> (r: JobStep)
        requires
            ordered_open(old(self).frames@),
        ensures
            final(self).phase == JobPhase::Finished,
            final(self).outcome == Some(outcome),
            final(self).frames@ == old(self).frames@,
            final(self).job == old(self).job,
            final(self).job_dir == old(self).job_dir,
            final(self).suite_dir == old(self).suite_dir,
            final(self).wf(),
            r.send is None,
            r.next is Report,
    {
        self.phase = JobPhase::Finished;
        self.outcome = Some(outcome);
        JobStep { send: None, next: JobAction::Report }
    }

    fn start_running(&mut self, run: SuiteRun) -> (r: JobStep)
        requires
            old(self).frames@ == seq![Frame::Progress(JobStage::Fetching)],
        ensures
            final(self).phase == JobPhase::Running,
            final(self).frames@ == old(self).frames@ + sent(r.send),
            final(self).job == old(self).job,
            final(self).job_dir == old(self).job_dir,
            final(self).suite_dir == old(self).suite_dir,
            final(self).outcome == old(self).outcome,
            final(self).wf(),
            sends_progress(r, old(self).job, JobStage::Running),
            r.next == JobAction::RunSuite(run),
    {
        self.phase = JobPhase::Running;
        let msg = ClientMsg::JobProgress { job_id: self.job.id.clone(), stage: JobStage::Running };
        proof {
            self.frames@ = self.frames@.push(Frame::Progress(JobStage::Running));
            assert(self.frames@ =~= seq![
                Frame::Progress(JobStage::Fetching),
                Frame::Progress(JobStage::Running),
            ]);
        }
        let r = JobStep { send: Some(msg), next: JobAction::RunSuite(run) };
        assert(sent(r.send) =~= seq![Frame::Progress(JobStage::Running)]);
        assert(self.frames@ =~= old(self).frames@ + sent(r.send));
        r
    }

    /// Plans the run of the suite once the job's configuration is settled.
    fn plan_run(&self, public_cfg: JudgerPublicConfig, job_cfg: JobConfig, judge_root: String) -> (r:
        SuiteRun)
        ensures
            planned_run(self.job, self.suite_dir@, public_cfg, job_cfg, judge_root@, r),
    {
        let JobConfig { image, run: mut job_run, binds } = job_cfg;
        let JudgerPublicConfig {
            name,
            mapped_dir,
            run: mut suite_run,
            time_limit,
            memory_limit,
            binds: suite_binds,
            test_cases,
        } = public_cfg;
        let test_root_dir = join_path(self.suite_dir.as_str(), mapped_dir.from.as_str());
        let mapped_test_root_dir = mapped_dir.to.clone();
        job_run.append(&mut suite_run);
        let merged = JudgerPublicConfig {
            name,
            mapped_dir,
            run: job_run,
            time_limit,
            memory_limit,
            binds: suite_binds,
            test_cases,
        };
        let tests = copy_strings(&self.job.tests);
        SuiteRun {
            image,
            judge_root,
            public_cfg: merged,
            private_cfg: JudgerPrivateConfig { test_root_dir, mapped_test_root_dir },
            options: TestSuiteOptions {
                tests,
                time_limit,
                mem_limit: memory_limit,
                build_image: true,
                remove_image: true,
            },
            binds,
        }
    }

    fn configure(&mut self, judge_root: String, judge: JudgeToml) -> (r: JobStep)
        requires
            old(self).wf(),
            old(self).phase == JobPhase::Configuring,
        ensures
            final(self).wf(),
            final(self).frames@ == old(self).frames@ + sent(r.send),
            final(self).job == old(self).job,
            final(self).job_dir == old(self).job_dir,
            final(self).suite_dir == old(self).suite_dir,
            configured(*old(self), judge_root, judge, *final(self), r),
    {
        let public_cfg = self.public_cfg.take().unwrap();
        let JudgeToml { mut jobs } = judge;
        let ghost jobs0 = jobs@;
        match find_job_config(&jobs, &public_cfg.name) {
            None => {
                let name = public_cfg.name;
                self.finish(Err(JobExecErr::NoSuchConfig(name)))
            },
            Some(i) => {
                let (_, job_cfg) = jobs.remove(i);
                proof {
                    assert forall|k: int| #![trigger jobs0[k]] first_config(jobs0, public_cfg.name@, k) implies k == i by {
                        if k < i {
                            assert(jobs0[k].0@ != public_cfg.name@);
                        } else if k > i {
                            assert(jobs0[i as int].0@ != public_cfg.name@);
                        }
                    }
                }
                let dockerfile_path = match &job_cfg.image {
                    Image::Dockerfile { path, .. } => Some(path.clone()),
                    Image::Prebuilt { .. } => None,
                };
                match dockerfile_path {
                    Some(path) => {
                        if !is_child_path(path.as_str()) {
                            let msg = String::from_str("Dockerfile path leaves the repository: ").concat(
                                path.as_str(),
                            );
                            self.finish(Err(JobExecErr::Build(msg)))
                        } else {
                            let root = judge_root.clone();
                            let run = self.plan_run(public_cfg, job_cfg, judge_root);
                            self.pending = Some(run);
                            self.phase = JobPhase::CheckingPath;
                            JobStep { send: None, next: JobAction::CheckSymlinks { root, path } }
                        }
                    },
                    None => {
                        let run = self.plan_run(public_cfg, job_cfg, judge_root);
                        self.start_running(run)
                    },
                }
            },
        }
    }

    /// Takes the report of one piece of outside work and says what to send
    /// and what to do next.
    pub fn step(&mut self, event: JobEvent) -> (r: JobStep)
        requires
            old(self).wf(),
        ensures
            final(self).wf(),
            final(self).frames() == old(self).frames() + sent(r.send),
            final(self).job() == old(self).job(),
            final(self).job_dir() == old(self).job_dir(),
            final(self).suite_dir() == old(self).suite_dir(),
            step_taken(*old(self), event, *final(self), r),
    {
        match self.phase {
            JobPhase::Created => match event {
                JobEvent::Start => {
                    self.phase = JobPhase::FetchingSuite;
                    JobStep {
                        send: None,
                        next: JobAction::FetchSuite { suite_id: self.job.test_suite.clone() },
                    }
                },
                JobEvent::Cancelled => self.finish(Err(JobExecErr::Cancelled)),
                _ => JobStep { send: None, next: JobAction::Wait },
            },
            JobPhase::FetchingSuite => match event {
                JobEvent::SuiteFetched(Ok(mut cfg)) => {
                    if cfg.binds.is_none() {
                        cfg.binds = Some(Vec::new());
                    }
                    self.public_cfg = Some(cfg);
                    self.phase = JobPhase::Cloning;
                    proof {
                        self.frames@ = self.frames@.push(Frame::Progress(JobStage::Fetching));
                        assert(self.frames@ =~= seq![Frame::Progress(JobStage::Fetching)]);
                    }
                    JobStep {
                        send: Some(
                            ClientMsg::JobProgress {
                                job_id: self.job.id.clone(),
                                stage: JobStage::Fetching,
                            },
                        ),
                        next: JobAction::CloneRepo {
                            repo: self.job.repo.clone(),
                            revision: self.job.revision.clone(),
                            depth: 3,
                            path: self.job_dir.clone(),
                        },
                    }
                },
                JobEvent::SuiteFetched(Err(e)) => self.finish(Err(e)),
                JobEvent::Cancelled => self.finish(Err(JobExecErr::Cancelled)),
                _ => JobStep { send: None, next: JobAction::Wait },
            },
            JobPhase::Cloning => match event {
                JobEvent::Cloned(Ok(())) => {
                    self.phase = JobPhase::Configuring;
                    JobStep {
                        send: None,
                        next: JobAction::ReadJudgeFile { root: self.job_dir.clone() },
                    }
                },
                JobEvent::Cloned(Err(e)) => self.finish(Err(e)),
                JobEvent::Cancelled => self.finish(Err(JobExecErr::Aborted)),
                _ => JobStep { send: None, next: JobAction::Wait },
            },
            JobPhase::Configuring => match event {
                JobEvent::JudgeFileRead(Ok((root, judge))) => self.configure(root, judge),
                JobEvent::JudgeFileRead(Err(e)) => self.finish(Err(e)),
                JobEvent::Cancelled => self.finish(Err(JobExecErr::Cancelled)),
                _ => JobStep { send: None, next: JobAction::Wait },
            },
            JobPhase::CheckingPath => match event {
                JobEvent::SymlinksChecked(found) => {
                    if found {
                        self.pending = None;
                        self.finish(
                            Err(
                                JobExecErr::Build(
                                    String::from_str("Dockerfile path passes through a symbolic link"),
                                ),
                            ),
                        )
                    } else {
                        let run = self.pending.take().unwrap();
                        self.start_running(run)
                    }
                },
                JobEvent::Cancelled => self.finish(Err(JobExecErr::Cancelled)),
                _ => JobStep { send: None, next: JobAction::Wait },
            },
            JobPhase::Running => match event {
                JobEvent::Partial(test_id, test_result) => {
                    proof {
                        let t0 = self.frames@;
                        self.frames@ = self.frames@.push(Frame::Partial);
                        assert(self.frames@.subrange(0, t0.len() as int) =~= t0);
                    }
                    JobStep {
                        send: Some(
                            ClientMsg::PartialResult {
                                job_id: self.job.id.clone(),
                                test_id,
                                test_result,
                            },
                        ),
                        next: JobAction::Wait,
                    }
                },
                JobEvent::Output(stream, error) => {
                    proof {
                        self.frames@ = self.frames@.push(Frame::Output);
                    }
                    JobStep {
                        send: Some(
                            ClientMsg::JobOutput { job_id: self.job.id.clone(), stream, error },
                        ),
                        next: JobAction::Wait,
                    }
                },
                JobEvent::SuiteRan(Ok(results)) => {
                    let msg = JobResultMsg {
                        job_id: self.job.id.clone(),
                        results,
                        job_result: JobResultKind::Accepted,
                        message: None,
                    };
                    self.finish(Ok(msg))
                },
                JobEvent::SuiteRan(Err(e)) => self.finish(Err(e)),
                JobEvent::Cancelled => self.finish(Err(JobExecErr::Cancelled)),
                _ => JobStep { send: None, next: JobAction::Wait },
            },
            JobPhase::Finished => JobStep { send: None, next: JobAction::Report },
            JobPhase::Reported => JobStep { send: None, next: JobAction::Wait },
        }
    }

    /// The final frame of a finished job. `info` is the abort request that
    /// cancelled it, if one did. Whatever happened, the job's frames come in
    /// the order `Fetching`, then `Running` and partial results, then one
    /// final frame, with each part but the last possibly missing.
    pub fn report(&mut self, info: &Option<AbortJob>) -> (msg: ClientMsg)
        requires
            old(self).wf(),
            old(self).phase() == JobPhase::Finished,
        ensures
            final(self).wf(),
            final(self).phase() == JobPhase::Reported,
            final(self).job() == old(self).job(),
            final(self).frames() == old(self).frames().push(frame_of(msg)),
            ordered_frames(final(self).frames()),
            final_report(old(self).outcome()->Some_0, old(self).job().id@, *info, msg),
    {
        let outcome = self.outcome.take().unwrap();
        let msg = match outcome {
            Ok(res) => ClientMsg::JobResult(res),
            Err(e) => {
                let rep = reported(&e);
                match rep {
                    JobExecErr::Aborted => ClientMsg::JobProgress {
                        job_id: self.job.id.clone(),
                        stage: JobStage::Aborted,
                    },
                    JobExecErr::Cancelled => ClientMsg::JobProgress {
                        job_id: self.job.id.clone(),
                        stage: cancel_stage(info),
                    },
                    _ => extract_job_err(self.job.id.clone(), &e),
                }
            },
        };
        self.phase = JobPhase::Reported;
        proof {
            let t0 = self.frames@;
            self.frames@ = self.frames@.push(frame_of(msg));
            assert(self.frames@.drop_last() =~= t0);
        }
        msg
    }
}

} // verus!
