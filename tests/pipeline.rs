use judger::config::{Image, JobConfig, JudgeToml, JudgerPublicConfig, MappedDir};
use judger::error::JobExecErr;
use judger::model::{AbortJob, ClientMsg, Job, JobResultKind, JobStage, TestResult, TestResultKind};
use judger::pipeline::{JobAction, JobEvent, JobPhase, JobPipeline};

fn job() -> Job {
    Job {
        id: "J".to_string(),
        repo: "https://example.com/sub.git".to_string(),
        revision: "abc123".to_string(),
        test_suite: "S".to_string(),
        tests: vec![],
    }
}

fn suite_cfg() -> JudgerPublicConfig {
    JudgerPublicConfig {
        name: "hello".to_string(),
        mapped_dir: MappedDir { from: "tests".to_string(), to: "/tests".to_string() },
        run: vec!["echo hi".to_string()],
        time_limit: Some(10),
        memory_limit: None,
        binds: None,
        test_cases: vec!["t1".to_string(), "t2".to_string()],
    }
}

fn judge(image: Image) -> JudgeToml {
    JudgeToml {
        jobs: vec![
            (
                "other".to_string(),
                JobConfig {
                    image: Image::Prebuilt { tag: "other:latest".to_string() },
                    run: vec![],
                    binds: None,
                },
            ),
            ("hello".to_string(), JobConfig { image, run: vec!["make".to_string()], binds: None }),
        ],
    }
}

fn frame(m: &ClientMsg) -> String {
    match m {
        ClientMsg::JobProgress { stage, .. } => format!("{:?}", stage),
        ClientMsg::PartialResult { test_id, test_result, .. } => {
            format!("PartialResult({},{:?})", test_id, test_result.kind)
        }
        ClientMsg::JobOutput { .. } => "Output".to_string(),
        ClientMsg::JobResult(r) => format!("JobResult({:?})", r.job_result),
        _ => "Other".to_string(),
    }
}

/// Runs a job up to the point where its configuration is read.
fn configured(p: &mut JobPipeline, frames: &mut Vec<String>) {
    let s = p.step(JobEvent::Start);
    assert!(matches!(&s.next, JobAction::FetchSuite { suite_id } if suite_id == "S"));
    let s = p.step(JobEvent::SuiteFetched(Ok(suite_cfg())));
    frames.push(frame(s.send.as_ref().unwrap()));
    match &s.next {
        JobAction::CloneRepo { repo, revision, depth, path } => {
            assert_eq!(repo, "https://example.com/sub.git");
            assert_eq!(revision, "abc123");
            assert_eq!(*depth, 3);
            assert_eq!(path, "/cache/jobs/J");
        }
        _ => panic!("expected a clone"),
    }
    let s = p.step(JobEvent::Cloned(Ok(())));
    assert!(s.send.is_none());
    assert!(matches!(&s.next, JobAction::ReadJudgeFile { root } if root == "/cache/jobs/J"));
}

#[test]
fn happy_path_frames() {
    let mut p = JobPipeline::new(job(), "/cache/jobs/J".to_string(), "/cache/suites/S".to_string());
    let mut frames = vec![];
    configured(&mut p, &mut frames);
    let s = p.step(JobEvent::JudgeFileRead(Ok((
        "/cache/jobs/J".to_string(),
        judge(Image::Prebuilt { tag: "hello:latest".to_string() }),
    ))));
    frames.push(frame(s.send.as_ref().unwrap()));
    match &s.next {
        JobAction::RunSuite(run) => {
            assert!(matches!(&run.image, Image::Prebuilt { tag } if tag == "hello:latest"));
            assert_eq!(run.public_cfg.run, vec!["make".to_string(), "echo hi".to_string()]);
            assert_eq!(run.private_cfg.test_root_dir, "/cache/suites/S/tests");
            assert_eq!(run.private_cfg.mapped_test_root_dir, "/tests");
            assert_eq!(run.options.time_limit, Some(10));
            assert_eq!(run.public_cfg.test_cases, vec!["t1".to_string(), "t2".to_string()]);
            assert!(run.options.build_image && run.options.remove_image);
        }
        _ => panic!("expected the suite to run"),
    }
    let ok = TestResult { kind: TestResultKind::Accepted, message: None };
    let s = p.step(JobEvent::Partial("t1".to_string(), ok.clone()));
    frames.push(frame(s.send.as_ref().unwrap()));
    let s = p.step(JobEvent::SuiteRan(Ok(vec![("t1".to_string(), ok)])));
    assert!(matches!(s.next, JobAction::Report));
    assert_eq!(p.current_phase(), JobPhase::Finished);
    let msg = p.report(&None);
    frames.push(frame(&msg));
    assert_eq!(
        frames,
        vec!["Fetching", "Running", "PartialResult(t1,Accepted)", "JobResult(Accepted)"]
    );
    match msg {
        ClientMsg::JobResult(r) => {
            assert_eq!(r.job_id, "J");
            assert_eq!(r.results.len(), 1);
            assert!(r.message.is_none());
        }
        _ => panic!("expected a result"),
    }
    assert_eq!(p.current_phase(), JobPhase::Reported);
}

#[test]
fn missing_job_config_is_compile_error() {
    let mut p = JobPipeline::new(job(), "/cache/jobs/J".to_string(), "/cache/suites/S".to_string());
    let mut frames = vec![];
    configured(&mut p, &mut frames);
    let judge = JudgeToml { jobs: vec![] };
    let s = p.step(JobEvent::JudgeFileRead(Ok(("/cache/jobs/J".to_string(), judge))));
    assert!(s.send.is_none());
    match p.report(&None) {
        ClientMsg::JobResult(r) => {
            assert_eq!(r.job_result, JobResultKind::CompileError);
            assert_eq!(r.message.unwrap(), "Cannot find config for hello in `judger.toml`");
        }
        _ => panic!("expected a result"),
    }
}

#[test]
fn dockerfile_path_escaping_repo_is_rejected() {
    for bad in ["../outside", "/etc/docker", "a/../../b", ".."] {
        let mut p =
            JobPipeline::new(job(), "/cache/jobs/J".to_string(), "/cache/suites/S".to_string());
        let mut frames = vec![];
        configured(&mut p, &mut frames);
        let image = Image::Dockerfile { path: bad.to_string(), file: None, tag: None };
        let s = p.step(JobEvent::JudgeFileRead(Ok(("/cache/jobs/J".to_string(), judge(image)))));
        assert!(matches!(s.next, JobAction::Report), "{}", bad);
        match p.report(&None) {
            ClientMsg::JobResult(r) => assert_eq!(r.job_result, JobResultKind::CompileError),
            _ => panic!("expected a result"),
        }
    }
}

#[test]
fn dockerfile_path_with_symlink_is_rejected() {
    let mut p = JobPipeline::new(job(), "/cache/jobs/J".to_string(), "/cache/suites/S".to_string());
    let mut frames = vec![];
    configured(&mut p, &mut frames);
    let image = Image::Dockerfile { path: "docker/..dir/x".to_string(), file: None, tag: None };
    let s = p.step(JobEvent::JudgeFileRead(Ok(("/cache/jobs/J".to_string(), judge(image)))));
    assert!(matches!(&s.next, JobAction::CheckSymlinks { path, .. } if path == "docker/..dir/x"));
    let s = p.step(JobEvent::SymlinksChecked(true));
    assert!(matches!(s.next, JobAction::Report));
    match p.report(&None) {
        ClientMsg::JobResult(r) => assert_eq!(r.job_result, JobResultKind::CompileError),
        _ => panic!("expected a result"),
    }
}

#[test]
fn dockerfile_without_symlink_runs() {
    let mut p = JobPipeline::new(job(), "/cache/jobs/J".to_string(), "/cache/suites/S".to_string());
    let mut frames = vec![];
    configured(&mut p, &mut frames);
    let image = Image::Dockerfile { path: "./docker".to_string(), file: None, tag: None };
    p.step(JobEvent::JudgeFileRead(Ok(("/cache/jobs/J".to_string(), judge(image)))));
    let s = p.step(JobEvent::SymlinksChecked(false));
    assert_eq!(frame(s.send.as_ref().unwrap()), "Running");
    match &s.next {
        JobAction::RunSuite(run) => {
            assert!(matches!(&run.image, Image::Dockerfile { path, .. } if path == "./docker"));
            assert_eq!(run.public_cfg.run, vec!["make".to_string(), "echo hi".to_string()]);
            assert_eq!(run.private_cfg.test_root_dir, "/cache/suites/S/tests");
            assert_eq!(run.options.time_limit, Some(10));
            assert_eq!(run.judge_root, "/cache/jobs/J");
        }
        _ => panic!("expected the suite to run"),
    }
}

#[test]
fn abort_as_cancel_reports_cancelled() {
    let mut p = JobPipeline::new(job(), "/cache/jobs/J".to_string(), "/cache/suites/S".to_string());
    let mut frames = vec![];
    configured(&mut p, &mut frames);
    p.step(JobEvent::JudgeFileRead(Ok((
        "/cache/jobs/J".to_string(),
        judge(Image::Prebuilt { tag: "hello:latest".to_string() }),
    ))));
    let s = p.step(JobEvent::Cancelled);
    assert!(matches!(s.next, JobAction::Report));
    let info = Some(AbortJob { job_id: "J".to_string(), as_cancel: true });
    let msg = p.report(&info);
    assert!(matches!(msg, ClientMsg::JobProgress { stage: JobStage::Cancelled, .. }));
}

#[test]
fn system_abort_reports_aborted() {
    let mut p = JobPipeline::new(job(), "/cache/jobs/J".to_string(), "/cache/suites/S".to_string());
    p.step(JobEvent::Start);
    p.step(JobEvent::Cancelled);
    let info = Some(AbortJob { job_id: "J".to_string(), as_cancel: false });
    let msg = p.report(&info);
    assert!(matches!(msg, ClientMsg::JobProgress { stage: JobStage::Aborted, .. }));
}

#[test]
fn cancelled_clone_reports_aborted() {
    let mut p = JobPipeline::new(job(), "/cache/jobs/J".to_string(), "/cache/suites/S".to_string());
    p.step(JobEvent::Start);
    p.step(JobEvent::SuiteFetched(Ok(suite_cfg())));
    p.step(JobEvent::Cancelled);
    let msg = p.report(&None);
    assert!(matches!(msg, ClientMsg::JobProgress { stage: JobStage::Aborted, .. }));
}

#[test]
fn suite_failure_reports_judger_error_without_fetching() {
    let mut p = JobPipeline::new(job(), "/cache/jobs/J".to_string(), "/cache/suites/S".to_string());
    p.step(JobEvent::Start);
    let s = p.step(JobEvent::SuiteFetched(Err(JobExecErr::Request("timed out".to_string()))));
    assert!(s.send.is_none());
    match p.report(&None) {
        ClientMsg::JobResult(r) => {
            assert_eq!(r.job_result, JobResultKind::JudgerError);
            assert_eq!(r.message.unwrap(), "Web request error: timed out");
        }
        _ => panic!("expected a result"),
    }
}

#[test]
fn events_out_of_place_are_ignored() {
    let mut p = JobPipeline::new(job(), "/cache/jobs/J".to_string(), "/cache/suites/S".to_string());
    let s = p.step(JobEvent::Cloned(Ok(())));
    assert!(s.send.is_none());
    assert!(matches!(s.next, JobAction::Wait));
    assert_eq!(p.current_phase(), JobPhase::Created);
}
