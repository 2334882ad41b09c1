use judger::executor::{ExecAction, StepOutcome, SuiteExecution};
use judger::config::Image;
use judger::executor::{select_tests, test_verdict};
use judger::model::TestResultKind;

fn strings(v: &[&str]) -> Vec<String> {
    v.iter().map(|s| s.to_string()).collect()
}

#[test]
fn empty_filter_selects_every_test() {
    let all = strings(&["a", "b", "c"]);
    assert_eq!(select_tests(&all, &vec![]), all);
}

#[test]
fn filter_keeps_suite_order() {
    let all = strings(&["a", "b", "c", "d"]);
    assert_eq!(select_tests(&all, &strings(&["d", "b", "zz"])), strings(&["b", "d"]));
    assert_eq!(select_tests(&all, &strings(&["zz"])), Vec::<String>::new());
    assert_eq!(select_tests(&vec![], &strings(&["a"])), Vec::<String>::new());
}

#[test]
fn verdict_from_return_codes() {
    assert_eq!(test_verdict(&vec![0, 0]), TestResultKind::Accepted);
    assert_eq!(test_verdict(&vec![]), TestResultKind::Accepted);
    assert_eq!(test_verdict(&vec![0, 1]), TestResultKind::RuntimeError);
    assert_eq!(test_verdict(&vec![-9]), TestResultKind::RuntimeError);
}

#[test]
fn image_tags() {
    let pre = Image::Prebuilt { tag: "hello:latest".to_string() };
    assert_eq!(pre.tag_or("x"), "hello:latest");
    let named = Image::Dockerfile { path: ".".to_string(), file: None, tag: Some("mine".to_string()) };
    assert_eq!(named.tag_or("x"), "mine");
    let unnamed = Image::Dockerfile { path: ".".to_string(), file: None, tag: None };
    assert_eq!(unnamed.tag_or("judger_j1"), "judger_j1");
}


fn run_all(exec: &mut SuiteExecution, codes: &mut Vec<StepOutcome>) -> Vec<String> {
    let mut log = vec![];
    loop {
        match exec.next(false) {
            ExecAction::Run { test_id, command, vars } => {
                assert_eq!(vars, vec![("test".to_string(), test_id.clone())]);
                log.push(format!("run {} {}", test_id, command));
                exec.record(codes.remove(0));
            }
            ExecAction::Report { test_id, result } => {
                log.push(format!("report {} {:?} {:?}", test_id, result.kind, result.message));
            }
            ExecAction::Done => return log,
        }
    }
}

#[test]
fn executor_runs_steps_and_stops_at_first_failure() {
    let mut exec = SuiteExecution::new(
        strings(&["a", "b", "c"]),
        strings(&["build ${test}", "check ${test}"]),
    );
    let mut outcomes = vec![
        StepOutcome::Exited(0),
        StepOutcome::Exited(0),
        StepOutcome::Exited(2),
        StepOutcome::Failed("exec lost".to_string()),
    ];
    let log = run_all(&mut exec, &mut outcomes);
    assert_eq!(
        log,
        vec![
            "run a build a",
            "run a check a",
            "report a Accepted None",
            "run b build b",
            "report b RuntimeError None",
            "run c build c",
            "report c PipelineFailed Some(\"exec lost\")",
        ]
    );
    assert!(outcomes.is_empty());
}

#[test]
fn executor_stops_on_cancel_but_reports_finished_case() {
    let mut exec = SuiteExecution::new(strings(&["a", "b"]), strings(&["s"]));
    assert!(matches!(exec.next(false), ExecAction::Run { .. }));
    exec.record(StepOutcome::Exited(1));
    match exec.next(true) {
        ExecAction::Report { test_id, result } => {
            assert_eq!(test_id, "a");
            assert_eq!(result.kind, TestResultKind::RuntimeError);
        }
        _ => panic!("expected the finished case"),
    }
    assert!(matches!(exec.next(true), ExecAction::Done));
}

#[test]
fn executor_with_no_steps_accepts_each_case() {
    let mut exec = SuiteExecution::new(strings(&["a"]), vec![]);
    assert!(matches!(exec.next(false), ExecAction::Report { result, .. } if result.kind == TestResultKind::Accepted));
    assert!(matches!(exec.next(false), ExecAction::Done));
}
