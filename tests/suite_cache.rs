use judger::suite_cache::{plan_suite_update, testconf_path, SuiteAction, SuitePlan, SuiteUpdate};

#[test]
fn fresh_suite_is_downloaded_once() {
    // First job: nothing cached.
    let first = plan_suite_update(false, &None, &"v1".to_string());
    assert_eq!(first, SuitePlan { download: true, write_lockfile: true });
    // Second job, after the first wrote its lockfile.
    let second = plan_suite_update(true, &Some("v1".to_string()), &"v1".to_string());
    assert_eq!(second, SuitePlan { download: false, write_lockfile: false });
}

#[test]
fn interrupted_download_is_redone() {
    // The directory is there, but the lockfile was never written.
    let plan = plan_suite_update(true, &None, &"v1".to_string());
    assert_eq!(plan, SuitePlan { download: true, write_lockfile: true });
}

#[test]
fn new_version_is_downloaded() {
    let plan = plan_suite_update(true, &Some("v1".to_string()), &"v2".to_string());
    assert_eq!(plan, SuitePlan { download: true, write_lockfile: true });
}

#[test]
fn missing_directory_with_current_lockfile_is_downloaded() {
    let plan = plan_suite_update(false, &Some("v1".to_string()), &"v1".to_string());
    assert_eq!(plan, SuitePlan { download: true, write_lockfile: false });
}

#[test]
fn testconf_lives_in_suite_dir() {
    assert_eq!(testconf_path("/cache/suites/S"), "/cache/suites/S/testconf.json");
}


fn update(plan: SuitePlan) -> SuiteUpdate {
    SuiteUpdate::new(
        plan,
        "/c/suites/S".to_string(),
        "/c/files".to_string(),
        "/c/files/x.zip".to_string(),
        "http://h/api/v1/test_suite/S/download".to_string(),
        "/c/suites/S.lock".to_string(),
    )
}

fn name(a: &SuiteAction) -> String {
    match a {
        SuiteAction::RemoveDir { path } => format!("rm {}", path),
        SuiteAction::CreateScratchDir { path } => format!("mkdir {}", path),
        SuiteAction::Download { url, to } => format!("get {} {}", url, to),
        SuiteAction::Unzip { archive, into } => format!("unzip {} {}", archive, into),
        SuiteAction::DeleteArchive { path } => format!("del {}", path),
        SuiteAction::WriteLockfile { path } => format!("lock {}", path),
        SuiteAction::Done => "done".to_string(),
        SuiteAction::Failed => "failed".to_string(),
    }
}

#[test]
fn full_update_writes_lockfile_last() {
    let mut u = update(SuitePlan { download: true, write_lockfile: true });
    let mut log = vec![];
    loop {
        let a = u.next(true);
        log.push(name(&a));
        if matches!(a, SuiteAction::Done) {
            break;
        }
    }
    assert_eq!(
        log,
        vec![
            "rm /c/suites/S",
            "mkdir /c/files",
            "get http://h/api/v1/test_suite/S/download /c/files/x.zip",
            "unzip /c/files/x.zip /c/suites/S",
            "del /c/files/x.zip",
            "lock /c/suites/S.lock",
            "done",
        ]
    );
}

#[test]
fn failed_unpack_never_writes_lockfile() {
    let mut u = update(SuitePlan { download: true, write_lockfile: true });
    for _ in 0..4 {
        u.next(true);
    }
    // The unpacking failed.
    assert!(matches!(u.next(false), SuiteAction::Failed));
    assert!(matches!(u.next(true), SuiteAction::Failed));
}

#[test]
fn up_to_date_suite_does_nothing() {
    let mut u = update(SuitePlan { download: false, write_lockfile: false });
    assert!(matches!(u.next(true), SuiteAction::Done));
    let mut w = update(SuitePlan { download: false, write_lockfile: true });
    assert_eq!(name(&w.next(true)), "lock /c/suites/S.lock");
    assert!(matches!(w.next(true), SuiteAction::Done));
}
