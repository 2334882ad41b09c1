use judger::error::{extract_job_err, JobExecErr};
use judger::model::{ClientMsg, JobResultKind};

fn kind_and_message(e: &JobExecErr) -> (JobResultKind, String) {
    match extract_job_err("J".to_string(), e) {
        ClientMsg::JobResult(r) => {
            assert_eq!(r.job_id, "J");
            assert!(r.results.is_empty());
            (r.job_result, r.message.unwrap())
        }
        _ => panic!("expected a result"),
    }
}

#[test]
fn each_error_kind_maps_to_its_verdict() {
    let cases = vec![
        (JobExecErr::NoSuchFile("a.txt".to_string()), JobResultKind::CompileError, "Cannot find file: a.txt"),
        (
            JobExecErr::NoSuchConfig("x".to_string()),
            JobResultKind::CompileError,
            "Cannot find config for x in `judger.toml`",
        ),
        (JobExecErr::Io("denied".to_string()), JobResultKind::JudgerError, "IO error: denied"),
        (JobExecErr::Ws("closed".to_string()), JobResultKind::JudgerError, "Websocket error: closed"),
        (JobExecErr::Json("eof".to_string()), JobResultKind::JudgerError, "JSON error: eof"),
        (JobExecErr::TomlDes("bad".to_string()), JobResultKind::JudgerError, "TOML deserialization error: bad"),
        (JobExecErr::Request("500".to_string()), JobResultKind::JudgerError, "Web request error: 500"),
        (JobExecErr::Build("no base".to_string()), JobResultKind::CompileError, "no base"),
        (JobExecErr::Exec("boom".to_string()), JobResultKind::PipelineError, "boom"),
        (JobExecErr::Git("no repo".to_string()), JobResultKind::CompileError, "no repo"),
    ];
    for (e, kind, msg) in cases {
        assert_eq!(kind_and_message(&e), (kind, msg.to_string()));
    }
}

#[test]
fn unknown_error_drills_to_innermost_known_cause() {
    let plain = JobExecErr::Any { description: "weird".to_string(), causes: vec![] };
    assert_eq!(kind_and_message(&plain), (JobResultKind::OtherError, "weird".to_string()));
    let wrapped = JobExecErr::Any {
        description: "cloning repo".to_string(),
        causes: vec![
            JobExecErr::Io("outer".to_string()),
            JobExecErr::Git("fatal: not found".to_string()),
        ],
    };
    assert_eq!(
        kind_and_message(&wrapped),
        (JobResultKind::CompileError, "fatal: not found".to_string())
    );
}
