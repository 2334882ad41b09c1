use judger::config::{join_path, ClientConfig, SharedClientData};
use judger::paths::is_child_path;

fn data() -> SharedClientData {
    SharedClientData::new(ClientConfig {
        host: "https://coord.example".to_string(),
        access_token: Some("t".to_string()),
        register_token: None,
        alternate_name: None,
        tags: None,
        cache_folder: "/var/cache/judger".to_string(),
        max_concurrent_tasks: 2,
    })
}

#[test]
fn endpoints() {
    let d = data();
    assert_eq!(d.websocket_endpoint(), "https://coord.example/api/v1/judger/ws");
    assert_eq!(d.register_endpoint(), "https://coord.example/api/v1/judger/register");
    assert_eq!(d.verify_endpoint(), "https://coord.example/api/v1/judger/verify");
    assert_eq!(d.result_send_endpoint(), "https://coord.example/api/v1/judger/result");
    assert_eq!(d.result_upload_endpoint(), "https://coord.example/api/v1/judger/upload");
    let s = "S1".to_string();
    assert_eq!(d.test_suite_info_endpoint(&s), "https://coord.example/api/v1/test_suite/S1");
    assert_eq!(
        d.test_suite_download_endpoint(&s),
        "https://coord.example/api/v1/test_suite/S1/download"
    );
}

#[test]
fn cache_directories() {
    let d = data();
    let id = "J1".to_string();
    assert_eq!(d.job_folder_root(), "/var/cache/judger/jobs");
    assert_eq!(d.test_suite_folder_root(), "/var/cache/judger/suites");
    assert_eq!(d.temp_file_folder_root(), "/var/cache/judger/files");
    assert_eq!(d.job_folder(&id), "/var/cache/judger/jobs/J1");
    assert_eq!(d.test_suite_folder(&id), "/var/cache/judger/suites/J1");
    assert_eq!(d.test_suite_folder_lockfile(&id), "/var/cache/judger/suites/J1.lock");
    assert_eq!(d.temp_file_path("abc"), "/var/cache/judger/files/abc");
    assert_eq!(join_path("a", "b"), "a/b");
}

#[test]
fn child_paths() {
    assert!(is_child_path("docker/Dockerfile"));
    assert!(is_child_path("."));
    assert!(is_child_path("a..b/c"));
    assert!(is_child_path(""));
    assert!(!is_child_path("/abs"));
    assert!(!is_child_path(".."));
    assert!(!is_child_path("../x"));
    assert!(!is_child_path("x/.."));
    assert!(!is_child_path("x/../y"));
}
