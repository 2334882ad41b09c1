use judger::cancel_tree::CancelForest;
use judger::config::ClientConfig;
use judger::control::{
    is_success_status, needs_register, poll_wait_secs, needs_verify, register_failed, register_message, registered,
    ClientState, JOB_TIMEOUT_SECS, KEEPALIVE_INTERVAL_SECS, POLL_INTERVAL_SECS, POLL_RETRY_SECS,
    POLL_TIMEOUT_SECS,
};
use judger::model::{AbortJob, ClientMsg};
use judger::runner::CONTAINER_STOP_GRACE_SECS;

fn cfg() -> ClientConfig {
    ClientConfig {
        host: "http://coord".to_string(),
        access_token: None,
        register_token: Some("reg".to_string()),
        alternate_name: Some("w1".to_string()),
        tags: Some(vec!["gpu".to_string()]),
        cache_folder: "/cache".to_string(),
        max_concurrent_tasks: 4,
    }
}

#[test]
fn poll_asks_for_free_slots() {
    let mut st = ClientState::new();
    assert!(st.accept_job("a".to_string(), 0));
    match st.begin_poll("poll-1".to_string(), 4) {
        Some(ClientMsg::JobRequest { active_task_count, request_for_new_task, message_id }) => {
            assert_eq!(active_task_count, 1);
            assert_eq!(request_for_new_task, 3);
            assert_eq!(message_id.as_deref(), Some("poll-1"));
        }
        _ => panic!("expected a job request"),
    }
    // A second poll waits while the first is unanswered.
    assert!(st.begin_poll("poll-2".to_string(), 4).is_none());
    assert!(st.is_waiting_for_jobs());
}

#[test]
fn poll_with_more_jobs_than_slots_asks_for_none() {
    let mut st = ClientState::new();
    for id in ["a", "b", "c"] {
        assert!(st.accept_job(id.to_string(), 0));
    }
    match st.begin_poll("poll-1".to_string(), 2) {
        Some(ClientMsg::JobRequest { request_for_new_task, .. }) => {
            assert_eq!(request_for_new_task, 0)
        }
        _ => panic!("expected a job request"),
    }
}

#[test]
fn stale_poll_answer_is_dropped() {
    let mut st = ClientState::new();
    assert!(st.begin_poll("poll-1".to_string(), 4).is_some());
    assert!(st.poll_timed_out(&"poll-1".to_string()));
    assert!(!st.is_waiting_for_jobs());
    assert!(!st.take_job_offer(&Some("poll-1".to_string())));
    assert_eq!(st.active_task_count(), 0);
}

#[test]
fn matching_poll_answer_is_taken() {
    let mut st = ClientState::new();
    st.begin_poll("poll-1".to_string(), 4);
    // A timeout of an older poll leaves the current one.
    assert!(!st.poll_timed_out(&"poll-0".to_string()));
    assert!(st.is_waiting_for_jobs());
    assert!(!st.take_job_offer(&Some("poll-0".to_string())));
    assert!(st.is_waiting_for_jobs());
    assert!(st.take_job_offer(&Some("poll-1".to_string())));
    assert!(!st.is_waiting_for_jobs());
    // An offer naming no poll is always taken.
    assert!(st.take_job_offer(&None));
    st.clear_poll();
    assert!(!st.is_waiting_for_jobs());
}

#[test]
fn offer_without_reply_clears_awaited_poll() {
    let mut st = ClientState::new();
    st.begin_poll("poll-1".to_string(), 4);
    assert!(st.take_job_offer(&None));
    assert!(!st.is_waiting_for_jobs());
    // The answer to the old poll that comes later is stale.
    assert!(!st.take_job_offer(&Some("poll-1".to_string())));
}

#[test]
fn poll_wait_depends_on_whether_a_request_went_out() {
    assert_eq!(poll_wait_secs(true), 10);
    assert_eq!(poll_wait_secs(false), 1);
}

#[test]
fn abort_moves_job_out_of_running() {
    let mut forest = CancelForest::new();
    let root = forest.new_root();
    let token = forest.create_child(root);
    let mut st = ClientState::new();
    assert!(st.accept_job("J".to_string(), token));
    assert!(!st.accept_job("J".to_string(), token));
    assert_eq!(st.active_task_count(), 1);
    let got = st.begin_abort(AbortJob { job_id: "J".to_string(), as_cancel: true });
    assert_eq!(got, Some(token));
    forest.cancel(got.unwrap());
    assert!(forest.is_cancelled(token));
    assert!(!forest.is_cancelled(root));
    assert_eq!(st.active_task_count(), 0);
    // While cancelling, the job cannot be accepted again.
    assert!(!st.accept_job("J".to_string(), token));
    let info = st.abort_info(&"J".to_string()).unwrap();
    assert!(info.as_cancel);
    assert!(!st.finish_job(&"J".to_string()));
    st.finish_abort(&"J".to_string());
    assert!(st.abort_info(&"J".to_string()).is_none());
    assert!(st.accept_job("J".to_string(), token));
    assert_eq!(CONTAINER_STOP_GRACE_SECS, 15);
}

#[test]
fn abort_of_unknown_job_is_ignored() {
    let mut st = ClientState::new();
    assert!(st.accept_job("A".to_string(), 3));
    assert_eq!(st.begin_abort(AbortJob { job_id: "B".to_string(), as_cancel: false }), None);
    assert!(st.abort_info(&"B".to_string()).is_none());
    assert_eq!(st.active_task_count(), 1);
}

#[test]
fn result_delivery_retries_until_success() {
    let mut st = ClientState::new();
    assert!(st.accept_job("J".to_string(), 0));
    let answers = [500u16, 500, 500, 200];
    let mut attempts = 0;
    for status in answers {
        attempts += 1;
        if is_success_status(status) {
            break;
        }
        // Not delivered: the job stays registered.
        assert_eq!(st.active_task_count(), 1);
    }
    assert_eq!(attempts, 4);
    assert!(st.finish_job(&"J".to_string()));
    assert_eq!(st.active_task_count(), 0);
    assert!(!is_success_status(199));
    assert!(is_success_status(204));
    assert!(!is_success_status(300));
}

#[test]
fn registration_decisions() {
    let c = cfg();
    assert!(needs_register(&c, false));
    let msg = register_message(&c);
    assert_eq!(msg.token, "reg");
    assert_eq!(msg.alternate_name.as_deref(), Some("w1"));
    assert_eq!(msg.tags, Some(vec!["gpu".to_string()]));
    assert!(register_failed(300));
    assert!(!register_failed(201));
    let c2 = registered(c, "tok".to_string());
    assert_eq!(c2.access_token.as_deref(), Some("tok"));
    assert_eq!(c2.host, "http://coord");
    assert!(!needs_register(&c2, false));
    assert!(needs_register(&c2, true));
    assert!(needs_verify(&c2));
    let mut c3 = c2.clone();
    c3.register_token = None;
    assert!(!needs_register(&c3, true));
    c3.access_token = None;
    assert!(!needs_verify(&c3));
}

#[test]
fn timing_constants() {
    assert_eq!(KEEPALIVE_INTERVAL_SECS, 20);
    assert_eq!(POLL_INTERVAL_SECS, 10);
    assert_eq!(POLL_RETRY_SECS, 1);
    assert_eq!(POLL_TIMEOUT_SECS, 60);
    assert_eq!(JOB_TIMEOUT_SECS, 30 * 60);
}
