use judger::capture::{overflow_marker, OutputCapture, MAX_CONSOLE_FILE_SIZE};
use judger::process::{exec_ret_code, process_info, ret_code_from_exit_status};

#[test]
fn output_overflow_is_capped() {
    let mut cap = OutputCapture::new();
    let chunk = vec![b'a'; 4096];
    for _ in 0..50 {
        cap.push_stdout(&chunk);
    }
    let marker = overflow_marker();
    assert_eq!(marker, b"\n--- ERROR: Max output length exceeded".to_vec());
    assert_eq!(cap.stdout_bytes().len(), 102400 + marker.len());
    assert_eq!(&cap.stdout_bytes()[..102400], &vec![b'a'; 102400][..]);
    assert_eq!(&cap.stdout_bytes()[102400..], &marker[..]);
    assert!(cap.stderr_bytes().is_empty());
    let info = process_info("yes | head -c 204800", &cap, Some(0));
    assert_eq!(info.stdout.len(), 102400 + marker.len());
    assert_eq!(info.ret_code, 0);
    assert!(!info.is_user_command);
}

#[test]
fn output_within_cap_is_kept_whole() {
    let mut cap = OutputCapture::new();
    cap.push_stdout(b"hi\n");
    cap.push_stderr(b"warn\n");
    cap.push_stdout(b"there\n");
    assert_eq!(cap.stdout_bytes(), &b"hi\nthere\n".to_vec());
    assert_eq!(cap.stderr_bytes(), &b"warn\n".to_vec());
    assert!(!cap.is_full());
    let info = process_info("echo hi", &cap, Some(3));
    assert_eq!(info.stdout, "hi\nthere\n");
    assert_eq!(info.stderr, "warn\n");
    assert_eq!(info.command, "echo hi");
    assert_eq!(info.ret_code, 3);
}

#[test]
fn output_exactly_at_cap_has_no_marker() {
    let mut cap = OutputCapture::new();
    cap.push_stderr(&vec![b'e'; MAX_CONSOLE_FILE_SIZE]);
    assert_eq!(cap.stderr_bytes().len(), MAX_CONSOLE_FILE_SIZE);
    cap.push_stderr(b"x");
    assert_eq!(cap.stderr_bytes().len(), MAX_CONSOLE_FILE_SIZE + overflow_marker().len());
    cap.push_stderr(b"more");
    assert_eq!(cap.stderr_bytes().len(), MAX_CONSOLE_FILE_SIZE + overflow_marker().len());
    assert!(cap.stdout_bytes().is_empty());
    assert!(!cap.is_full());
    cap.push_stdout(&vec![b'o'; MAX_CONSOLE_FILE_SIZE + 1]);
    assert!(cap.is_full());
}

#[test]
fn invalid_utf8_is_replaced() {
    let mut cap = OutputCapture::new();
    cap.push_stdout(&[b'o', b'k', 0xff]);
    let info = process_info("printf", &cap, None);
    assert_eq!(info.stdout, "ok\u{fffd}");
    assert_eq!(info.ret_code, 1);
}

#[test]
fn exit_status_normalization() {
    assert_eq!(ret_code_from_exit_status(Some(0), None), 0);
    assert_eq!(ret_code_from_exit_status(Some(2), Some(9)), 2);
    assert_eq!(ret_code_from_exit_status(None, Some(9)), -9);
    assert_eq!(ret_code_from_exit_status(None, None), 1);
    assert_eq!(exec_ret_code(Some(137)), 137);
    assert_eq!(exec_ret_code(None), 1);
    assert_eq!(exec_ret_code(Some(1i64 << 40)), 1);
    assert_eq!(exec_ret_code(Some(-1)), -1);
}
