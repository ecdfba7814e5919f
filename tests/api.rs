use pecan::api::{judge_status, load_config, JudgeStatus};
use pecan::options::CodeExecutionStatus;

#[test]
fn status_codes() {
    assert_eq!(JudgeStatus::Accepted.into_status_code(), 0);
    assert_eq!(JudgeStatus::WrongAnswer.into_status_code(), 1);
    assert_eq!(JudgeStatus::CompileError.into_status_code(), 2);
    assert_eq!(JudgeStatus::RuntimeError.into_status_code(), 3);
    assert_eq!(JudgeStatus::TimeLimitExceeded.into_status_code(), 4);
    assert_eq!(JudgeStatus::MemoryLimitExceeded.into_status_code(), 5);
    assert_eq!(JudgeStatus::InternalError.into_status_code(), 6);
}

#[test]
fn judgement_compares_the_output() {
    let six = "6\n".to_string();
    assert_eq!(judge_status(CodeExecutionStatus::Success, &six, &"6\n".to_string()), JudgeStatus::Accepted);
    assert_eq!(judge_status(CodeExecutionStatus::Success, &six, &"6".to_string()), JudgeStatus::WrongAnswer);
    assert_eq!(judge_status(CodeExecutionStatus::CompileError, &six, &six), JudgeStatus::CompileError);
    assert_eq!(judge_status(CodeExecutionStatus::TimeLimitExceeded, &six, &six), JudgeStatus::TimeLimitExceeded);
    assert_eq!(judge_status(CodeExecutionStatus::InternalError, &six, &six), JudgeStatus::InternalError);
}

#[test]
fn config_defaults() {
    let c = load_config(None, None, None, None, None);
    assert_eq!(c.server.port, 8080);
    assert_eq!(c.server.host, "0.0.0.0");
    assert!(c.service.enable_bg_worker_loop);
    assert_eq!(c.service.max_queue_size, 100);
    assert_eq!(c.service.max_concurrent_executions, 20);
}

#[test]
fn config_values_and_unreadable_values() {
    let c = load_config(Some("9000"), Some("127.0.0.1"), Some("false"), Some("7"), Some("x"));
    assert_eq!(c.server.port, 9000);
    assert_eq!(c.server.host, "127.0.0.1");
    assert!(!c.service.enable_bg_worker_loop);
    assert_eq!(c.service.max_queue_size, 7);
    assert_eq!(c.service.max_concurrent_executions, 20);
    let d = load_config(Some("70000"), None, Some("yes"), Some("-1"), Some("+3"));
    assert_eq!(d.server.port, 8080);
    assert!(d.service.enable_bg_worker_loop);
    assert_eq!(d.service.max_queue_size, 100);
    assert_eq!(d.service.max_concurrent_executions, 3);
}
