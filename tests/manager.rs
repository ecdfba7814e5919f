use pecan::errors::{SandboxError, SandboxManagerError};
use pecan::execution::{CompileOutput, ExecutionEvent, ExecutionStep};
use pecan::isolate::{IsolateInner, SandboxToolIsolate};
use pecan::manager::SandboxManager;
use pecan::options::build_sandbox_execution_option;
use pecan::sandbox::{Sandbox, SandboxExecutionOptions, SandboxExecutionResult, SandboxExecutionStatus, SandboxStatus};
use pecan::toolchains::Language;

fn pool(n: usize, max: usize) -> (SandboxManager, Vec<u128>) {
    let mut m = SandboxManager::new(SandboxToolIsolate::new(), max);
    let mut ids = Vec::new();
    for _ in 0..n {
        let box_id = m.claim_box_id().ok().unwrap();
        let sb = Sandbox::new(IsolateInner::new(box_id, format!("/box/{}", box_id)));
        ids.push(sb.id);
        assert!(m.register(sb).is_ok());
    }
    (m, ids)
}

fn options(language: Language, code: &str, stdin: &str, time_ms: u64, mem_kb: u64) -> SandboxExecutionOptions {
    build_sandbox_execution_option(language, code.to_string(), stdin.to_string(), time_ms, mem_kb)
        .ok()
        .unwrap()
}

fn tool_result(meta: &str, exit_success: bool, stdout: &str) -> Result<SandboxExecutionResult, String> {
    SandboxToolIsolate::new()
        .execution_result(meta, exit_success, stdout.to_string(), String::new())
        .map_err(|_| "tool failure".to_string())
}

/// Drives one execution with the given outcome of the run step.
fn drive(m: &mut SandboxManager, o: &SandboxExecutionOptions, compiled: Option<CompileOutput>, ran: Result<SandboxExecutionResult, String>) -> (u128, Result<SandboxExecutionResult, SandboxManagerError>) {
    let (mut exec, mut step) = m.start_execution(o).ok().expect("an idle sandbox");
    let id = exec.sandbox_id();
    let mut compiled = compiled;
    let mut ran = Some(ran);
    loop {
        let event = match step {
            ExecutionStep::StageFile(_) => ExecutionEvent::FileStaged(Ok(())),
            ExecutionStep::Compile => ExecutionEvent::Compiled(Ok(compiled.take().unwrap())),
            ExecutionStep::Run => ExecutionEvent::Ran(ran.take().unwrap()),
            ExecutionStep::RemoveFile(_) => ExecutionEvent::FileRemoved(Ok(())),
            ExecutionStep::Finished(r) => return (id, r),
        };
        step = m.advance(&mut exec, event);
    }
}

#[test]
fn registered_sandboxes_are_idle() {
    let (m, ids) = pool(3, 10);
    assert_eq!(m.available_sandboxes_count(), 3);
    assert_eq!(m.idle_sandboxes_count(), 3);
    assert_eq!(m.running_sandboxes_count(), 0);
    assert_eq!(m.error_sandboxes_count(), 0);
    assert_eq!(m.list_ids().len(), 3);
    for id in ids {
        assert!(m.list_ids().contains(&id));
    }
}

#[test]
fn duplicate_ids_are_refused() {
    let (mut m, _) = pool(0, 10);
    let sb = Sandbox::new(IsolateInner::new(0, "/b".to_string()));
    let copy = sb.clone();
    assert!(m.register(sb).is_ok());
    match m.register(copy.clone()) {
        Err(SandboxError::DuplicateSandboxId(id)) => assert_eq!(id, copy.id),
        _ => panic!("expected a duplicate"),
    }
    assert_eq!(m.available_sandboxes_count(), 1);
}

#[test]
fn claims_follow_the_idle_queue_and_skip_stale_ids() {
    let (mut m, ids) = pool(3, 10);
    assert!(m.remove_sandbox(ids[0]).is_some());
    assert_eq!(m.claim_idle().ok(), Some(ids[1]));
    assert_eq!(m.running_sandboxes_count(), 1);
    assert_eq!(m.claim_idle().ok(), Some(ids[2]));
    assert!(matches!(m.claim_idle(), Err(SandboxManagerError::NoSandboxAvailable)));
    m.return_to_idle(ids[1]);
    assert_eq!(m.claim_idle().ok(), Some(ids[1]));
}

#[test]
fn python_success_returns_the_sandbox_to_idle() {
    let (mut m, _) = pool(1, 10);
    let o = options(
        Language::Python,
        "print(sum(int(input()) for _ in range(int(input()))))",
        "3\n1\n2\n3\n",
        2000,
        65536,
    );
    let (id, r) = drive(&mut m, &o, None, tool_result("time:0.021\nmax-rss:8704\nstatus:OK\n", true, "6\n"));
    let r = r.ok().unwrap();
    assert_eq!(r.status, SandboxExecutionStatus::Success);
    assert_eq!(r.stdout, "6\n");
    assert_eq!(r.stderr, "");
    assert!(r.time_ms > 0);
    assert!(r.memory_kb > 0);
    assert_eq!(m.idle_sandboxes_count(), 1);
    assert_eq!(m.claim_idle().ok(), Some(id));
}

#[test]
fn compile_error_in_c_returns_the_sandbox_to_idle() {
    let (mut m, _) = pool(1, 10);
    let o = options(Language::C, "int main(){return", "", 1000, 65536);
    let out = CompileOutput {
        success: false,
        stdout: String::new(),
        stderr: "main.c:1:18: error: expected expression at end of input".to_string(),
    };
    let (id, r) = drive(&mut m, &o, Some(out), Err("not run".to_string()));
    let r = r.ok().unwrap();
    assert_eq!(r.status, SandboxExecutionStatus::CompileError);
    assert!(!r.stderr.is_empty());
    assert_eq!(r.time_ms, 0);
    assert_eq!(r.memory_kb, 0);
    assert_eq!(m.idle_sandboxes_count(), 1);
    assert_eq!(m.claim_idle().ok(), Some(id));
}

#[test]
fn python_runtime_error() {
    let (mut m, _) = pool(1, 10);
    let o = options(Language::Python, "raise SystemExit(1)", "", 1000, 65536);
    let (_, r) = drive(&mut m, &o, None, tool_result("time:0.015\nmax-rss:8000\nexitcode:1\nstatus:RE\n", false, ""));
    assert_eq!(r.ok().unwrap().status, SandboxExecutionStatus::RuntimeError);
    assert_eq!(m.idle_sandboxes_count(), 1);
}

#[test]
fn python_time_limit_exceeded() {
    let (mut m, _) = pool(1, 10);
    let o = options(Language::Python, "while True: pass", "", 500, 65536);
    let inner = IsolateInner::new(0, "/box/0".to_string());
    assert!(m.tool().run_command_args(&inner, &o).contains(&"--time=0.5".to_string()));
    let (_, r) = drive(&mut m, &o, None, tool_result("time:0.507\nstatus:TO\nmessage:Time limit exceeded\n", false, ""));
    let r = r.ok().unwrap();
    assert_eq!(r.status, SandboxExecutionStatus::TimeLimitExceeded);
    assert!(r.time_ms >= 450 && r.time_ms <= 600);
}

#[test]
fn python_memory_limit_exceeded() {
    let (mut m, _) = pool(1, 10);
    let o = options(Language::Python, "x=b\"a\"*10**9", "", 1000, 16384);
    let inner = IsolateInner::new(0, "/box/0".to_string());
    assert!(m.tool().run_command_args(&inner, &o).contains(&"--mem=16384".to_string()));
    let (_, r) = drive(&mut m, &o, None, tool_result("cg-oom-killed:1\nstatus:SG\n", false, ""));
    assert_eq!(r.ok().unwrap().status, SandboxExecutionStatus::MemoryLimitExceeded);
}

#[test]
fn tool_failure_poisons_the_sandbox() {
    let (mut m, _) = pool(1, 10);
    let o = options(Language::Python, "print(1)", "", 1000, 65536);
    let (_, r) = drive(&mut m, &o, None, tool_result("status:XX\n", false, ""));
    assert!(matches!(r, Err(SandboxManagerError::ExecutionFailed(_))));
    assert_eq!(m.error_sandboxes_count(), 1);
    assert_eq!(m.idle_sandboxes_count(), 0);
    assert!(matches!(m.claim_idle(), Err(SandboxManagerError::NoSandboxAvailable)));
}

#[test]
fn staging_failure_poisons_the_sandbox() {
    let (mut m, _) = pool(1, 10);
    let o = options(Language::Python, "print(1)", "", 1000, 65536);
    let (mut exec, step) = m.start_execution(&o).ok().unwrap();
    assert!(matches!(step, ExecutionStep::StageFile(0)));
    let step = m.advance(&mut exec, ExecutionEvent::FileStaged(Err("disk full".to_string())));
    match step {
        ExecutionStep::Finished(Err(SandboxManagerError::FileOperationFailed(e))) => assert_eq!(e, "disk full"),
        _ => panic!("expected a file error"),
    }
    assert_eq!(m.error_sandboxes_count(), 1);
}

#[test]
fn cleanup_failure_overrides_a_good_run() {
    let (mut m, _) = pool(1, 10);
    let o = options(Language::Python, "print(1)", "", 1000, 65536);
    let (mut exec, _) = m.start_execution(&o).ok().unwrap();
    assert!(matches!(m.advance(&mut exec, ExecutionEvent::FileStaged(Ok(()))), ExecutionStep::Run));
    let ran = tool_result("time:0.01\nstatus:OK\n", true, "1\n");
    assert!(matches!(m.advance(&mut exec, ExecutionEvent::Ran(ran)), ExecutionStep::RemoveFile(0)));
    let step = m.advance(&mut exec, ExecutionEvent::FileRemoved(Err("busy".to_string())));
    assert!(matches!(step, ExecutionStep::Finished(Err(SandboxManagerError::FileOperationFailed(_)))));
    assert_eq!(m.error_sandboxes_count(), 1);
}

#[test]
fn compiler_spawn_failure_poisons_the_sandbox() {
    let (mut m, _) = pool(1, 10);
    let o = options(Language::Rust, "fn main() {}", "", 1000, 65536);
    let (mut exec, _) = m.start_execution(&o).ok().unwrap();
    assert!(matches!(m.advance(&mut exec, ExecutionEvent::FileStaged(Ok(()))), ExecutionStep::Compile));
    let step = m.advance(&mut exec, ExecutionEvent::Compiled(Err("no such file".to_string())));
    assert!(matches!(step, ExecutionStep::Finished(Err(SandboxManagerError::CommandExecutionFailed(_)))));
    assert_eq!(m.error_sandboxes_count(), 1);
}

#[test]
fn janitor_tick_replaces_errored_sandboxes() {
    let (mut m, _) = pool(3, 1000);
    let o = options(Language::Python, "print(1)", "", 1000, 65536);
    for _ in 0..2 {
        let _ = drive(&mut m, &o, None, Err("tool failure".to_string()));
    }
    assert_eq!(m.error_sandboxes_count(), 2);
    let retired = m.retire_errored();
    assert_eq!(retired.len(), 2);
    for sb in &retired {
        m.release_box_id(sb.inner.get_box_id());
    }
    assert_eq!(m.tool().get_box_id_pool_len(), 2);
    let n = m.scale_up_target(retired.len());
    assert_eq!(n, 2);
    for _ in 0..n {
        let box_id = m.claim_box_id().ok().unwrap();
        assert!(m.register(Sandbox::new(IsolateInner::new(box_id, "/b".to_string()))).is_ok());
    }
    assert_eq!(m.error_sandboxes_count(), 0);
    assert_eq!(m.available_sandboxes_count(), 3);
    assert_eq!(m.idle_sandboxes_count(), 3);
}

#[test]
fn scale_targets_respect_the_cap_and_the_idle_count() {
    let (mut m, _) = pool(3, 4);
    assert_eq!(m.scale_up_target(5), 1);
    assert_eq!(m.scale_up_target(0), 0);
    assert_eq!(m.scale_down_target(10), 3);
    assert_eq!(m.scale_down_target(2), 2);
    let _ = m.claim_idle();
    assert_eq!(m.scale_down_target(10), 2);
    let (full, _) = pool(2, 1);
    assert_eq!(full.scale_up_target(3), 0);
}

#[test]
fn scale_down_takes_idle_sandboxes_from_the_front() {
    let (mut m, ids) = pool(2, 10);
    match m.take_idle_for_removal() {
        Ok(Some(sb)) => assert_eq!(sb.id, ids[0]),
        _ => panic!("expected a sandbox"),
    }
    assert_eq!(m.available_sandboxes_count(), 1);
    assert!(m.remove_sandbox(ids[1]).is_some());
    assert!(matches!(m.take_idle_for_removal(), Ok(None)));
    assert!(matches!(m.take_idle_for_removal(), Err(SandboxManagerError::NoSandboxAvailable)));
}

#[test]
fn running_count_never_exceeds_the_pool() {
    let (mut m, _) = pool(2, 10);
    assert!(m.claim_idle().is_ok());
    assert!(m.claim_idle().is_ok());
    assert!(m.claim_idle().is_err());
    assert_eq!(m.running_sandboxes_count(), 2);
    assert!(m.running_sandboxes_count() <= m.available_sandboxes_count());
}
