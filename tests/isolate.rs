use pecan::isolate::{
    box_path_from_init_output, build_tool, seconds_string, IsolateInner, SandboxToolIsolate,
};
use pecan::meta::{meta_value, parse_meta_file, parse_seconds_ms};
use pecan::sandbox::{SandboxAdditionalDirectoryOptions, SandboxExecutionOptions, SandboxExecutionStatus};
use std::collections::HashSet;

#[test]
fn isolate_build_and_destroy_releases_box_id() {
    let mut tool = SandboxToolIsolate::new();
    let box_id = tool.claim_box_id().ok().expect("build inner");
    let initial_pool_len = tool.get_box_id_pool_len();

    tool.release_box_id(box_id);

    assert_eq!(tool.get_box_id_pool_len(), initial_pool_len + 1);
}

#[test]
fn isolate_multiple_boxes_create_and_destroy() {
    let mut tool = SandboxToolIsolate::new();
    let initial_pool_len = tool.get_box_id_pool_len();

    let mut inners = Vec::new();
    for _ in 0..3 {
        let id = tool.claim_box_id().ok().expect("build inner");
        inners.push(IsolateInner::new(id, format!("/var/local/lib/isolate/{}/box", id)));
    }

    let ids: HashSet<i32> = inners.iter().map(|inner| inner.get_box_id()).collect();
    assert_eq!(ids.len(), 3, "box ids should be unique");

    for inner in inners {
        tool.release_box_id(inner.get_box_id());
    }

    assert_eq!(tool.get_box_id_pool_len(), initial_pool_len + 3);

    let reused = tool.claim_box_id().ok().expect("build inner");
    assert!(ids.contains(&reused), "expected a reused box id from the pool");
    tool.release_box_id(reused);
}

#[test]
fn fresh_ids_count_up_and_released_ids_come_back_last_first() {
    let mut tool = SandboxToolIsolate::new();
    assert_eq!(tool.claim_box_id().ok(), Some(0));
    assert_eq!(tool.claim_box_id().ok(), Some(1));
    assert_eq!(tool.claim_box_id().ok(), Some(2));
    tool.release_box_id(0);
    tool.release_box_id(2);
    assert_eq!(tool.claim_box_id().ok(), Some(2));
    assert_eq!(tool.claim_box_id().ok(), Some(0));
    assert_eq!(tool.claim_box_id().ok(), Some(3));
}

#[test]
fn releasing_twice_or_unknown_ids_changes_nothing() {
    let mut tool = SandboxToolIsolate::new();
    let id = tool.claim_box_id().ok().unwrap();
    tool.release_box_id(id);
    tool.release_box_id(id);
    assert_eq!(tool.get_box_id_pool_len(), 1);
    tool.release_box_id(17);
    tool.release_box_id(-1);
    assert_eq!(tool.get_box_id_pool_len(), 1);
}

#[test]
fn build_tool_selects_the_variant() {
    assert!(!build_tool("isolate").ok().unwrap().is_cgroup());
    assert!(!build_tool("").ok().unwrap().is_cgroup());
    assert!(build_tool("isolate-cg").ok().unwrap().is_cgroup());
    assert!(build_tool("nsjail").is_err());
}

#[test]
fn init_and_cleanup_arguments() {
    let plain = SandboxToolIsolate::new();
    assert_eq!(plain.init_command_args(7), vec!["--box-id=7", "--init"]);
    assert_eq!(plain.cleanup_command_args(12), vec!["--box-id=12", "--cleanup"]);
    let cg = SandboxToolIsolate::new_cgroup();
    assert_eq!(cg.init_command_args(0), vec!["--cg", "--box-id=0", "--init"]);
    assert_eq!(cg.cleanup_command_args(305), vec!["--cg", "--box-id=305", "--cleanup"]);
}

#[test]
fn box_path_from_the_init_output() {
    assert_eq!(box_path_from_init_output("/var/local/lib/isolate/3\n"), "/var/local/lib/isolate/3/box");
    assert_eq!(box_path_from_init_output("  /tmp/b \r\n"), "/tmp/b/box");
}

fn options(time_limit_ms: u64, memory_limit_kb: u64) -> SandboxExecutionOptions {
    SandboxExecutionOptions {
        additional_file_options: None,
        compile_options: None,
        additional_directory_options: Some(vec![SandboxAdditionalDirectoryOptions {
            directory_path: "/opt/toolchains/python/current".to_string(),
            mount_point: "/opt/python".to_string(),
        }]),
        binary_path: "/opt/python/bin/python3".to_string(),
        args: vec!["main.py".to_string()],
        stdin: String::new(),
        time_limit_ms,
        memory_limit_kb,
    }
}

#[test]
fn run_arguments_plain() {
    let tool = SandboxToolIsolate::new();
    let inner = IsolateInner::new(4, "/var/local/lib/isolate/4/box".to_string());
    let args = tool.run_command_args(&inner, &options(500, 16384));
    assert_eq!(
        args,
        vec![
            "--mem=16384",
            "--dir=/opt/python=/opt/toolchains/python/current",
            "--box-id=4",
            "--processes=128",
            "--time=0.5",
            "--wall-time=100",
            "--stdin=stdin.txt",
            "--meta=/var/local/lib/isolate/4/box/meta.txt",
            "--run",
            "--",
            "/opt/python/bin/python3",
            "main.py",
        ]
    );
}

#[test]
fn run_arguments_cgroup() {
    let tool = SandboxToolIsolate::new_cgroup();
    let inner = IsolateInner::new(0, "/b".to_string());
    let args = tool.run_command_args(&inner, &options(2000, 65536));
    assert_eq!(&args[0..2], &["--cg".to_string(), "--cg-mem=65536".to_string()]);
    assert_eq!(args[5], "--time=2");
}

#[test]
fn seconds_are_written_like_decimal_numbers() {
    assert_eq!(seconds_string(0), "0");
    assert_eq!(seconds_string(2000), "2");
    assert_eq!(seconds_string(500), "0.5");
    assert_eq!(seconds_string(1250), "1.25");
    assert_eq!(seconds_string(1), "0.001");
    assert_eq!(seconds_string(10010), "10.01");
}

#[test]
fn seconds_are_read_as_milliseconds() {
    assert_eq!(parse_seconds_ms("0.012"), Some(12));
    assert_eq!(parse_seconds_ms("0.5"), Some(500));
    assert_eq!(parse_seconds_ms("2"), Some(2000));
    assert_eq!(parse_seconds_ms("1.2345"), Some(1234));
    assert_eq!(parse_seconds_ms(".5"), Some(500));
    assert_eq!(parse_seconds_ms("+3."), Some(3000));
    assert_eq!(parse_seconds_ms("."), None);
    assert_eq!(parse_seconds_ms(""), None);
    assert_eq!(parse_seconds_ms("1.2.3"), None);
    assert_eq!(parse_seconds_ms("x"), None);
}

const META: &str = "time:0.012\ntime-wall:0.035\nmax-rss:3456\ncsw-voluntary:3\ncg-mem:2048\nexitcode:1\nstatus:RE\nmessage:Exited with error status 1\n";

#[test]
fn meta_values_come_from_the_first_matching_line() {
    assert_eq!(meta_value(META, "time"), Some("0.012".to_string()));
    assert_eq!(meta_value(META, "status"), Some("RE".to_string()));
    assert_eq!(meta_value(META, "message"), Some("Exited with error status 1".to_string()));
    assert_eq!(meta_value(META, "cg-oom-killed"), None);
    assert_eq!(meta_value("a:b:c\n", "a"), Some("b:c".to_string()));
    assert_eq!(meta_value("ab:1\na:2\n", "a"), Some("2".to_string()));
    assert_eq!(meta_value("nokey\n", "nokey"), None);
    assert_eq!(meta_value("x\r\nkey: 5 \r\n", "key"), Some("5".to_string()));
}

#[test]
fn a_key_is_matched_exactly_not_by_prefix() {
    let m = parse_meta_file("time-wall:0.912\ntime:0.504\nmax-rss:3400\nstatus:TO\n");
    assert_eq!(m.time_ms, 504);
    assert_eq!(m.max_rss_kb, 3400);
    assert_eq!(m.cg_oom_killed, 0);
    assert_eq!(m.status, "TO");
    assert_eq!(meta_value("time-wall:0.912\n", "time"), None);
}

#[test]
fn meta_file_is_read_with_defaults() {
    let m = parse_meta_file(META);
    assert_eq!(m.time_ms, 12);
    assert_eq!(m.max_rss_kb, 3456);
    assert_eq!(m.cg_mem_kb, 2048);
    assert_eq!(m.cg_oom_killed, 0);
    assert_eq!(m.status, "RE");
    let empty = parse_meta_file("");
    assert_eq!(empty.time_ms, 0);
    assert_eq!(empty.max_rss_kb, 0);
    assert_eq!(empty.status, "OK");
    let bad = parse_meta_file("max-rss:99999999999\ntime:abc\n");
    assert_eq!(bad.max_rss_kb, 0);
    assert_eq!(bad.time_ms, 0);
}

fn run(meta: &str, exit_success: bool) -> Option<SandboxExecutionStatus> {
    SandboxToolIsolate::new()
        .execution_result(meta, exit_success, "out".to_string(), "err".to_string())
        .ok()
        .map(|r| r.status)
}

#[test]
fn outcome_follows_the_order_of_the_checks() {
    assert_eq!(run("cg-oom-killed:1\nstatus:RE\n", false), Some(SandboxExecutionStatus::MemoryLimitExceeded));
    assert_eq!(run("status:RE\n", true), Some(SandboxExecutionStatus::RuntimeError));
    assert_eq!(run("status:SG\n", true), Some(SandboxExecutionStatus::RuntimeError));
    assert_eq!(run("status:TO\n", false), Some(SandboxExecutionStatus::TimeLimitExceeded));
    assert_eq!(run("status:XX\n", true), None);
    assert_eq!(run("time:0.1\n", false), Some(SandboxExecutionStatus::RuntimeError));
    assert_eq!(run("time:0.1\n", true), Some(SandboxExecutionStatus::Success));
}

#[test]
fn memory_comes_from_the_variant_figure() {
    let meta = "time:0.250\nmax-rss:9000\ncg-mem:7000\nstatus:OK\n";
    let plain = SandboxToolIsolate::new()
        .execution_result(meta, true, "6\n".to_string(), String::new())
        .ok()
        .unwrap();
    assert_eq!(plain.memory_kb, 9000);
    assert_eq!(plain.time_ms, 250);
    assert_eq!(plain.stdout, "6\n");
    let cg = SandboxToolIsolate::new_cgroup()
        .execution_result(meta, true, String::new(), String::new())
        .ok()
        .unwrap();
    assert_eq!(cg.memory_kb, 7000);
}
