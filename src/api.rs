//! What the judging front end decides: the judgement of a run against the
//! expected output, its numeric code, the pool's status report, and the
//! configuration read from the environment's values.
use crate::manager::{SandboxManager, count_status};
use crate::options::CodeExecutionStatus;
use crate::sandbox::SandboxStatus;
use crate::text::{bounded_value, parse_bounded};
use vstd::prelude::*;
use vstd::string::*;

verus! {

#[derive(Debug, Clone, Copy, PartialEq, Eq, Structural)]
pub enum JudgeStatus {
    Accepted,
    WrongAnswer,
    CompileError,
    RuntimeError,
    TimeLimitExceeded,
    MemoryLimitExceeded,
    InternalError,
}

pub open spec fn status_code_of(s: JudgeStatus) -> u16 {
    match s {
        JudgeStatus::Accepted => 0,
        JudgeStatus::WrongAnswer => 1,
        JudgeStatus::CompileError => 2,
        JudgeStatus::RuntimeError => 3,
        JudgeStatus::TimeLimitExceeded => 4,
        JudgeStatus::MemoryLimitExceeded => 5,
        JudgeStatus::InternalError => 6,
    }
}

impl JudgeStatus {
    pub fn into_status_code(self) -> (r: u16)
        ensures
            r == status_code_of(self),
    {
        match self {
            JudgeStatus::Accepted => 0,
            JudgeStatus::WrongAnswer => 1,
            JudgeStatus::CompileError => 2,
            JudgeStatus::RuntimeError => 3,
            JudgeStatus::TimeLimitExceeded => 4,
            JudgeStatus::MemoryLimitExceeded => 5,
            JudgeStatus::InternalError => 6,
        }
    }
}

/// The judgement of a run: a successful run is accepted exactly when it printed
/// the expected output; every other status carries over.
pub open spec fn judge_status_of(
    status: CodeExecutionStatus,
    stdout: Seq<char>,
    desired_stdout: Seq<char>,
) -> JudgeStatus {
    match status {
        CodeExecutionStatus::Success => if stdout == desired_stdout {
            JudgeStatus::Accepted
        } else {
            JudgeStatus::WrongAnswer
        },
        CodeExecutionStatus::CompileError => JudgeStatus::CompileError,
        CodeExecutionStatus::RuntimeError => JudgeStatus::RuntimeError,
        CodeExecutionStatus::TimeLimitExceeded => JudgeStatus::TimeLimitExceeded,
        CodeExecutionStatus::MemoryLimitExceeded => JudgeStatus::MemoryLimitExceeded,
        CodeExecutionStatus::InternalError => JudgeStatus::InternalError,
    }
}

pub fn judge_status(status: CodeExecutionStatus, stdout: &String, desired_stdout: &String) -> (r:
    JudgeStatus)
    ensures
        r == judge_status_of(status, stdout@, desired_stdout@),
{
    match status {
        CodeExecutionStatus::Success => {
            if *stdout == *desired_stdout {
                JudgeStatus::Accepted
            } else {
                JudgeStatus::WrongAnswer
            }
        },
        CodeExecutionStatus::CompileError => JudgeStatus::CompileError,
        CodeExecutionStatus::RuntimeError => JudgeStatus::RuntimeError,
        CodeExecutionStatus::TimeLimitExceeded => JudgeStatus::TimeLimitExceeded,
        CodeExecutionStatus::MemoryLimitExceeded => JudgeStatus::MemoryLimitExceeded,
        CodeExecutionStatus::InternalError => JudgeStatus::InternalError,
    }
}

/// Errors that the front end reports to its clients.
#[derive(Debug, PartialEq, Eq)]
pub enum APIError {
    NotSupportedLanguage(String),
    CompileError(String),
    RuntimeError(String),
    TimeLimitExceeded(String),
    MemoryLimitExceeded(String),
    AllocatingTaskError(String),
    InternalError(String),
}

/// How many sandboxes the pool holds, and how many are in each status.
#[derive(Debug, Clone, PartialEq, Eq, Structural)]
pub struct SandboxStatusResponse {
    pub available_sandboxes: usize,
    pub idle_sandboxes: usize,
    pub running_sandboxes: usize,
    pub error_sandboxes: usize,
}

pub fn get_sandbox_status(manager: &SandboxManager) -> (r: SandboxStatusResponse)
    requires
        manager.wf(),
    ensures
        r.available_sandboxes == manager.table().dom().len(),
        r.idle_sandboxes == count_status(manager.table(), SandboxStatus::Idle),
        r.running_sandboxes == count_status(manager.table(), SandboxStatus::Running),
        r.error_sandboxes == count_status(manager.table(), SandboxStatus::Error),
{
    SandboxStatusResponse {
        available_sandboxes: manager.available_sandboxes_count(),
        idle_sandboxes: manager.idle_sandboxes_count(),
        running_sandboxes: manager.running_sandboxes_count(),
        error_sandboxes: manager.error_sandboxes_count(),
    }
}

#[derive(Debug, Clone)]
pub struct ServerConfig {
    pub port: u16,
    pub host: String,
}

#[derive(Debug, Clone)]
pub struct ServiceConfig {
    pub enable_bg_worker_loop: bool,
    pub max_queue_size: u32,
    pub max_concurrent_executions: u32,
}

#[derive(Debug, Clone)]
pub struct Config {
    pub server: ServerConfig,
    pub service: ServiceConfig,
}

pub const DEFAULT_PORT: u16 = 8080;

pub const DEFAULT_HOST: &'static str = "0.0.0.0";

pub const DEFAULT_MAX_QUEUE_SIZE: u32 = 100;

pub const DEFAULT_MAX_CONCURRENT_EXECUTIONS: u32 = 20;

/// A set value read as an unsigned number up to `max`, else `default`.
pub open spec fn number_or(v: Option<Seq<char>>, max: nat, default: nat) -> nat {
    match v {
        Some(s) => match bounded_value(s, max) {
            Some(x) => x,
            None => default,
        },
        None => default,
    }
}

/// A set value read as `true` or `false`, else `default`.
pub open spec fn flag_or(v: Option<Seq<char>>, default: bool) -> bool {
    match v {
        Some(s) => if s == "true"@ {
            true
        } else if s == "false"@ {
            false
        } else {
            default
        },
        None => default,
    }
}

fn number_or_default(v: Option<&str>, max: u64, default: u64) -> (r: u64)
    ensures
        r == number_or(
            match v {
                Some(s) => Some(s@),
                None => None,
            },
            max as nat,
            default as nat,
        ),
{
    match v {
        Some(s) => match parse_bounded(s, max) {
            Some(x) => x,
            None => default,
        },
        None => default,
    }
}

fn flag_or_default(v: Option<&str>, default: bool) -> (r: bool)
    ensures
        r == flag_or(
            match v {
                Some(s) => Some(s@),
                None => None,
            },
            default,
        ),
{
    match v {
        Some(s) => {
            let t = String::from_str(s);
            if t == String::from_str("true") {
                true
            } else if t == String::from_str("false") {
                false
            } else {
                default
            }
        },
        None => default,
    }
}

pub open spec fn view_opt(v: Option<&str>) -> Option<Seq<char>> {
    match v {
        Some(s) => Some(s@),
        None => None,
    }
}

/// The configuration from the values set for `PORT`, `HOST`,
/// `ENABLE_BG_WORKER_LOOP`, `MAX_QUEUE_SIZE` and `MAX_CONCURRENT_EXECUTIONS`;
/// a value that is not set, or does not read as its type, gives the default.
pub fn load_config(
    port: Option<&str>,
    host: Option<&str>,
    enable_bg_worker_loop: Option<&str>,
    max_queue_size: Option<&str>,
    max_concurrent_executions: Option<&str>,
) -> (r: Config)
    ensures
        r.server.port == number_or(view_opt(port), u16::MAX as nat, DEFAULT_PORT as nat),
        r.server.host@ == (match host {
            Some(h) => h@,
            None => DEFAULT_HOST@,
        }),
        r.service.enable_bg_worker_loop == flag_or(view_opt(enable_bg_worker_loop), true),
        r.service.max_queue_size == number_or(
            view_opt(max_queue_size),
            u32::MAX as nat,
            DEFAULT_MAX_QUEUE_SIZE as nat,
        ),
        r.service.max_concurrent_executions == number_or(
            view_opt(max_concurrent_executions),
            u32::MAX as nat,
            DEFAULT_MAX_CONCURRENT_EXECUTIONS as nat,
        ),
{
    let port = number_or_default(port, 65535, DEFAULT_PORT as u64) as u16;
    let host = match host {
        Some(h) => String::from_str(h),
        None => String::from_str(DEFAULT_HOST),
    };
    let enable = flag_or_default(enable_bg_worker_loop, true);
    let queue = number_or_default(max_queue_size, 4294967295, DEFAULT_MAX_QUEUE_SIZE as u64) as u32;
    let concurrent = number_or_default(
        max_concurrent_executions,
        4294967295,
        DEFAULT_MAX_CONCURRENT_EXECUTIONS as u64,
    ) as u32;
    Config {
        server: ServerConfig { port, host },
        service: ServiceConfig {
            enable_bg_worker_loop: enable,
            max_queue_size: queue,
            max_concurrent_executions: concurrent,
        },
    }
}

/// Settings of the core service: whether the janitor runs, the capacity of
/// the task queue, and how many sandboxes are prewarmed.
pub struct ServiceSpec {
    pub enable_bg_worker_loop: bool,
    pub max_queue_size: u32,
    pub max_concurrent_executions: u32,
}

} // verus!
