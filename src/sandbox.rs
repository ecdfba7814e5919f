//! One isolated execution environment, and the records that describe a run in
//! it and its outcome.
use crate::isolate::IsolateInner;
use vstd::prelude::*;

verus! {

#[derive(Debug, Clone, Copy, PartialEq, Eq, Structural)]
pub enum SandboxStatus {
    Idle,
    Running,
    Error,
}

pub const STATUS_IDLE: u8 = 0;

pub const STATUS_RUNNING: u8 = 1;

pub const STATUS_ERROR: u8 = 2;

/// How a status byte reads: an unknown byte reads as `Error`.
pub open spec fn status_of_byte(b: u8) -> SandboxStatus {
    if b == STATUS_IDLE {
        SandboxStatus::Idle
    } else if b == STATUS_RUNNING {
        SandboxStatus::Running
    } else {
        SandboxStatus::Error
    }
}

pub open spec fn byte_of_status(s: SandboxStatus) -> u8 {
    match s {
        SandboxStatus::Idle => STATUS_IDLE,
        SandboxStatus::Running => STATUS_RUNNING,
        SandboxStatus::Error => STATUS_ERROR,
    }
}

/// Decodes a status byte, failing closed.
pub fn status_from_byte(b: u8) -> (r: SandboxStatus)
    ensures
        r == status_of_byte(b),
{
    if b == STATUS_IDLE {
        SandboxStatus::Idle
    } else if b == STATUS_RUNNING {
        SandboxStatus::Running
    } else {
        SandboxStatus::Error
    }
}

pub fn status_to_byte(s: SandboxStatus) -> (r: u8)
    ensures
        r == byte_of_status(s),
        status_of_byte(r) == s,
{
    match s {
        SandboxStatus::Idle => STATUS_IDLE,
        SandboxStatus::Running => STATUS_RUNNING,
        SandboxStatus::Error => STATUS_ERROR,
    }
}

#[derive(Debug, Clone, Copy, PartialEq, Eq, Structural)]
pub enum SandboxExecutionStatus {
    Success,
    CompileError,
    RuntimeError,
    TimeLimitExceeded,
    MemoryLimitExceeded,
}

/// Relies on uuid::Uuid::new_v4: a random 128-bit identifier. Nothing is
/// promised of its value; the pool refuses an identifier it already holds.
#[verifier::external_body]
fn fresh_sandbox_id() -> (r: u128) {
    uuid::Uuid::new_v4().as_u128()
}

/// A sandbox: its identity, its status as a byte, and the tool's handle on it.
#[derive(Debug, Clone)]
pub struct Sandbox {
    pub id: u128,
    pub status: u8,
    pub inner: IsolateInner,
}

impl Sandbox {
    pub open spec fn status_spec(&self) -> SandboxStatus {
        status_of_byte(self.status)
    }

    /// A new sandbox on `inner`, with a fresh random identity, Idle.
    pub fn new(inner: IsolateInner) -> (r: Self)
        ensures
            r.inner == inner,
            r.status_spec() == SandboxStatus::Idle,
    {
        Sandbox { id: fresh_sandbox_id(), status: STATUS_IDLE, inner }
    }

    pub fn status(&self) -> (r: SandboxStatus)
        ensures
            r == self.status_spec(),
    {
        status_from_byte(self.status)
    }

    pub fn set_status(&mut self, s: SandboxStatus)
        ensures
            final(self).status_spec() == s,
            final(self).status == byte_of_status(s),
            final(self).id == old(self).id,
            final(self).inner == old(self).inner,
    {
        self.status = status_to_byte(s);
    }

    pub fn set_idle(&mut self)
        ensures
            final(self).status_spec() == SandboxStatus::Idle,
            final(self).status == byte_of_status(SandboxStatus::Idle),
            final(self).id == old(self).id,
            final(self).inner == old(self).inner,
    {
        self.set_status(SandboxStatus::Idle);
    }

    pub fn set_running(&mut self)
        ensures
            final(self).status_spec() == SandboxStatus::Running,
            final(self).status == byte_of_status(SandboxStatus::Running),
            final(self).id == old(self).id,
            final(self).inner == old(self).inner,
    {
        self.set_status(SandboxStatus::Running);
    }

    pub fn set_error(&mut self)
        ensures
            final(self).status_spec() == SandboxStatus::Error,
            final(self).status == byte_of_status(SandboxStatus::Error),
            final(self).id == old(self).id,
            final(self).inner == old(self).inner,
    {
        self.set_status(SandboxStatus::Error);
    }
}

/// A file written into the sandbox working directory before the run.
#[derive(Debug, Clone)]
pub struct SandboxAdditionalFileOptions {
    pub file_name: String,
    pub file_content: String,
}

/// A compile step, run on the host in the sandbox working directory.
#[derive(Debug, Clone)]
pub struct CompileOptions {
    pub compiler_path: String,
    /// Environment variables set for the compiler, as name and value.
    pub env: Option<Vec<(String, String)>>,
    pub args: Vec<String>,
}

/// A host directory mounted inside the sandbox.
#[derive(Debug, Clone)]
pub struct SandboxAdditionalDirectoryOptions {
    pub directory_path: String,
    pub mount_point: String,
}

/// What to run and under which limits.
#[derive(Debug, Clone)]
pub struct SandboxExecutionOptions {
    pub additional_file_options: Option<Vec<SandboxAdditionalFileOptions>>,
    pub compile_options: Option<CompileOptions>,
    pub additional_directory_options: Option<Vec<SandboxAdditionalDirectoryOptions>>,
    pub binary_path: String,
    pub args: Vec<String>,
    pub stdin: String,
    /// CPU time limit in milliseconds.
    pub time_limit_ms: u64,
    /// Memory limit in kilobytes.
    pub memory_limit_kb: u64,
}

/// Outcome of a run: time in milliseconds, memory in kilobytes.
#[derive(Debug, Clone)]
pub struct SandboxExecutionResult {
    pub status: SandboxExecutionStatus,
    pub stdout: String,
    pub stderr: String,
    pub time_ms: u64,
    pub memory_kb: u64,
}

} // verus!
