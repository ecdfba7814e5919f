//! Error kinds of the tool adapter, the sandbox pool and the core service.
use vstd::prelude::*;

verus! {

#[derive(Debug)]
pub enum SandboxToolError {
    UnknownError(String),
}

#[derive(Debug)]
pub enum SandboxError {
    DuplicateSandboxId(u128),
}

#[derive(Debug)]
pub enum SandboxManagerError {
    InternalError(String),
    SandboxDestructionFailed(String),
    SandboxCreationFailed(String),
    ToolInitializationFailed(String),
    SemaphoreClosed(String),
    NoSandboxAvailable,
    FileOperationFailed(String),
    CommandExecutionFailed(String),
    QueueFull(String),
    ExecutionFailed(String),
}

#[derive(Debug)]
pub enum CoreServiceError {
    InvalidParameter(String),
    InternalError(String),
    TaskQueueFull(String),
}

#[derive(Debug)]
pub enum CoreExecutionError {
    NotSupportedLanguage(String),
    CompileError(String),
    RuntimeError(String),
    TimeLimitExceeded(String),
    MemoryLimitExceeded(String),
    AllocatingTaskError(String),
    InternalError(String),
}

} // verus!
