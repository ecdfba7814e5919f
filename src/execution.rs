//! The decisions of one execution on the pool: which step the caller performs
//! next (stage a file, compile, run, remove a file), and how each outcome moves
//! the sandbox. The caller performs the steps and reports each outcome.
use crate::errors::SandboxManagerError;
use crate::manager::{SandboxManager, first_claimable, with_status};
use crate::sandbox::{
    Sandbox, SandboxExecutionOptions, SandboxExecutionResult, SandboxExecutionStatus, SandboxStatus,
};
use vstd::prelude::*;

verus! {

/// What the compiler did: whether it exited successfully, and what it printed.
pub struct CompileOutput {
    pub success: bool,
    pub stdout: String,
    pub stderr: String,
}

/// The outcome of the step the caller performed; an error carries its message.
pub enum ExecutionEvent {
    FileStaged(Result<(), String>),
    Compiled(Result<CompileOutput, String>),
    Ran(Result<SandboxExecutionResult, String>),
    FileRemoved(Result<(), String>),
}

/// The step the caller performs next.
pub enum ExecutionStep {
    /// Write the additional file of this index into the box.
    StageFile(usize),
    /// Run the compiler in the box's working directory.
    Compile,
    /// Run the program through the tool.
    Run,
    /// Remove the additional file of this index from the box.
    RemoveFile(usize),
    /// The execution is over, with this result.
    Finished(Result<SandboxExecutionResult, SandboxManagerError>),
}

#[derive(Debug, Clone, Copy, PartialEq, Eq, Structural)]
pub enum Phase {
    Staging(usize),
    Compiling,
    Running,
    Removing(usize),
    Done,
}

/// One execution on a claimed sandbox.
pub struct Execution {
    id: u128,
    n_files: usize,
    compiles: bool,
    phase: Phase,
    outcome: Option<Result<SandboxExecutionResult, String>>,
}

/// What an outcome does to the sandbox.
pub enum Effect {
    Keep,
    ToIdle,
    ToError,
}

/// The pool after a Running sandbox finished cleanly.
pub open spec fn idle_table(t: Map<u128, Sandbox>, id: u128) -> Map<u128, Sandbox> {
    if t.contains_key(id) && t[id].status_spec() == SandboxStatus::Running {
        t.insert(id, with_status(t[id], SandboxStatus::Idle))
    } else {
        t
    }
}

/// The idle queue after a Running sandbox finished cleanly.
pub open spec fn idle_queue(t: Map<u128, Sandbox>, q: Seq<u128>, id: u128) -> Seq<u128> {
    if t.contains_key(id) && t[id].status_spec() == SandboxStatus::Running {
        q.push(id)
    } else {
        q
    }
}

/// The pool after a Running sandbox met a fault.
pub open spec fn error_table(t: Map<u128, Sandbox>, id: u128) -> Map<u128, Sandbox> {
    if t.contains_key(id) && t[id].status_spec() == SandboxStatus::Running {
        t.insert(id, with_status(t[id], SandboxStatus::Error))
    } else {
        t
    }
}

/// The phase that follows the files staged so far.
pub open spec fn after_staging(next: int, n_files: usize, compiles: bool) -> Phase {
    if next < n_files {
        Phase::Staging(next as usize)
    } else if compiles {
        Phase::Compiling
    } else {
        Phase::Running
    }
}

/// Whether the run's outcome, once every file is removed, is a success.
pub open spec fn run_ok(outcome: Option<Result<SandboxExecutionResult, String>>) -> bool {
    outcome matches Some(Ok(_))
}

/// The phase after an outcome.
pub open spec fn next_phase(
    phase: Phase,
    n_files: usize,
    compiles: bool,
    ev: ExecutionEvent,
) -> Phase {
    match (phase, ev) {
        (Phase::Staging(i), ExecutionEvent::FileStaged(Ok(_))) => after_staging(
            i + 1,
            n_files,
            compiles,
        ),
        (Phase::Compiling, ExecutionEvent::Compiled(Ok(out))) => if out.success {
            Phase::Running
        } else {
            Phase::Done
        },
        (Phase::Running, ExecutionEvent::Ran(_)) => if n_files > 0 {
            Phase::Removing(0)
        } else {
            Phase::Done
        },
        (Phase::Removing(i), ExecutionEvent::FileRemoved(Ok(_))) => if i + 1 < n_files {
            Phase::Removing((i + 1) as usize)
        } else {
            Phase::Done
        },
        _ => Phase::Done,
    }
}

/// What an outcome does to the sandbox: a compile error or a clean finish
/// returns it to the idle queue, a failed run or any fault poisons it, every
/// other outcome leads on to the next step.
pub open spec fn next_effect(
    phase: Phase,
    n_files: usize,
    compiles: bool,
    outcome: Option<Result<SandboxExecutionResult, String>>,
    ev: ExecutionEvent,
) -> Effect {
    match (phase, ev) {
        (Phase::Staging(_), ExecutionEvent::FileStaged(Ok(_))) => Effect::Keep,
        (Phase::Compiling, ExecutionEvent::Compiled(Ok(out))) => if out.success {
            Effect::Keep
        } else {
            Effect::ToIdle
        },
        (Phase::Running, ExecutionEvent::Ran(res)) => if n_files > 0 {
            Effect::Keep
        } else if res is Ok {
            Effect::ToIdle
        } else {
            Effect::ToError
        },
        (Phase::Removing(i), ExecutionEvent::FileRemoved(Ok(_))) => if i + 1 < n_files {
            Effect::Keep
        } else if run_ok(outcome) {
            Effect::ToIdle
        } else {
            Effect::ToError
        },
        _ => Effect::ToError,
    }
}

/// The last step of an execution whose run came to `res`.
pub open spec fn finished_with(res: Result<SandboxExecutionResult, String>) -> ExecutionStep {
    match res {
        Ok(r) => ExecutionStep::Finished(Ok(r)),
        Err(e) => ExecutionStep::Finished(Err(SandboxManagerError::ExecutionFailed(e))),
    }
}

/// The result an outcome ends the execution with, where it ends it: a
/// compile error is a result with no time and no memory, a staging or
/// cleanup failure a file error, a compiler that could not run a command
/// error, and a run's own outcome the result (or an execution error) once
/// every file is removed. An outcome that does not fit the phase ends the
/// execution with an internal error.
pub open spec fn finish_matches(
    phase: Phase,
    n_files: usize,
    outcome: Option<Result<SandboxExecutionResult, String>>,
    ev: ExecutionEvent,
    step: ExecutionStep,
) -> bool {
    match (phase, ev) {
        (Phase::Staging(_), ExecutionEvent::FileStaged(Ok(_))) => true,
        (Phase::Staging(_), ExecutionEvent::FileStaged(Err(e))) => step == ExecutionStep::Finished(
            Err(SandboxManagerError::FileOperationFailed(e)),
        ),
        (Phase::Compiling, ExecutionEvent::Compiled(Ok(out))) => out.success || step
            == ExecutionStep::Finished(
            Ok(
                SandboxExecutionResult {
                    status: SandboxExecutionStatus::CompileError,
                    stdout: out.stdout,
                    stderr: out.stderr,
                    time_ms: 0,
                    memory_kb: 0,
                },
            ),
        ),
        (Phase::Compiling, ExecutionEvent::Compiled(Err(e))) => step == ExecutionStep::Finished(
            Err(SandboxManagerError::CommandExecutionFailed(e)),
        ),
        (Phase::Running, ExecutionEvent::Ran(res)) => n_files > 0 || step == finished_with(res),
        (Phase::Removing(i), ExecutionEvent::FileRemoved(Ok(_))) => i + 1 < n_files || match outcome {
            Some(res) => step == finished_with(res),
            None => step matches ExecutionStep::Finished(Err(SandboxManagerError::InternalError(_))),
        },
        (Phase::Removing(_), ExecutionEvent::FileRemoved(Err(e))) => step == ExecutionStep::Finished(
            Err(SandboxManagerError::FileOperationFailed(e)),
        ),
        _ => step matches ExecutionStep::Finished(Err(SandboxManagerError::InternalError(_))),
    }
}

/// The run's outcome held for the end of the cleanup.
pub open spec fn next_outcome(
    phase: Phase,
    n_files: usize,
    outcome: Option<Result<SandboxExecutionResult, String>>,
    ev: ExecutionEvent,
) -> Option<Result<SandboxExecutionResult, String>> {
    match (phase, ev) {
        (Phase::Running, ExecutionEvent::Ran(res)) => if n_files > 0 {
            Some(res)
        } else {
            outcome
        },
        (Phase::Removing(i), ExecutionEvent::FileRemoved(Ok(_))) => if i + 1 < n_files {
            outcome
        } else {
            None
        },
        _ => outcome,
    }
}

impl Execution {
    pub closed spec fn id_spec(&self) -> u128 {
        self.id
    }

    pub closed spec fn n_files_spec(&self) -> usize {
        self.n_files
    }

    pub closed spec fn compiles_spec(&self) -> bool {
        self.compiles
    }

    pub closed spec fn phase_spec(&self) -> Phase {
        self.phase
    }

    pub closed spec fn outcome_spec(&self) -> Option<Result<SandboxExecutionResult, String>> {
        self.outcome
    }

    /// The id of the sandbox this execution runs on.
    pub fn sandbox_id(&self) -> (r: u128)
        ensures
            r == self.id_spec(),
    {
        self.id
    }
}

/// The step that goes with a phase that is not over.
pub open spec fn step_matches(phase: Phase, step: ExecutionStep) -> bool {
    match phase {
        Phase::Staging(i) => step == ExecutionStep::StageFile(i),
        Phase::Compiling => step is Compile,
        Phase::Running => step is Run,
        Phase::Removing(i) => step == ExecutionStep::RemoveFile(i),
        Phase::Done => step is Finished,
    }
}

impl SandboxManager {
    /// Starts an execution of `options`: claims an idle sandbox (Running from
    /// then on) and names the first step. Without an idle sandbox nothing
    /// starts.
    pub fn start_execution(&mut self, options: &SandboxExecutionOptions) -> (r: Result<
        (Execution, ExecutionStep),
        SandboxManagerError,
    >)
        requires
            old(self).wf(),
        ensures
            final(self).wf(),
            final(self).tool_model() == old(self).tool_model(),
            final(self).max_prewarmed() == old(self).max_prewarmed(),
            ({
                let t = old(self).table();
                let q = old(self).idle_ids();
                let n = match options.additional_file_options {
                    Some(v) => v@.len(),
                    None => 0,
                };
                match first_claimable(t, q, 0) {
                    Some(k) => r is Ok && r.unwrap().0.id_spec() == q[k] && r.unwrap().0.n_files_spec()
                        == n && r.unwrap().0.compiles_spec() == (options.compile_options is Some)
                        && r.unwrap().0.outcome_spec() is None && r.unwrap().0.phase_spec()
                        == after_staging(0, n as usize, options.compile_options is Some)
                        && step_matches(r.unwrap().0.phase_spec(), r.unwrap().1)
                        && final(self).table() == t.insert(
                        q[k],
                        with_status(t[q[k]], SandboxStatus::Running),
                    ) && final(self).idle_ids() == q.subrange(k + 1, q.len() as int),
                    None => r is Err && r->Err_0 is NoSandboxAvailable && final(self).table() == t
                        && final(self).idle_ids() == Seq::<u128>::empty(),
                }
            }),
    {
        let id = match self.claim_idle() {
            Ok(id) => id,
            Err(e) => {
                return Err(e);
            },
        };
        let n_files: usize = match &options.additional_file_options {
            Some(v) => v.len(),
            None => 0,
        };
        let compiles = match &options.compile_options {
            Some(_) => true,
            None => false,
        };
        let (phase, step) = if n_files > 0 {
            (Phase::Staging(0), ExecutionStep::StageFile(0))
        } else if compiles {
            (Phase::Compiling, ExecutionStep::Compile)
        } else {
            (Phase::Running, ExecutionStep::Run)
        };
        Ok((Execution { id, n_files, compiles, phase, outcome: None }, step))
    }

    /// Applies an effect to the sandbox of an execution.
    fn apply_effect(&mut self, id: u128, ok: bool)
        requires
            old(self).wf(),
        ensures
            final(self).wf(),
            final(self).tool_model() == old(self).tool_model(),
            final(self).max_prewarmed() == old(self).max_prewarmed(),
            ok ==> final(self).table() == idle_table(old(self).table(), id) && final(self).idle_ids()
                == idle_queue(old(self).table(), old(self).idle_ids(), id),
            !ok ==> final(self).table() == error_table(old(self).table(), id)
                && final(self).idle_ids() == old(self).idle_ids(),
    {
        if ok {
            self.return_to_idle(id);
        } else {
            self.mark_error(id);
        }
    }

    /// Takes the outcome of the step just performed and names the next one.
    /// A compile error, and a run whose files were all removed, return the
    /// sandbox to the idle queue; a failed run and any fault leave it in
    /// Error. When the execution is over, its sandbox (if still in the pool)
    /// is either Idle with its id in the idle queue, or in Error and out of
    /// the queue.
    pub fn advance(&mut self, exec: &mut Execution, event: ExecutionEvent) -> (r: ExecutionStep)
        requires
            old(self).wf(),
        ensures
            final(self).wf(),
            final(self).tool_model() == old(self).tool_model(),
            final(self).max_prewarmed() == old(self).max_prewarmed(),
            final(exec).id_spec() == old(exec).id_spec(),
            final(exec).n_files_spec() == old(exec).n_files_spec(),
            final(exec).compiles_spec() == old(exec).compiles_spec(),
            old(exec).phase_spec() != Phase::Done ==> final(exec).phase_spec() == next_phase(
                old(exec).phase_spec(),
                old(exec).n_files_spec(),
                old(exec).compiles_spec(),
                event,
            ),
            old(exec).phase_spec() == Phase::Done ==> final(exec).phase_spec() == Phase::Done,
            final(exec).outcome_spec() == next_outcome(
                old(exec).phase_spec(),
                old(exec).n_files_spec(),
                old(exec).outcome_spec(),
                event,
            ),
            step_matches(final(exec).phase_spec(), r),
            old(exec).phase_spec() != Phase::Done ==> finish_matches(
                old(exec).phase_spec(),
                old(exec).n_files_spec(),
                old(exec).outcome_spec(),
                event,
                r,
            ),
            old(exec).phase_spec() == Phase::Done ==> r matches ExecutionStep::Finished(
                Err(SandboxManagerError::InternalError(_)),
            ),
            ({
                let id = old(exec).id_spec();
                let t = old(self).table();
                let q = old(self).idle_ids();
                match next_effect(
                    old(exec).phase_spec(),
                    old(exec).n_files_spec(),
                    old(exec).compiles_spec(),
                    old(exec).outcome_spec(),
                    event,
                ) {
                    Effect::Keep => final(self).table() == t && final(self).idle_ids() == q,
                    Effect::ToIdle => final(self).table() == idle_table(t, id) && final(self).idle_ids()
                        == idle_queue(t, q, id),
                    Effect::ToError => final(self).table() == error_table(t, id)
                        && final(self).idle_ids() == q,
                }
            }),
            ({
                let id = old(exec).id_spec();
                let t = final(self).table();
                let q = final(self).idle_ids();
                r is Finished && t.contains_key(id) ==> (
                t[id].status_spec() == SandboxStatus::Idle && q.contains(id)) || (
                t[id].status_spec() == SandboxStatus::Error && !q.contains(id))
            }),
            r matches ExecutionStep::Finished(Ok(_)) ==> next_effect(
                old(exec).phase_spec(),
                old(exec).n_files_spec(),
                old(exec).compiles_spec(),
                old(exec).outcome_spec(),
                event,
            ) is ToIdle,
    {
        let id = exec.id;
        let phase = exec.phase;
        let step = match (phase, event) {
            (Phase::Staging(i), ExecutionEvent::FileStaged(Ok(()))) => {
                if exec.n_files > 0 && i < exec.n_files - 1 {
                    exec.phase = Phase::Staging(i + 1);
                    ExecutionStep::StageFile(i + 1)
                } else if exec.compiles {
                    exec.phase = Phase::Compiling;
                    ExecutionStep::Compile
                } else {
                    exec.phase = Phase::Running;
                    ExecutionStep::Run
                }
            },
            (Phase::Staging(_), ExecutionEvent::FileStaged(Err(e))) => {
                exec.phase = Phase::Done;
                self.apply_effect(id, false);
                ExecutionStep::Finished(Err(SandboxManagerError::FileOperationFailed(e)))
            },
            (Phase::Compiling, ExecutionEvent::Compiled(Ok(out))) => {
                if out.success {
                    exec.phase = Phase::Running;
                    ExecutionStep::Run
                } else {
                    exec.phase = Phase::Done;
                    self.apply_effect(id, true);
                    ExecutionStep::Finished(
                        Ok(
                            SandboxExecutionResult {
                                status: SandboxExecutionStatus::CompileError,
                                stdout: out.stdout,
                                stderr: out.stderr,
                                time_ms: 0,
                                memory_kb: 0,
                            },
                        ),
                    )
                }
            },
            (Phase::Compiling, ExecutionEvent::Compiled(Err(e))) => {
                exec.phase = Phase::Done;
                self.apply_effect(id, false);
                ExecutionStep::Finished(Err(SandboxManagerError::CommandExecutionFailed(e)))
            },
            (Phase::Running, ExecutionEvent::Ran(res)) => {
                if exec.n_files > 0 {
                    exec.phase = Phase::Removing(0);
                    exec.outcome = Some(res);
                    ExecutionStep::RemoveFile(0)
                } else {
                    exec.phase = Phase::Done;
                    self.finish(id, res)
                }
            },
            (Phase::Removing(i), ExecutionEvent::FileRemoved(Ok(()))) => {
                if exec.n_files > 0 && i < exec.n_files - 1 {
                    exec.phase = Phase::Removing(i + 1);
                    ExecutionStep::RemoveFile(i + 1)
                } else {
                    exec.phase = Phase::Done;
                    let outcome = exec.outcome.take();
                    match outcome {
                        Some(res) => self.finish(id, res),
                        None => {
                            self.apply_effect(id, false);
                            ExecutionStep::Finished(
                                Err(SandboxManagerError::InternalError(String::new())),
                            )
                        },
                    }
                }
            },
            (Phase::Removing(_), ExecutionEvent::FileRemoved(Err(e))) => {
                exec.phase = Phase::Done;
                self.apply_effect(id, false);
                ExecutionStep::Finished(Err(SandboxManagerError::FileOperationFailed(e)))
            },
            _ => {
                exec.phase = Phase::Done;
                self.apply_effect(id, false);
                ExecutionStep::Finished(Err(SandboxManagerError::InternalError(String::new())))
            },
        };
        step
    }

    fn finish(&mut self, id: u128, res: Result<SandboxExecutionResult, String>) -> (r:
        ExecutionStep)
        requires
            old(self).wf(),
        ensures
            final(self).wf(),
            final(self).tool_model() == old(self).tool_model(),
            final(self).max_prewarmed() == old(self).max_prewarmed(),
            res is Ok ==> final(self).table() == idle_table(old(self).table(), id)
                && final(self).idle_ids() == idle_queue(old(self).table(), old(self).idle_ids(), id),
            res is Err ==> final(self).table() == error_table(old(self).table(), id)
                && final(self).idle_ids() == old(self).idle_ids(),
            r == finished_with(res),
    {
        match res {
            Ok(result) => {
                self.apply_effect(id, true);
                ExecutionStep::Finished(Ok(result))
            },
            Err(e) => {
                self.apply_effect(id, false);
                ExecutionStep::Finished(Err(SandboxManagerError::ExecutionFailed(e)))
            },
        }
    }
}

} // verus!
