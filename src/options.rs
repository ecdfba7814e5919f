//! Turns a request (language, code, input, limits) into the options of a
//! sandbox run, and a run's outcome back into the result of the request.
use crate::errors::CoreExecutionError;
use crate::sandbox::{
    CompileOptions, SandboxAdditionalDirectoryOptions, SandboxAdditionalFileOptions,
    SandboxExecutionOptions, SandboxExecutionResult, SandboxExecutionStatus,
};
use crate::text::strings;
use crate::toolchains::{
    language_toolchain_c, language_toolchain_cpp, language_toolchain_go, language_toolchain_java,
    language_toolchain_kotlin, language_toolchain_node, language_toolchain_python,
    language_toolchain_rust, language_toolchain_typescript, pairs_view, source_file_of,
    toolchain_of, CompileView, DirMountOption, Language, LanguageToolchain, C_SOURCE_FILE_NAME,
    CPP_SOURCE_FILE_NAME, GO_SOURCE_FILE_NAME, JAVA_SOURCE_FILE_NAME, KOTLIN_SOURCE_FILE_NAME,
    NODE_SOURCE_FILE_NAME, PYTHON_SOURCE_FILE_NAME, RUST_SOURCE_FILE_NAME,
    TYPESCRIPT_SOURCE_FILE_NAME,
};
use vstd::prelude::*;
use vstd::string::*;

verus! {

pub open spec fn files_view(o: Option<Vec<SandboxAdditionalFileOptions>>) -> Option<
    Seq<(Seq<char>, Seq<char>)>,
> {
    match o {
        Some(v) => Some(
            v@.map_values(|f: SandboxAdditionalFileOptions| (f.file_name@, f.file_content@)),
        ),
        None => None,
    }
}

pub open spec fn compile_view(o: Option<CompileOptions>) -> Option<CompileView> {
    match o {
        Some(c) => Some(
            CompileView { compiler_path: c.compiler_path@, env: pairs_view(c.env), args: strings(c.args@) },
        ),
        None => None,
    }
}

/// Mounts as (host directory, mount point).
pub open spec fn dirs_view(o: Option<Vec<SandboxAdditionalDirectoryOptions>>) -> Option<
    Seq<(Seq<char>, Seq<char>)>,
> {
    match o {
        Some(v) => Some(
            v@.map_values(
                |d: SandboxAdditionalDirectoryOptions| (d.directory_path@, d.mount_point@),
            ),
        ),
        None => None,
    }
}

/// The options built for `language`: the code written to the language's
/// source file, the toolchain's compile step and mounts copied, its binary
/// and arguments, the input and the limits.
pub open spec fn options_match(
    o: SandboxExecutionOptions,
    language: Language,
    code: Seq<char>,
    stdin: Seq<char>,
    time_limit_ms: u64,
    memory_limit_kb: u64,
) -> bool {
    let tc = toolchain_of(language).unwrap();
    &&& files_view(o.additional_file_options) == Some(seq![(source_file_of(language), code)])
    &&& compile_view(o.compile_options) == tc.compile
    &&& dirs_view(o.additional_directory_options) == tc.runtime.mounts
    &&& o.binary_path@ == tc.runtime.binary_path
    &&& strings(o.args@) == tc.runtime.args
    &&& o.stdin@ == stdin
    &&& o.time_limit_ms == time_limit_ms
    &&& o.memory_limit_kb == memory_limit_kb
}

fn source_file_name(language: Language) -> (r: &'static str)
    requires
        language != Language::Unknown,
    ensures
        r@ == source_file_of(language),
{
    match language {
        Language::C => C_SOURCE_FILE_NAME,
        Language::Cpp => CPP_SOURCE_FILE_NAME,
        Language::Go => GO_SOURCE_FILE_NAME,
        Language::Java => JAVA_SOURCE_FILE_NAME,
        Language::Kotlin => KOTLIN_SOURCE_FILE_NAME,
        Language::Node => NODE_SOURCE_FILE_NAME,
        Language::Python => PYTHON_SOURCE_FILE_NAME,
        Language::Rust => RUST_SOURCE_FILE_NAME,
        _ => TYPESCRIPT_SOURCE_FILE_NAME,
    }
}

fn directory_options(mounts: Vec<DirMountOption>) -> (r: Vec<SandboxAdditionalDirectoryOptions>)
    ensures
        r@.map_values(|d: SandboxAdditionalDirectoryOptions| (d.directory_path@, d.mount_point@))
            == mounts@.map_values(|m: DirMountOption| (m.source_path@, m.target_path@)),
{
    let mut r: Vec<SandboxAdditionalDirectoryOptions> = Vec::new();
    let mut i: usize = 0;
    while i < mounts.len()
        invariant
            i <= mounts@.len(),
            r@.len() == i,
            r@.map_values(
                |d: SandboxAdditionalDirectoryOptions| (d.directory_path@, d.mount_point@),
            ) == mounts@.subrange(0, i as int).map_values(
                |m: DirMountOption| (m.source_path@, m.target_path@),
            ),
        decreases mounts@.len() - i,
    {
        let m = &mounts[i];
        let d = SandboxAdditionalDirectoryOptions {
            directory_path: m.source_path.clone(),
            mount_point: m.target_path.clone(),
        };
        assert(d.directory_path@ == mounts@[i as int].source_path@);
        assert(d.mount_point@ == mounts@[i as int].target_path@);
        let ghost prev = r@;
        r.push(d);
        i = i + 1;
        assert forall|k: int| 0 <= k < i implies #[trigger] r@[k].directory_path@ == mounts@[k].source_path@
            && r@[k].mount_point@ == mounts@[k].target_path@ by {
            if k < i - 1 {
                assert(prev.map_values(
                    |d: SandboxAdditionalDirectoryOptions| (d.directory_path@, d.mount_point@),
                )[k] == mounts@.subrange(0, i - 1).map_values(
                    |m: DirMountOption| (m.source_path@, m.target_path@),
                )[k]);
            }
        }
        assert(r@.map_values(
            |d: SandboxAdditionalDirectoryOptions| (d.directory_path@, d.mount_point@),
        ) =~= mounts@.subrange(0, i as int).map_values(
            |m: DirMountOption| (m.source_path@, m.target_path@),
        ));
    }
    assert(mounts@.subrange(0, mounts@.len() as int) =~= mounts@);
    r
}

/// Builds the options of a run of `code` in `language`; `Unknown` is not
/// supported.
pub fn build_sandbox_execution_option(
    language: Language,
    code: String,
    stdin: String,
    time_limit_ms: u64,
    memory_limit_kb: u64,
) -> (r: Result<SandboxExecutionOptions, CoreExecutionError>)
    ensures
        language == Language::Unknown <==> r is Err,
        r is Err ==> r->Err_0 is NotSupportedLanguage,
        r is Ok ==> options_match(
            r.unwrap(),
            language,
            code@,
            stdin@,
            time_limit_ms,
            memory_limit_kb,
        ),
{
    let toolchain: LanguageToolchain = match language {
        Language::C => language_toolchain_c(),
        Language::Cpp => language_toolchain_cpp(),
        Language::Go => language_toolchain_go(),
        Language::Java => language_toolchain_java(),
        Language::Kotlin => language_toolchain_kotlin(),
        Language::Node => language_toolchain_node(),
        Language::Python => language_toolchain_python(),
        Language::Rust => language_toolchain_rust(),
        Language::Typescript => language_toolchain_typescript(),
        Language::Unknown => {
            return Err(
                CoreExecutionError::NotSupportedLanguage(String::from_str("Unknown language")),
            );
        },
    };
    let ghost tc = toolchain@;
    let mut files: Vec<SandboxAdditionalFileOptions> = Vec::new();
    let ghost code_view = code@;
    files.push(
        SandboxAdditionalFileOptions {
            file_name: String::from_str(source_file_name(language)),
            file_content: code,
        },
    );
    assert(files@.map_values(
        |f: SandboxAdditionalFileOptions| (f.file_name@, f.file_content@),
    ) =~= seq![(source_file_of(language), code_view)]);
    let LanguageToolchain { compile_option, runtime_option, .. } = toolchain;
    let compile_options = match compile_option {
        Some(c) => Some(
            CompileOptions { compiler_path: c.compiler_path, env: c.env, args: c.args },
        ),
        None => None,
    };
    let additional_directory_options = match runtime_option.dir_mount_options {
        Some(mounts) => Some(directory_options(mounts)),
        None => None,
    };
    Ok(
        SandboxExecutionOptions {
            additional_file_options: Some(files),
            compile_options,
            additional_directory_options,
            binary_path: runtime_option.binary_path,
            args: runtime_option.args,
            stdin,
            time_limit_ms,
            memory_limit_kb,
        },
    )
}

/// A request to run code: time limit in milliseconds, memory limit in
/// kilobytes.
pub struct CodeExecutionRequest {
    pub language: Language,
    pub code: String,
    pub input: String,
    pub time_limit_ms: u64,
    pub memory_limit_kb: u64,
}

#[derive(Debug, Clone, Copy, PartialEq, Eq, Structural)]
pub enum CodeExecutionStatus {
    Success,
    CompileError,
    RuntimeError,
    InternalError,
    TimeLimitExceeded,
    MemoryLimitExceeded,
}

/// What a request came to: time in milliseconds, memory in kilobytes.
pub struct CodeExecutionResult {
    pub status: CodeExecutionStatus,
    pub stdout: String,
    pub stderr: String,
    pub time_ms: u64,
    pub memory_kb: u64,
}

pub open spec fn code_status_of(s: SandboxExecutionStatus) -> CodeExecutionStatus {
    match s {
        SandboxExecutionStatus::Success => CodeExecutionStatus::Success,
        SandboxExecutionStatus::CompileError => CodeExecutionStatus::CompileError,
        SandboxExecutionStatus::RuntimeError => CodeExecutionStatus::RuntimeError,
        SandboxExecutionStatus::TimeLimitExceeded => CodeExecutionStatus::TimeLimitExceeded,
        SandboxExecutionStatus::MemoryLimitExceeded => CodeExecutionStatus::MemoryLimitExceeded,
    }
}

/// The options of a run for `request`.
pub fn request_options(request: CodeExecutionRequest) -> (r: Result<
    SandboxExecutionOptions,
    CoreExecutionError,
>)
    ensures
        request.language == Language::Unknown <==> r is Err,
        r is Err ==> r->Err_0 is NotSupportedLanguage,
        r is Ok ==> options_match(
            r.unwrap(),
            request.language,
            request.code@,
            request.input@,
            request.time_limit_ms,
            request.memory_limit_kb,
        ),
{
    build_sandbox_execution_option(
        request.language,
        request.code,
        request.input,
        request.time_limit_ms,
        request.memory_limit_kb,
    )
}

/// The result of a request from the outcome of its run.
pub fn code_execution_result(result: SandboxExecutionResult) -> (r: CodeExecutionResult)
    ensures
        r.status == code_status_of(result.status),
        r.stdout == result.stdout,
        r.stderr == result.stderr,
        r.time_ms == result.time_ms,
        r.memory_kb == result.memory_kb,
{
    let status = match result.status {
        SandboxExecutionStatus::Success => CodeExecutionStatus::Success,
        SandboxExecutionStatus::CompileError => CodeExecutionStatus::CompileError,
        SandboxExecutionStatus::RuntimeError => CodeExecutionStatus::RuntimeError,
        SandboxExecutionStatus::TimeLimitExceeded => CodeExecutionStatus::TimeLimitExceeded,
        SandboxExecutionStatus::MemoryLimitExceeded => CodeExecutionStatus::MemoryLimitExceeded,
    };
    CodeExecutionResult {
        status,
        stdout: result.stdout,
        stderr: result.stderr,
        time_ms: result.time_ms,
        memory_kb: result.memory_kb,
    }
}

} // verus!
