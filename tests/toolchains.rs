use pecan::errors::CoreExecutionError;
use pecan::options::{build_sandbox_execution_option, code_execution_result, CodeExecutionStatus};
use pecan::sandbox::{SandboxExecutionResult, SandboxExecutionStatus};
use pecan::toolchains::{
    language_toolchain_c, language_toolchain_cpp, language_toolchain_go, language_toolchain_java,
    language_toolchain_kotlin, language_toolchain_node, language_toolchain_python,
    language_toolchain_rust, language_toolchain_typescript, Language,
};

const JVM: [&str; 7] = [
    "-Xmx128m",
    "-Xms16m",
    "-Xss512k",
    "-XX:MaxMetaspaceSize=128m",
    "-XX:ReservedCodeCacheSize=64m",
    "-XX:MaxDirectMemorySize=32m",
    "-XX:CompressedClassSpaceSize=64m",
];

#[test]
fn language_identifiers_round_trip() {
    let all = [
        ("c", Language::C),
        ("cpp", Language::Cpp),
        ("go", Language::Go),
        ("java", Language::Java),
        ("kotlin", Language::Kotlin),
        ("node", Language::Node),
        ("python", Language::Python),
        ("rust", Language::Rust),
        ("typescript", Language::Typescript),
    ];
    for (s, l) in all {
        assert_eq!(Language::from(s), l);
    }
}

#[test]
fn other_strings_are_unknown() {
    for s in ["", "C", "Python", "py", "javascript", "c++", "rust ", "ts"] {
        assert_eq!(Language::from(s), Language::Unknown);
    }
}

#[test]
fn c_toolchain() {
    let t = language_toolchain_c();
    assert_eq!(t.name, "c");
    assert_eq!(t.identifier, "c");
    assert_eq!(t.version, "11");
    let c = t.compile_option.unwrap();
    assert_eq!(c.compiler_path, "/usr/bin/gcc");
    assert_eq!(c.args, vec!["-o", "main", "main.c"]);
    assert!(c.env.is_none());
    assert_eq!(t.runtime_option.binary_path, "main");
    assert!(t.runtime_option.dir_mount_options.is_none());
    assert!(t.runtime_option.args.is_empty());
}

#[test]
fn cpp_go_rust_toolchains() {
    let cpp = language_toolchain_cpp();
    assert_eq!(cpp.compile_option.as_ref().unwrap().compiler_path, "/usr/bin/g++");
    assert_eq!(cpp.compile_option.unwrap().args, vec!["-o", "main", "main.cpp"]);
    let go = language_toolchain_go();
    assert_eq!(go.version, "1.23.3");
    let gc = go.compile_option.unwrap();
    assert_eq!(gc.compiler_path, "/opt/toolchains/go/current/bin/go");
    assert_eq!(gc.args, vec!["build", "-o", "main", "main.go"]);
    assert_eq!(go.runtime_option.binary_path, "main");
    let rust = language_toolchain_rust();
    let rc = rust.compile_option.unwrap();
    assert_eq!(rc.compiler_path, "/opt/toolchains/rust/current/bin/rustc");
    assert_eq!(rc.args, vec!["-o", "main", "main.rs"]);
}

#[test]
fn java_and_kotlin_toolchains() {
    let java = language_toolchain_java();
    let jc = java.compile_option.unwrap();
    assert_eq!(jc.compiler_path, "/opt/toolchains/java/current/bin/javac");
    assert_eq!(jc.args, vec!["Main.java"]);
    assert_eq!(java.runtime_option.binary_path, "/opt/java/bin/java");
    let mounts = java.runtime_option.dir_mount_options.unwrap();
    assert_eq!(mounts.len(), 1);
    assert_eq!(mounts[0].source_path, "/opt/toolchains/java/current");
    assert_eq!(mounts[0].target_path, "/opt/java");
    let mut expected: Vec<&str> = JVM.to_vec();
    expected.push("Main");
    assert_eq!(java.runtime_option.args, expected);

    let kotlin = language_toolchain_kotlin();
    let kc = kotlin.compile_option.unwrap();
    assert_eq!(kc.compiler_path, "/opt/toolchains/kotlin/current/kotlinc/bin/kotlinc");
    assert_eq!(kc.args, vec!["Main.kt", "-include-runtime", "-d", "Main.jar"]);
    assert_eq!(
        kc.env.unwrap(),
        vec![("JAVA_HOME".to_string(), "/opt/toolchains/java/current".to_string())]
    );
    let mut expected: Vec<&str> = JVM.to_vec();
    expected.push("-jar");
    expected.push("Main.jar");
    assert_eq!(kotlin.runtime_option.args, expected);
}

#[test]
fn interpreted_toolchains() {
    let node = language_toolchain_node();
    assert!(node.compile_option.is_none());
    assert_eq!(node.runtime_option.binary_path, "/opt/node/bin/node");
    assert_eq!(node.runtime_option.args, vec!["main.js"]);
    let python = language_toolchain_python();
    assert!(python.compile_option.is_none());
    assert_eq!(python.version, "3.12.7");
    assert_eq!(python.runtime_option.binary_path, "/opt/python/bin/python3");
    let m = python.runtime_option.dir_mount_options.unwrap();
    assert_eq!(m[0].source_path, "/opt/toolchains/python/current");
    assert_eq!(m[0].target_path, "/opt/python");
    assert_eq!(python.runtime_option.args, vec!["main.py"]);
    let ts = language_toolchain_typescript();
    let tc = ts.compile_option.unwrap();
    assert_eq!(tc.compiler_path, "/opt/toolchains/typescript/current/bin/tsc");
    assert_eq!(tc.args, vec!["main.ts"]);
    assert_eq!(ts.runtime_option.binary_path, "/opt/node/bin/node");
    assert_eq!(ts.runtime_option.args, vec!["main.js"]);
}

#[test]
fn unknown_language_is_not_supported() {
    let r = build_sandbox_execution_option(
        Language::Unknown,
        "print(1)".to_string(),
        String::new(),
        1000,
        65536,
    );
    assert!(matches!(r, Err(CoreExecutionError::NotSupportedLanguage(_))));
}

#[test]
fn python_options() {
    let code = "print(sum(int(input()) for _ in range(int(input()))))".to_string();
    let o = build_sandbox_execution_option(
        Language::Python,
        code.clone(),
        "3\n1\n2\n3\n".to_string(),
        2000,
        65536,
    )
    .ok()
    .unwrap();
    let files = o.additional_file_options.unwrap();
    assert_eq!(files.len(), 1);
    assert_eq!(files[0].file_name, "main.py");
    assert_eq!(files[0].file_content, code);
    assert!(o.compile_options.is_none());
    let dirs = o.additional_directory_options.unwrap();
    assert_eq!(dirs[0].directory_path, "/opt/toolchains/python/current");
    assert_eq!(dirs[0].mount_point, "/opt/python");
    assert_eq!(o.binary_path, "/opt/python/bin/python3");
    assert_eq!(o.args, vec!["main.py"]);
    assert_eq!(o.stdin, "3\n1\n2\n3\n");
    assert_eq!(o.time_limit_ms, 2000);
    assert_eq!(o.memory_limit_kb, 65536);
}

#[test]
fn c_options_carry_the_compile_step() {
    let o = build_sandbox_execution_option(Language::C, "int main(){return".to_string(), String::new(), 1000, 1024)
        .ok()
        .unwrap();
    let files = o.additional_file_options.unwrap();
    assert_eq!(files[0].file_name, "main.c");
    let c = o.compile_options.unwrap();
    assert_eq!(c.compiler_path, "/usr/bin/gcc");
    assert_eq!(c.args, vec!["-o", "main", "main.c"]);
    assert!(o.additional_directory_options.is_none());
    assert_eq!(o.binary_path, "main");
    assert!(o.args.is_empty());
}

#[test]
fn kotlin_options_keep_the_compiler_environment() {
    let o = build_sandbox_execution_option(Language::Kotlin, "fun main() {}".to_string(), String::new(), 10000, 2048000)
        .ok()
        .unwrap();
    assert_eq!(o.additional_file_options.unwrap()[0].file_name, "Main.kt");
    let c = o.compile_options.unwrap();
    assert_eq!(c.env.unwrap()[0].0, "JAVA_HOME");
    assert_eq!(o.binary_path, "/opt/java/bin/java");
}

#[test]
fn run_outcome_maps_to_request_result() {
    let r = code_execution_result(SandboxExecutionResult {
        status: SandboxExecutionStatus::TimeLimitExceeded,
        stdout: "x".to_string(),
        stderr: "y".to_string(),
        time_ms: 512,
        memory_kb: 2048,
    });
    assert_eq!(r.status, CodeExecutionStatus::TimeLimitExceeded);
    assert_eq!(r.stdout, "x");
    assert_eq!(r.stderr, "y");
    assert_eq!(r.time_ms, 512);
    assert_eq!(r.memory_kb, 2048);
}
