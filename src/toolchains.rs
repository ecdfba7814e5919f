//! The catalog of supported languages: for each, its source file, its compile
//! step if it has one, and how its program is run inside the sandbox.
use crate::text::{joined, push_str, strings};
use vstd::prelude::*;
use vstd::string::*;

verus! {

#[derive(Debug, Clone, Copy, PartialEq, Eq, Structural)]
pub enum Language {
    C,
    Cpp,
    Go,
    Java,
    Kotlin,
    Node,
    Python,
    Rust,
    Typescript,
    Unknown,
}

/// The language a lowercase identifier names; any other text is `Unknown`.
pub open spec fn language_of(s: Seq<char>) -> Language {
    if s == "c"@ {
        Language::C
    } else if s == "cpp"@ {
        Language::Cpp
    } else if s == "go"@ {
        Language::Go
    } else if s == "java"@ {
        Language::Java
    } else if s == "kotlin"@ {
        Language::Kotlin
    } else if s == "node"@ {
        Language::Node
    } else if s == "python"@ {
        Language::Python
    } else if s == "rust"@ {
        Language::Rust
    } else if s == "typescript"@ {
        Language::Typescript
    } else {
        Language::Unknown
    }
}

/// The identifier of a supported language.
pub open spec fn identifier_of(l: Language) -> Seq<char> {
    match l {
        Language::C => "c"@,
        Language::Cpp => "cpp"@,
        Language::Go => "go"@,
        Language::Java => "java"@,
        Language::Kotlin => "kotlin"@,
        Language::Node => "node"@,
        Language::Python => "python"@,
        Language::Rust => "rust"@,
        Language::Typescript => "typescript"@,
        Language::Unknown => Seq::empty(),
    }
}

/// Every supported language is named by its identifier, and by nothing else;
/// text that is no identifier names `Unknown`.
pub proof fn lemma_language_round_trip(l: Language, s: Seq<char>)
    ensures
        l != Language::Unknown ==> language_of(identifier_of(l)) == l,
        language_of(s) != Language::Unknown ==> identifier_of(language_of(s)) == s,
        (forall|k: Language| k != Language::Unknown ==> s != #[trigger] identifier_of(k))
            ==> language_of(s) == Language::Unknown,
{
    reveal_strlit("c");
    reveal_strlit("cpp");
    reveal_strlit("go");
    reveal_strlit("java");
    reveal_strlit("kotlin");
    reveal_strlit("node");
    reveal_strlit("python");
    reveal_strlit("rust");
    reveal_strlit("typescript");
    assert("c"@.len() == 1 && "cpp"@.len() == 3 && "go"@.len() == 2 && "typescript"@.len() == 10);
    assert("java"@.len() == 4 && "node"@.len() == 4 && "rust"@.len() == 4);
    assert("java"@[0] == 'j' && "node"@[0] == 'n' && "rust"@[0] == 'r');
    assert("kotlin"@.len() == 6 && "python"@.len() == 6);
    assert("kotlin"@[0] == 'k' && "python"@[0] == 'p');
    if language_of(s) != Language::Unknown {
        assert(identifier_of(language_of(s)) == s);
    }
}

fn text_is(s: &String, lit: &str) -> (r: bool)
    ensures
        r == (s@ == lit@),
{
    *s == String::from_str(lit)
}

impl<'a> From<&'a str> for Language {
    fn from(value: &'a str) -> (r: Language) {
        let v = String::from_str(value);
        if text_is(&v, "c") {
            Language::C
        } else if text_is(&v, "cpp") {
            Language::Cpp
        } else if text_is(&v, "go") {
            Language::Go
        } else if text_is(&v, "java") {
            Language::Java
        } else if text_is(&v, "kotlin") {
            Language::Kotlin
        } else if text_is(&v, "node") {
            Language::Node
        } else if text_is(&v, "python") {
            Language::Python
        } else if text_is(&v, "rust") {
            Language::Rust
        } else if text_is(&v, "typescript") {
            Language::Typescript
        } else {
            Language::Unknown
        }
    }
}

impl<'a> vstd::std_specs::convert::FromSpecImpl<&'a str> for Language {
    open spec fn obeys_from_spec() -> bool {
        true
    }

    open spec fn from_spec(v: &'a str) -> Language {
        language_of(v@)
    }
}


pub const C_VERSION: &'static str = "11";

pub const GCC_BIN: &'static str = "/usr/bin/gcc";

pub const C_SOURCE_FILE_NAME: &'static str = "main.c";

pub const C_BINARY_FILE_NAME: &'static str = "main";

pub const CPP_VERSION: &'static str = "11";

pub const GXX_BIN: &'static str = "/usr/bin/g++";

pub const CPP_SOURCE_FILE_NAME: &'static str = "main.cpp";

pub const CPP_BINARY_FILE_NAME: &'static str = "main";

pub const GO_VERSION: &'static str = "1.23.3";

pub const GO_BIN: &'static str = "bin/go";

pub const GO_DIR: &'static str = "/opt/toolchains/go/current";

pub const GO_SOURCE_FILE_NAME: &'static str = "main.go";

pub const GO_BINARY_FILE_NAME: &'static str = "main";

pub const JAVA_VERSION: &'static str = "17";

pub const JAVA_BIN: &'static str = "bin/java";

pub const JAVAC_BIN: &'static str = "bin/javac";

pub const JAVA_DIR: &'static str = "/opt/toolchains/java/current";

pub const JAVA_MOUNT_POINT: &'static str = "/opt/java";

pub const JAVA_SOURCE_FILE_NAME: &'static str = "Main.java";

pub const JAVA_CLASS_NAME: &'static str = "Main";

pub const KOTLIN_VERSION: &'static str = "2.0.21";

pub const KOTLINC_BIN: &'static str = "kotlinc/bin/kotlinc";

pub const KOTLIN_DIR: &'static str = "/opt/toolchains/kotlin/current";

pub const KOTLIN_SOURCE_FILE_NAME: &'static str = "Main.kt";

pub const KOTLIN_JAR_FILE_NAME: &'static str = "Main.jar";

pub const NODE_VERSION: &'static str = "20.18.0";

pub const NODE_BIN: &'static str = "bin/node";

pub const NODE_DIR: &'static str = "/opt/toolchains/node/current";

pub const NODE_MOUNT_POINT: &'static str = "/opt/node";

pub const NODE_SOURCE_FILE_NAME: &'static str = "main.js";

pub const PYTHON_VERSION: &'static str = "3.12.7";

pub const PYTHON_BIN: &'static str = "bin/python3";

pub const PYTHON_DIR: &'static str = "/opt/toolchains/python/current";

pub const PYTHON_MOUNT_POINT: &'static str = "/opt/python";

pub const PYTHON_SOURCE_FILE_NAME: &'static str = "main.py";

pub const RUST_VERSION: &'static str = "1.81.0";

pub const RUSTC_BIN: &'static str = "bin/rustc";

pub const RUST_DIR: &'static str = "/opt/toolchains/rust/current";

pub const RUST_SOURCE_FILE_NAME: &'static str = "main.rs";

pub const RUST_BINARY_FILE_NAME: &'static str = "main";

pub const TYPESCRIPT_VERSION: &'static str = "5.7.3";

pub const TYPESCRIPT_BIN: &'static str = "bin/tsc";

pub const TYPESCRIPT_DIR: &'static str = "/opt/toolchains/typescript/current";

pub const TYPESCRIPT_SOURCE_FILE_NAME: &'static str = "main.ts";

pub const TYPESCRIPT_JS_FILE_NAME: &'static str = "main.js";

/// `b` under directory `a`, as a relative path joins onto a directory.
pub open spec fn join_path(a: Seq<char>, b: Seq<char>) -> Seq<char> {
    a + "/"@ + b
}

fn path_join(a: &str, b: &str) -> (r: String)
    ensures
        r@ == join_path(a@, b@),
{
    joined(a, "/").concat(b)
}

/// A host directory mounted at a path inside the sandbox.
#[derive(Debug, Clone)]
pub struct DirMountOption {
    pub source_path: String,
    pub target_path: String,
}

#[derive(Debug, Clone)]
pub struct CompileOption {
    pub compiler_path: String,
    /// Environment variables of the compiler, as name and value.
    pub env: Option<Vec<(String, String)>>,
    pub args: Vec<String>,
}

#[derive(Debug, Clone)]
pub struct RuntimeOption {
    pub binary_path: String,
    pub dir_mount_options: Option<Vec<DirMountOption>>,
    pub env: Option<Vec<(String, String)>>,
    pub args: Vec<String>,
}

#[derive(Debug, Clone)]
pub struct LanguageToolchain {
    pub name: String,
    pub identifier: String,
    pub version: String,
    pub compile_option: Option<CompileOption>,
    pub runtime_option: RuntimeOption,
}

pub open spec fn pairs_view(o: Option<Vec<(String, String)>>) -> Option<Seq<(Seq<char>, Seq<char>)>> {
    match o {
        Some(v) => Some(v@.map_values(|p: (String, String)| (p.0@, p.1@))),
        None => None,
    }
}

pub open spec fn mounts_view(o: Option<Vec<DirMountOption>>) -> Option<Seq<(Seq<char>, Seq<char>)>> {
    match o {
        Some(v) => Some(v@.map_values(|m: DirMountOption| (m.source_path@, m.target_path@))),
        None => None,
    }
}

pub ghost struct CompileView {
    pub compiler_path: Seq<char>,
    pub env: Option<Seq<(Seq<char>, Seq<char>)>>,
    pub args: Seq<Seq<char>>,
}

/// How a program runs: its binary, the mounts as (host source, sandbox
/// target), its environment and its arguments.
pub ghost struct RuntimeView {
    pub binary_path: Seq<char>,
    pub mounts: Option<Seq<(Seq<char>, Seq<char>)>>,
    pub env: Option<Seq<(Seq<char>, Seq<char>)>>,
    pub args: Seq<Seq<char>>,
}

pub ghost struct ToolchainView {
    pub name: Seq<char>,
    pub identifier: Seq<char>,
    pub version: Seq<char>,
    pub compile: Option<CompileView>,
    pub runtime: RuntimeView,
}

impl View for CompileOption {
    type V = CompileView;

    open spec fn view(&self) -> CompileView {
        CompileView { compiler_path: self.compiler_path@, env: pairs_view(self.env), args: strings(self.args@) }
    }
}

impl View for RuntimeOption {
    type V = RuntimeView;

    open spec fn view(&self) -> RuntimeView {
        RuntimeView {
            binary_path: self.binary_path@,
            mounts: mounts_view(self.dir_mount_options),
            env: pairs_view(self.env),
            args: strings(self.args@),
        }
    }
}

impl View for LanguageToolchain {
    type V = ToolchainView;

    open spec fn view(&self) -> ToolchainView {
        ToolchainView {
            name: self.name@,
            identifier: self.identifier@,
            version: self.version@,
            compile: match self.compile_option {
                Some(c) => Some(c@),
                None => None,
            },
            runtime: self.runtime_option@,
        }
    }
}

/// Memory and stack settings of the Java virtual machine.
pub open spec fn jvm_flags() -> Seq<Seq<char>> {
    seq!["-Xmx128m"@, "-Xms16m"@, "-Xss512k"@, "-XX:MaxMetaspaceSize=128m"@, "-XX:ReservedCodeCacheSize=64m"@, "-XX:MaxDirectMemorySize=32m"@, "-XX:CompressedClassSpaceSize=64m"@]
}

fn push_jvm_flags(v: &mut Vec<String>)
    ensures
        strings(final(v)@) == strings(old(v)@) + jvm_flags(),
{
    push_str(v, "-Xmx128m");
    push_str(v, "-Xms16m");
    push_str(v, "-Xss512k");
    push_str(v, "-XX:MaxMetaspaceSize=128m");
    push_str(v, "-XX:ReservedCodeCacheSize=64m");
    push_str(v, "-XX:MaxDirectMemorySize=32m");
    push_str(v, "-XX:CompressedClassSpaceSize=64m");
    assert(strings(final(v)@) =~= strings(old(v)@) + jvm_flags());
}

/// The toolchain of each supported language; `Unknown` has none.
pub open spec fn toolchain_of(l: Language) -> Option<ToolchainView> {
    match l {
        Language::C => Some(
            ToolchainView {
                name: "c"@,
                identifier: "c"@,
                version: C_VERSION@,
                compile: Some(
                    CompileView {
                        compiler_path: GCC_BIN@,
                        env: None,
                        args: seq!["-o"@, C_BINARY_FILE_NAME@, C_SOURCE_FILE_NAME@],
                    },
                ),
                runtime: RuntimeView {
                    binary_path: C_BINARY_FILE_NAME@,
                    mounts: None,
                    env: None,
                    args: Seq::empty(),
                },
            },
        ),
        Language::Cpp => Some(
            ToolchainView {
                name: "cpp"@,
                identifier: "cpp"@,
                version: CPP_VERSION@,
                compile: Some(
                    CompileView {
                        compiler_path: GXX_BIN@,
                        env: None,
                        args: seq!["-o"@, CPP_BINARY_FILE_NAME@, CPP_SOURCE_FILE_NAME@],
                    },
                ),
                runtime: RuntimeView {
                    binary_path: CPP_BINARY_FILE_NAME@,
                    mounts: None,
                    env: None,
                    args: Seq::empty(),
                },
            },
        ),
        Language::Go => Some(
            ToolchainView {
                name: "go"@,
                identifier: "go"@,
                version: GO_VERSION@,
                compile: Some(
                    CompileView {
                        compiler_path: join_path(GO_DIR@, GO_BIN@),
                        env: None,
                        args: seq!["build"@, "-o"@, GO_BINARY_FILE_NAME@, GO_SOURCE_FILE_NAME@],
                    },
                ),
                runtime: RuntimeView {
                    binary_path: GO_BINARY_FILE_NAME@,
                    mounts: None,
                    env: None,
                    args: Seq::empty(),
                },
            },
        ),
        Language::Java => Some(
            ToolchainView {
                name: "java"@,
                identifier: "java"@,
                version: JAVA_VERSION@,
                compile: Some(
                    CompileView {
                        compiler_path: join_path(JAVA_DIR@, JAVAC_BIN@),
                        env: None,
                        args: seq![JAVA_SOURCE_FILE_NAME@],
                    },
                ),
                runtime: RuntimeView {
                    binary_path: join_path(JAVA_MOUNT_POINT@, JAVA_BIN@),
                    mounts: Some(seq![(JAVA_DIR@, JAVA_MOUNT_POINT@)]),
                    env: None,
                    args: jvm_flags() + seq![JAVA_CLASS_NAME@],
                },
            },
        ),
        Language::Kotlin => Some(
            ToolchainView {
                name: "kotlin"@,
                identifier: "kotlin"@,
                version: KOTLIN_VERSION@,
                compile: Some(
                    CompileView {
                        compiler_path: join_path(KOTLIN_DIR@, KOTLINC_BIN@),
                        env: Some(seq![("JAVA_HOME"@, JAVA_DIR@)]),
                        args: seq![KOTLIN_SOURCE_FILE_NAME@, "-include-runtime"@, "-d"@, KOTLIN_JAR_FILE_NAME@],
                    },
                ),
                runtime: RuntimeView {
                    binary_path: join_path(JAVA_MOUNT_POINT@, JAVA_BIN@),
                    mounts: Some(seq![(JAVA_DIR@, JAVA_MOUNT_POINT@)]),
                    env: None,
                    args: jvm_flags() + seq!["-jar"@, KOTLIN_JAR_FILE_NAME@],
                },
            },
        ),
        Language::Node => Some(
            ToolchainView {
                name: "node"@,
                identifier: "node"@,
                version: NODE_VERSION@,
                compile: None,
                runtime: RuntimeView {
                    binary_path: join_path(NODE_MOUNT_POINT@, NODE_BIN@),
                    mounts: Some(seq![(NODE_DIR@, NODE_MOUNT_POINT@)]),
                    env: None,
                    args: seq![NODE_SOURCE_FILE_NAME@],
                },
            },
        ),
        Language::Python => Some(
            ToolchainView {
                name: "python"@,
                identifier: "python"@,
                version: PYTHON_VERSION@,
                compile: None,
                runtime: RuntimeView {
                    binary_path: join_path(PYTHON_MOUNT_POINT@, PYTHON_BIN@),
                    mounts: Some(seq![(PYTHON_DIR@, PYTHON_MOUNT_POINT@)]),
                    env: None,
                    args: seq![PYTHON_SOURCE_FILE_NAME@],
                },
            },
        ),
        Language::Rust => Some(
            ToolchainView {
                name: "rust"@,
                identifier: "rust"@,
                version: RUST_VERSION@,
                compile: Some(
                    CompileView {
                        compiler_path: join_path(RUST_DIR@, RUSTC_BIN@),
                        env: None,
                        args: seq!["-o"@, RUST_BINARY_FILE_NAME@, RUST_SOURCE_FILE_NAME@],
                    },
                ),
                runtime: RuntimeView {
                    binary_path: RUST_BINARY_FILE_NAME@,
                    mounts: None,
                    env: None,
                    args: Seq::empty(),
                },
            },
        ),
        Language::Typescript => Some(
            ToolchainView {
                name: "typescript"@,
                identifier: "typescript"@,
                version: TYPESCRIPT_VERSION@,
                compile: Some(
                    CompileView {
                        compiler_path: join_path(TYPESCRIPT_DIR@, TYPESCRIPT_BIN@),
                        env: None,
                        args: seq![TYPESCRIPT_SOURCE_FILE_NAME@],
                    },
                ),
                runtime: RuntimeView {
                    binary_path: join_path(NODE_MOUNT_POINT@, NODE_BIN@),
                    mounts: Some(seq![(NODE_DIR@, NODE_MOUNT_POINT@)]),
                    env: None,
                    args: seq![TYPESCRIPT_JS_FILE_NAME@],
                },
            },
        ),
        Language::Unknown => None,
    }
}

/// The source file each supported language's code is written to.
pub open spec fn source_file_of(l: Language) -> Seq<char> {
    match l {
        Language::C => C_SOURCE_FILE_NAME@,
        Language::Cpp => CPP_SOURCE_FILE_NAME@,
        Language::Go => GO_SOURCE_FILE_NAME@,
        Language::Java => JAVA_SOURCE_FILE_NAME@,
        Language::Kotlin => KOTLIN_SOURCE_FILE_NAME@,
        Language::Node => NODE_SOURCE_FILE_NAME@,
        Language::Python => PYTHON_SOURCE_FILE_NAME@,
        Language::Rust => RUST_SOURCE_FILE_NAME@,
        Language::Typescript => TYPESCRIPT_SOURCE_FILE_NAME@,
        Language::Unknown => Seq::empty(),
    }
}

pub fn language_toolchain_c() -> (r: LanguageToolchain)
    ensures
        Some(r@) == toolchain_of(Language::C),
{
    let mut cargs: Vec<String> = Vec::new();
    push_str(&mut cargs, "-o");
    push_str(&mut cargs, C_BINARY_FILE_NAME);
    push_str(&mut cargs, C_SOURCE_FILE_NAME);
    assert(strings(cargs@) =~= seq!["-o"@, C_BINARY_FILE_NAME@, C_SOURCE_FILE_NAME@]);
    let mut rargs: Vec<String> = Vec::new();
    assert(strings(rargs@) =~= Seq::empty());
    let r = LanguageToolchain {
        name: String::from_str("c"),
        identifier: String::from_str("c"),
        version: String::from_str(C_VERSION),
        compile_option: Some(CompileOption { compiler_path: String::from_str(GCC_BIN), env: None, args: cargs }),
        runtime_option: RuntimeOption { binary_path: String::from_str(C_BINARY_FILE_NAME), dir_mount_options: None, env: None, args: rargs },
    };
    r
}

pub fn language_toolchain_cpp() -> (r: LanguageToolchain)
    ensures
        Some(r@) == toolchain_of(Language::Cpp),
{
    let mut cargs: Vec<String> = Vec::new();
    push_str(&mut cargs, "-o");
    push_str(&mut cargs, CPP_BINARY_FILE_NAME);
    push_str(&mut cargs, CPP_SOURCE_FILE_NAME);
    assert(strings(cargs@) =~= seq!["-o"@, CPP_BINARY_FILE_NAME@, CPP_SOURCE_FILE_NAME@]);
    let mut rargs: Vec<String> = Vec::new();
    assert(strings(rargs@) =~= Seq::empty());
    let r = LanguageToolchain {
        name: String::from_str("cpp"),
        identifier: String::from_str("cpp"),
        version: String::from_str(CPP_VERSION),
        compile_option: Some(CompileOption { compiler_path: String::from_str(GXX_BIN), env: None, args: cargs }),
        runtime_option: RuntimeOption { binary_path: String::from_str(CPP_BINARY_FILE_NAME), dir_mount_options: None, env: None, args: rargs },
    };
    r
}

pub fn language_toolchain_go() -> (r: LanguageToolchain)
    ensures
        Some(r@) == toolchain_of(Language::Go),
{
    let mut cargs: Vec<String> = Vec::new();
    push_str(&mut cargs, "build");
    push_str(&mut cargs, "-o");
    push_str(&mut cargs, GO_BINARY_FILE_NAME);
    push_str(&mut cargs, GO_SOURCE_FILE_NAME);
    assert(strings(cargs@) =~= seq!["build"@, "-o"@, GO_BINARY_FILE_NAME@, GO_SOURCE_FILE_NAME@]);
    let mut rargs: Vec<String> = Vec::new();
    assert(strings(rargs@) =~= Seq::empty());
    let r = LanguageToolchain {
        name: String::from_str("go"),
        identifier: String::from_str("go"),
        version: String::from_str(GO_VERSION),
        compile_option: Some(CompileOption { compiler_path: path_join(GO_DIR, GO_BIN), env: None, args: cargs }),
        runtime_option: RuntimeOption { binary_path: String::from_str(GO_BINARY_FILE_NAME), dir_mount_options: None, env: None, args: rargs },
    };
    r
}

pub fn language_toolchain_java() -> (r: LanguageToolchain)
    ensures
        Some(r@) == toolchain_of(Language::Java),
{
    let mut cargs: Vec<String> = Vec::new();
    push_str(&mut cargs, JAVA_SOURCE_FILE_NAME);
    assert(strings(cargs@) =~= seq![JAVA_SOURCE_FILE_NAME@]);
    let mut rargs: Vec<String> = Vec::new();
    push_jvm_flags(&mut rargs);
    push_str(&mut rargs, JAVA_CLASS_NAME);
    assert(strings(rargs@) =~= jvm_flags() + seq![JAVA_CLASS_NAME@]);
    let mut mounts: Vec<DirMountOption> = Vec::new();
    mounts.push(DirMountOption { source_path: String::from_str(JAVA_DIR), target_path: String::from_str(JAVA_MOUNT_POINT) });
    let r = LanguageToolchain {
        name: String::from_str("java"),
        identifier: String::from_str("java"),
        version: String::from_str(JAVA_VERSION),
        compile_option: Some(CompileOption { compiler_path: path_join(JAVA_DIR, JAVAC_BIN), env: None, args: cargs }),
        runtime_option: RuntimeOption { binary_path: path_join(JAVA_MOUNT_POINT, JAVA_BIN), dir_mount_options: Some(mounts), env: None, args: rargs },
    };
    assert(r@.runtime.mounts =~= Some(seq![(JAVA_DIR@, JAVA_MOUNT_POINT@)]));
    r
}

pub fn language_toolchain_kotlin() -> (r: LanguageToolchain)
    ensures
        Some(r@) == toolchain_of(Language::Kotlin),
{
    let mut cargs: Vec<String> = Vec::new();
    push_str(&mut cargs, KOTLIN_SOURCE_FILE_NAME);
    push_str(&mut cargs, "-include-runtime");
    push_str(&mut cargs, "-d");
    push_str(&mut cargs, KOTLIN_JAR_FILE_NAME);
    assert(strings(cargs@) =~= seq![KOTLIN_SOURCE_FILE_NAME@, "-include-runtime"@, "-d"@, KOTLIN_JAR_FILE_NAME@]);
    let mut env: Vec<(String, String)> = Vec::new();
    env.push((String::from_str("JAVA_HOME"), String::from_str(JAVA_DIR)));
    let mut rargs: Vec<String> = Vec::new();
    push_jvm_flags(&mut rargs);
    push_str(&mut rargs, "-jar");
    push_str(&mut rargs, KOTLIN_JAR_FILE_NAME);
    assert(strings(rargs@) =~= jvm_flags() + seq!["-jar"@, KOTLIN_JAR_FILE_NAME@]);
    let mut mounts: Vec<DirMountOption> = Vec::new();
    mounts.push(DirMountOption { source_path: String::from_str(JAVA_DIR), target_path: String::from_str(JAVA_MOUNT_POINT) });
    let r = LanguageToolchain {
        name: String::from_str("kotlin"),
        identifier: String::from_str("kotlin"),
        version: String::from_str(KOTLIN_VERSION),
        compile_option: Some(CompileOption { compiler_path: path_join(KOTLIN_DIR, KOTLINC_BIN), env: Some(env), args: cargs }),
        runtime_option: RuntimeOption { binary_path: path_join(JAVA_MOUNT_POINT, JAVA_BIN), dir_mount_options: Some(mounts), env: None, args: rargs },
    };
    assert(r@.compile.unwrap().env =~= Some(seq![("JAVA_HOME"@, JAVA_DIR@)]));
    assert(r@.runtime.mounts =~= Some(seq![(JAVA_DIR@, JAVA_MOUNT_POINT@)]));
    r
}

pub fn language_toolchain_node() -> (r: LanguageToolchain)
    ensures
        Some(r@) == toolchain_of(Language::Node),
{
    let mut rargs: Vec<String> = Vec::new();
    push_str(&mut rargs, NODE_SOURCE_FILE_NAME);
    assert(strings(rargs@) =~= seq![NODE_SOURCE_FILE_NAME@]);
    let mut mounts: Vec<DirMountOption> = Vec::new();
    mounts.push(DirMountOption { source_path: String::from_str(NODE_DIR), target_path: String::from_str(NODE_MOUNT_POINT) });
    let r = LanguageToolchain {
        name: String::from_str("node"),
        identifier: String::from_str("node"),
        version: String::from_str(NODE_VERSION),
        compile_option: None,
        runtime_option: RuntimeOption { binary_path: path_join(NODE_MOUNT_POINT, NODE_BIN), dir_mount_options: Some(mounts), env: None, args: rargs },
    };
    assert(r@.runtime.mounts =~= Some(seq![(NODE_DIR@, NODE_MOUNT_POINT@)]));
    r
}

pub fn language_toolchain_python() -> (r: LanguageToolchain)
    ensures
        Some(r@) == toolchain_of(Language::Python),
{
    let mut rargs: Vec<String> = Vec::new();
    push_str(&mut rargs, PYTHON_SOURCE_FILE_NAME);
    assert(strings(rargs@) =~= seq![PYTHON_SOURCE_FILE_NAME@]);
    let mut mounts: Vec<DirMountOption> = Vec::new();
    mounts.push(DirMountOption { source_path: String::from_str(PYTHON_DIR), target_path: String::from_str(PYTHON_MOUNT_POINT) });
    let r = LanguageToolchain {
        name: String::from_str("python"),
        identifier: String::from_str("python"),
        version: String::from_str(PYTHON_VERSION),
        compile_option: None,
        runtime_option: RuntimeOption { binary_path: path_join(PYTHON_MOUNT_POINT, PYTHON_BIN), dir_mount_options: Some(mounts), env: None, args: rargs },
    };
    assert(r@.runtime.mounts =~= Some(seq![(PYTHON_DIR@, PYTHON_MOUNT_POINT@)]));
    r
}

pub fn language_toolchain_rust() -> (r: LanguageToolchain)
    ensures
        Some(r@) == toolchain_of(Language::Rust),
{
    let mut cargs: Vec<String> = Vec::new();
    push_str(&mut cargs, "-o");
    push_str(&mut cargs, RUST_BINARY_FILE_NAME);
    push_str(&mut cargs, RUST_SOURCE_FILE_NAME);
    assert(strings(cargs@) =~= seq!["-o"@, RUST_BINARY_FILE_NAME@, RUST_SOURCE_FILE_NAME@]);
    let mut rargs: Vec<String> = Vec::new();
    assert(strings(rargs@) =~= Seq::empty());
    let r = LanguageToolchain {
        name: String::from_str("rust"),
        identifier: String::from_str("rust"),
        version: String::from_str(RUST_VERSION),
        compile_option: Some(CompileOption { compiler_path: path_join(RUST_DIR, RUSTC_BIN), env: None, args: cargs }),
        runtime_option: RuntimeOption { binary_path: String::from_str(RUST_BINARY_FILE_NAME), dir_mount_options: None, env: None, args: rargs },
    };
    r
}

pub fn language_toolchain_typescript() -> (r: LanguageToolchain)
    ensures
        Some(r@) == toolchain_of(Language::Typescript),
{
    let mut cargs: Vec<String> = Vec::new();
    push_str(&mut cargs, TYPESCRIPT_SOURCE_FILE_NAME);
    assert(strings(cargs@) =~= seq![TYPESCRIPT_SOURCE_FILE_NAME@]);
    let mut rargs: Vec<String> = Vec::new();
    push_str(&mut rargs, TYPESCRIPT_JS_FILE_NAME);
    assert(strings(rargs@) =~= seq![TYPESCRIPT_JS_FILE_NAME@]);
    let mut mounts: Vec<DirMountOption> = Vec::new();
    mounts.push(DirMountOption { source_path: String::from_str(NODE_DIR), target_path: String::from_str(NODE_MOUNT_POINT) });
    let r = LanguageToolchain {
        name: String::from_str("typescript"),
        identifier: String::from_str("typescript"),
        version: String::from_str(TYPESCRIPT_VERSION),
        compile_option: Some(CompileOption { compiler_path: path_join(TYPESCRIPT_DIR, TYPESCRIPT_BIN), env: None, args: cargs }),
        runtime_option: RuntimeOption { binary_path: path_join(NODE_MOUNT_POINT, NODE_BIN), dir_mount_options: Some(mounts), env: None, args: rargs },
    };
    assert(r@.runtime.mounts =~= Some(seq![(NODE_DIR@, NODE_MOUNT_POINT@)]));
    r
}

} // verus!
