use vstd::prelude::*;

use crate::command::{spec_texts, CommandArgs};
use crate::compiler::Compiler;
use crate::sandbox::{Resource, RlimitConfig, SandboxConfig};

verus! {

/// What is known of a language: how its submissions are built and how they
/// are run.
#[derive(Debug, Clone, Copy, PartialEq, Eq)]
pub struct Language<'a> {
    pub compiler: Compiler<'a>,
    pub runner_args: CommandArgs<'a>,
}

/// The languages that the registry knows.
#[derive(Debug, Clone, Copy, PartialEq, Eq, Structural)]
pub enum LanguageKey {
    Cpp,
    Rust,
    Java,
    Python,
}

/// The largest stack and the largest address space of a child, in bytes.
pub const DEFAULT_MEMORY_RLIMIT: u64 = 1_073_741_824;

/// The processor seconds after which a child is warned.
pub const DEFAULT_CPU_SOFT_RLIMIT: u64 = 60;

/// The processor seconds after which a child is killed.
pub const DEFAULT_CPU_HARD_RLIMIT: u64 = 90;

/// The largest file that a child can write, in bytes.
pub const DEFAULT_FSIZE_RLIMIT: u64 = 1_024;

impl<'a> Language<'a> {
    /// Whether the language writes its source to `main_file`, builds it with
    /// `build`, given as an argument vector and empty where nothing is built,
    /// and runs it with the argument vector `run`.
    pub open spec fn spec_is(
        &self,
        main_file: Seq<char>,
        build: Seq<Seq<char>>,
        run: Seq<Seq<char>>,
    ) -> bool {
        &&& self.compiler.main_file@ == main_file
        &&& match self.compiler.args {
            Some(args) => args.spec_argv() == build,
            None => build.len() == 0,
        }
        &&& self.runner_args.spec_argv() == run
    }
}

/// C++: built with `g++` into `main`, which is run.
pub fn cpp() -> (language: Language<'static>)
    ensures
        language.spec_is(
            "main.cpp"@,
            seq!["g++"@, "-o"@, "main"@, "main.cpp"@],
            seq!["./main"@],
        ),
{
    let language = Language {
        compiler: Compiler {
            main_file: "main.cpp",
            args: Some(CommandArgs { binary: "g++", args: &["-o", "main", "main.cpp"] }),
        },
        runner_args: CommandArgs { binary: "./main", args: &[] },
    };
    assert(language.compiler.args.unwrap().spec_argv() =~= seq![
        "g++"@,
        "-o"@,
        "main"@,
        "main.cpp"@,
    ]);
    assert(language.runner_args.spec_argv() =~= seq!["./main"@]);
    language
}

/// Rust: built with `rustc -O` into `main`, which is run.
pub fn rust() -> (language: Language<'static>)
    ensures
        language.spec_is("main.rs"@, seq!["rustc"@, "-O"@, "main.rs"@], seq!["./main"@]),
{
    let language = Language {
        compiler: Compiler {
            main_file: "main.rs",
            args: Some(CommandArgs { binary: "rustc", args: &["-O", "main.rs"] }),
        },
        runner_args: CommandArgs { binary: "./main", args: &[] },
    };
    assert(language.compiler.args.unwrap().spec_argv() =~= seq!["rustc"@, "-O"@, "main.rs"@]);
    assert(language.runner_args.spec_argv() =~= seq!["./main"@]);
    language
}

/// Java: built with `javac`, and the class `Main` is run with `java`.
pub fn java() -> (language: Language<'static>)
    ensures
        language.spec_is("Main.java"@, seq!["javac"@, "Main.java"@], seq!["java"@, "Main"@]),
{
    let language = Language {
        compiler: Compiler {
            main_file: "Main.java",
            args: Some(CommandArgs { binary: "javac", args: &["Main.java"] }),
        },
        runner_args: CommandArgs { binary: "java", args: &["Main"] },
    };
    assert(language.compiler.args.unwrap().spec_argv() =~= seq!["javac"@, "Main.java"@]);
    assert(language.runner_args.spec_argv() =~= seq!["java"@, "Main"@]);
    language
}

/// Python: nothing is built, and the source is run with `python`.
pub fn python() -> (language: Language<'static>)
    ensures
        language.spec_is("main.py"@, Seq::empty(), seq!["python"@, "main.py"@]),
{
    let language = Language {
        compiler: Compiler { main_file: "main.py", args: None },
        runner_args: CommandArgs { binary: "python", args: &["main.py"] },
    };
    assert(language.runner_args.spec_argv() =~= seq!["python"@, "main.py"@]);
    language
}

/// The record of a language of the registry.
pub fn language(key: LanguageKey) -> (language: Language<'static>)
    ensures
        key == LanguageKey::Cpp ==> language.spec_is(
            "main.cpp"@,
            seq!["g++"@, "-o"@, "main"@, "main.cpp"@],
            seq!["./main"@],
        ),
        key == LanguageKey::Rust ==> language.spec_is(
            "main.rs"@,
            seq!["rustc"@, "-O"@, "main.rs"@],
            seq!["./main"@],
        ),
        key == LanguageKey::Java ==> language.spec_is(
            "Main.java"@,
            seq!["javac"@, "Main.java"@],
            seq!["java"@, "Main"@],
        ),
        key == LanguageKey::Python ==> language.spec_is(
            "main.py"@,
            Seq::empty(),
            seq!["python"@, "main.py"@],
        ),
{
    match key {
        LanguageKey::Cpp => cpp(),
        LanguageKey::Rust => rust(),
        LanguageKey::Java => java(),
        LanguageKey::Python => python(),
    }
}

/// The process limits that every language starts from: a stack and an
/// address space of one gibibyte each, sixty processor seconds before the
/// warning and ninety before the kill, and files of one kibibyte.
pub open spec fn spec_default_rlimits() -> Seq<RlimitConfig> {
    seq![
        RlimitConfig {
            resource: Resource::RLIMIT_STACK,
            soft_limit: DEFAULT_MEMORY_RLIMIT,
            hard_limit: DEFAULT_MEMORY_RLIMIT,
        },
        RlimitConfig {
            resource: Resource::RLIMIT_AS,
            soft_limit: DEFAULT_MEMORY_RLIMIT,
            hard_limit: DEFAULT_MEMORY_RLIMIT,
        },
        RlimitConfig {
            resource: Resource::RLIMIT_CPU,
            soft_limit: DEFAULT_CPU_SOFT_RLIMIT,
            hard_limit: DEFAULT_CPU_HARD_RLIMIT,
        },
        RlimitConfig {
            resource: Resource::RLIMIT_FSIZE,
            soft_limit: DEFAULT_FSIZE_RLIMIT,
            hard_limit: DEFAULT_FSIZE_RLIMIT,
        },
    ]
}

/// The restrictions that every language starts from: the default process
/// limits, and a kill on `fork` and `vfork`, so that a program cannot start
/// processes that nothing accounts for.
pub fn default_sandbox_config() -> (config: SandboxConfig<'static>)
    ensures
        config.rlimit_configs@ == spec_default_rlimits(),
        spec_texts(config.syscall_denylist@) == seq!["fork"@, "vfork"@],
        config.spec_valid(),
{
    let config = SandboxConfig {
        syscall_denylist: &["fork", "vfork"],
        rlimit_configs: &[
            RlimitConfig {
                resource: Resource::RLIMIT_STACK,
                soft_limit: DEFAULT_MEMORY_RLIMIT,
                hard_limit: DEFAULT_MEMORY_RLIMIT,
            },
            RlimitConfig {
                resource: Resource::RLIMIT_AS,
                soft_limit: DEFAULT_MEMORY_RLIMIT,
                hard_limit: DEFAULT_MEMORY_RLIMIT,
            },
            RlimitConfig {
                resource: Resource::RLIMIT_CPU,
                soft_limit: DEFAULT_CPU_SOFT_RLIMIT,
                hard_limit: DEFAULT_CPU_HARD_RLIMIT,
            },
            RlimitConfig {
                resource: Resource::RLIMIT_FSIZE,
                soft_limit: DEFAULT_FSIZE_RLIMIT,
                hard_limit: DEFAULT_FSIZE_RLIMIT,
            },
        ],
    };
    assert(config.rlimit_configs@ =~= spec_default_rlimits());
    assert(spec_texts(config.syscall_denylist@) =~= seq!["fork"@, "vfork"@]);
    config
}

} // verus!
