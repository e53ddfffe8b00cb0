pub mod cgroup;
pub mod command;
pub mod compiler;
pub mod decimal;
pub mod duration;
pub mod error;
pub mod language;
pub mod metrics;
pub mod runner;
pub mod sandbox;
pub mod status;
pub mod text;
pub mod util;

pub use cgroup::{group_name, GroupCache, GroupEntry, ResourceGroup};
pub use command::CommandArgs;
pub use compiler::Compiler;
pub use duration::Duration;
pub use error::{Error, ErrorKind};
pub use language::{
    cpp, default_sandbox_config, java, language, python, rust, Language, LanguageKey,
};
pub use metrics::{
    classify, get_default_rusage, ExitStatus, Metrics, Output, RaceWinner, RawRusage, Rusage,
    Timeval,
};
pub use runner::{RunAction, RunEvent, RunState, Runner};
pub use sandbox::{
    child_next, child_plan, hook_first, hook_next, ChildStep, ChildVerdict, ForkOutcome,
    HookVerdict, Init, Resource, RlimitConfig, Running, Sandbox, SandboxConfig, Spawned,
};
pub use util::{error_path, generate_unique_path, output_path, path_hash};
