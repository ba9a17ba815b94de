//! LiA: a library for storing named shell command snippets and running them.
//!
//! The core of the crate is the command execution engine: validating a
//! working directory, classifying a child process's exit status, splitting
//! the raw bytes of its output pipes into tagged lines, and tracking the
//! drain-then-wait protocol that streaming execution must follow.  Around
//! that core stand the command store's query planning, the CLI pager's
//! state machine, and the configuration, environment, path, logging and
//! deferral utilities.
//!
//! All side effects (spawning processes, reading pipes, the database, the
//! file system) are performed by the surrounding application; this crate
//! holds the decisions and the data, each with a verified contract.

mod benchmark;
mod config;
mod defer;
mod digits;
mod engine;
mod env;
mod errors;
mod logger;
mod models;
mod pager;
mod path;
mod store;

pub use benchmark::benchmark;
pub use config::{Configs, Kinds, Log, get_process_name, set_process_name};
pub use defer::{Defer, Deferable};
pub use digits::{push_decimal, u64_string, i64_string};
pub use env::{Config, Profile};
pub use engine::{
    CapturedOutput, CmdEngine, DirProbe, ExitInfo, ExecutionOutcome, LaunchDecision, LinePump,
    OutputLine, OutputOrigin, SpawnSpec, StreamSession, decode_line,
};
pub use errors::LiaCoreError;
pub use logger::{LogLevel, Logger, compose_line, compose_line_at};
pub use models::{Command, CommandDTO, NewCommand, UpdateCommand, UpdateCommandDTO};
pub use pager::{PAGE_SIZE, Pager, PagerKey, total_pages};
pub use path::{SysPath, Path, DirEntryInfo, RootSearchStep};
pub use store::{
    DeletionPlan, SearchPlan, UpdateField, build_search_query, container_start_result,
    plan_deletion, plan_search, update_steps,
};
