//! What has to happen before the service takes traffic, as a plan.
//!
//! Opening the store is I/O and belongs to the caller. What is decided here
//! is everything the caller needs to do it: which directory must exist, how
//! the connections are opened, which pragmas are set once connected, and how
//! long the outbound client waits. Any step that fails aborts the startup.
//!
//! How a path splits into components is left to the standard library; the
//! parent it finds for a path gets a name here.

use crate::config::Config;
use crate::text::{after_prefix, before_first, first_piece, strip_prefix};
use std::path::Path;
use vstd::prelude::*;

verus! {

/// How SQLite journals its writes.
#[derive(Clone, Copy, Debug, PartialEq, Eq, Structural)]
pub enum JournalMode {
    Delete,
    Truncate,
    Persist,
    Memory,
    Wal,
    Off,
}

/// How eagerly SQLite syncs to disk.
#[derive(Clone, Copy, Debug, PartialEq, Eq, Structural)]
pub enum Synchronous {
    Off,
    Normal,
    Full,
    Extra,
}

/// How the connections of the pool are opened.
#[derive(Clone, Debug, PartialEq, Eq)]
pub struct StoreOptions {
    pub url: String,
    pub create_if_missing: bool,
    pub journal_mode: JournalMode,
    pub synchronous: Synchronous,
    pub foreign_keys: bool,
    pub max_connections: u32,
}

/// The startup, step by step, in the order of the fields up to `config`.
#[derive(Clone, Debug, PartialEq, Eq)]
pub struct StartupPlan {
    /// The directory to create first, with its ancestors, if any.
    pub parent_dir: Option<String>,
    /// How to open the pool.
    pub store: StoreOptions,
    /// The statements to run on the pool once it is open, in order.
    pub pragmas: Vec<&'static str>,
    /// Where the forward-only migrations to apply next are kept.
    pub migrations_dir: &'static str,
    /// The timeout of the outbound client, in seconds.
    pub llm_timeout_secs: u64,
    /// The settings the handlers run with.
    pub config: Config,
}

/// The size of the connection pool.
pub const MAX_CONNECTIONS: u32 = 5;

/// The timeout of every call to the upstream service, in seconds.
pub const LLM_TIMEOUT_SECS: u64 = 90;

/// The file a database URL names: what follows `sqlite://`, up to the first
/// `?`. There is none for another scheme, for the in-memory store and for an
/// empty path.
pub open spec fn sqlite_file_of(url: Seq<char>) -> Option<Seq<char>> {
    match after_prefix(url, "sqlite://"@) {
        Some(rest) => {
            let file = before_first(rest, '?');
            if file == ":memory:"@ || file.len() == 0 {
                None
            } else {
                Some(file)
            }
        },
        None => None,
    }
}

/// The directory to create for a file whose parent path is `parent`: the
/// parent itself, unless there is none or it is empty.
pub open spec fn dir_for(parent: Option<Seq<char>>) -> Option<Seq<char>> {
    match parent {
        Some(dir) if dir.len() > 0 => Some(dir),
        _ => None,
    }
}

/// The pragmas set at startup, in order.
pub open spec fn pragmas_spec() -> Seq<Seq<char>> {
    seq!["PRAGMA journal_mode=WAL;"@, "PRAGMA synchronous=NORMAL;"@, "PRAGMA foreign_keys=ON;"@]
}

/// The parent of a path under the platform's path rules: the path without
/// its final component, or none where it has no such parent.
pub uninterp spec fn path_parent_of(path: Seq<char>) -> Option<Seq<char>>;

/// The directory that must exist before a store at `url` can be opened: the
/// parent of the file that the URL names, where it names one and the parent
/// is not empty.
pub open spec fn parent_dir_of(url: Seq<char>) -> Option<Seq<char>> {
    match sqlite_file_of(url) {
        Some(file) => dir_for(path_parent_of(file)),
        None => None,
    }
}

/// Calls `std::path::Path::parent`, from text to text. Trusted: the parent
/// handed out, or its absence, is the one that `path_parent_of` stands for;
/// it depends on the path's text alone.
#[verifier::external_body]
fn path_parent(path: &str) -> (parent: Option<String>)
    ensures
        parent.deep_view() == path_parent_of(path@),
{
    match Path::new(path).parent() {
        Some(parent) => Some(parent.to_string_lossy().into_owned()),
        None => None,
    }
}

/// The file a database URL names, if it names one.
pub fn sqlite_file(url: &str) -> (file: Option<&str>)
    ensures
        file is Some <==> sqlite_file_of(url@) is Some,
        file matches Some(f) ==> Some(f@) == sqlite_file_of(url@),
{
    match strip_prefix(url, "sqlite://") {
        Some(rest) => {
            let file = first_piece(rest, '?');
            if file.to_owned() == ":memory:".to_owned() || file.is_empty() {
                None
            } else {
                Some(file)
            }
        },
        None => None,
    }
}

/// The directory to create, given the parent path of the database file.
pub fn directory_to_create(parent: Option<String>) -> (dir: Option<String>)
    ensures
        dir.deep_view() == dir_for(parent.deep_view()),
{
    match parent {
        Some(dir) => {
            if dir.as_str().is_empty() {
                None
            } else {
                Some(dir)
            }
        },
        None => None,
    }
}

/// The directory that must exist before a store at `url` can be opened.
pub fn sqlite_parent_dir(url: &str) -> (dir: Option<String>)
    ensures
        dir.deep_view() == parent_dir_of(url@),
{
    match sqlite_file(url) {
        Some(file) => directory_to_create(path_parent(file)),
        None => None,
    }
}

/// The statements that pin journal mode, sync mode and foreign keys on the
/// open pool, whatever external tooling did to the defaults.
pub fn startup_pragmas() -> (pragmas: Vec<&'static str>)
    ensures
        pragmas@.len() == 3,
        pragmas@.map_values(|p: &'static str| p@) == pragmas_spec(),
{
    let mut pragmas: Vec<&'static str> = Vec::new();
    pragmas.push("PRAGMA journal_mode=WAL;");
    pragmas.push("PRAGMA synchronous=NORMAL;");
    pragmas.push("PRAGMA foreign_keys=ON;");
    assert(pragmas@.map_values(|p: &'static str| p@) =~= pragmas_spec());
    pragmas
}

/// Plans the startup for a configuration: create the parent directory of a
/// file-backed store, open a pool of five write-ahead-logged connections
/// that enforce foreign keys and create the file if it is missing, set the
/// pragmas, apply the migrations, build the outbound client with its 90
/// second timeout.
pub fn build_state(cfg: Config) -> (plan: StartupPlan)
    ensures
        plan.parent_dir.deep_view() == parent_dir_of(cfg.database_url@),
        plan.store.url@ == cfg.database_url@,
        plan.store.create_if_missing,
        plan.store.journal_mode == JournalMode::Wal,
        plan.store.synchronous == Synchronous::Normal,
        plan.store.foreign_keys,
        plan.store.max_connections == 5,
        plan.pragmas@.map_values(|p: &'static str| p@) == pragmas_spec(),
        plan.migrations_dir@ == "./migrations"@,
        plan.llm_timeout_secs == 90,
        plan.config == cfg,
{
    let parent_dir = sqlite_parent_dir(cfg.database_url.as_str());
    let store = StoreOptions {
        url: cfg.database_url.clone(),
        create_if_missing: true,
        journal_mode: JournalMode::Wal,
        synchronous: Synchronous::Normal,
        foreign_keys: true,
        max_connections: MAX_CONNECTIONS,
    };
    StartupPlan {
        parent_dir,
        store,
        pragmas: startup_pragmas(),
        migrations_dir: "./migrations",
        llm_timeout_secs: LLM_TIMEOUT_SECS,
        config: cfg,
    }
}

} // verus!
