//! The settings of a scan, and how settings given on the command line are
//! laid over those kept in the configuration file.
use vstd::prelude::*;
use vstd::string::StringExecFns;

verus! {

broadcast use vstd::string::group_string_axioms;

/// Worker threads of the walk when nothing else is said.
pub const DEFAULT_THREADS: usize = 6;

/// The directory scanned when no home directory is known.
pub const FALLBACK_ROOT: &'static str = "/";

/// The settings of a scan: where to start, with how many workers, and which
/// effects to try for each review request found.
#[derive(Debug, Clone)]
pub struct Args {
    pub root_dir: String,
    pub num_threads: usize,
    pub create_tmux_session: bool,
    pub create_worktree: bool,
}

/// The mathematical value of [`Args`].
pub struct ArgsView {
    pub root_dir: Seq<char>,
    pub num_threads: usize,
    pub create_tmux_session: bool,
    pub create_worktree: bool,
}

impl View for Args {
    type V = ArgsView;

    open spec fn view(&self) -> ArgsView {
        ArgsView {
            root_dir: self.root_dir@,
            num_threads: self.num_threads,
            create_tmux_session: self.create_tmux_session,
            create_worktree: self.create_worktree,
        }
    }
}

/// Which settings were given explicitly on the command line.
#[derive(Debug, Clone, Copy, PartialEq, Eq, Structural)]
pub struct ExplicitArgs {
    pub root_dir: bool,
    pub num_threads: bool,
    pub create_tmux_session: bool,
    pub create_worktree: bool,
}

/// Why settings cannot start a scan.
#[derive(Debug, Clone, Copy, PartialEq, Eq, Structural)]
pub enum ConfigError {
    /// The directory to scan is empty text.
    EmptyRootDir,
    /// The walk would have no worker thread.
    NoWorkerThreads,
}

/// Relies on `dirs::home_dir`, read as UTF-8 text; `None` when it finds no
/// home directory or its path is not UTF-8. It reads the environment and
/// the user database, so nothing is promised of the text.
#[verifier::external_body]
fn home_dir_text() -> (r: Option<String>) {
    match dirs::home_dir() {
        Some(p) => p.to_str().map(|s| s.to_owned()),
        None => None,
    }
}

/// The directory to scan by default: the home directory when one is known.
pub fn home_or_root(home: Option<String>) -> (r: String)
    ensures
        home matches Some(h) ==> r@ == h@,
        home is None ==> r@ == FALLBACK_ROOT@,
{
    match home {
        Some(h) => h,
        None => String::from_str(FALLBACK_ROOT),
    }
}

/// The user's home directory, or the file-system root when none is known;
/// the environment decides which, see [`home_or_root`].
pub fn get_home_dir() -> String {
    home_or_root(home_dir_text())
}

/// The value of one setting: the command line's where it was given there,
/// the configuration file's otherwise.
pub fn merge_setting<T>(command_line: T, explicitly_set: bool, persisted: T) -> (r: T)
    ensures
        r == (if explicitly_set {
            command_line
        } else {
            persisted
        }),
{
    if explicitly_set {
        command_line
    } else {
        persisted
    }
}

/// The value of one setting, over views.
pub open spec fn merged<T>(command_line: T, explicitly_set: bool, persisted: T) -> T {
    if explicitly_set {
        command_line
    } else {
        persisted
    }
}

impl Default for Args {
    fn default() -> (r: Self)
        ensures
            r@.num_threads == DEFAULT_THREADS,
            !r@.create_tmux_session,
            r@.create_worktree,
    {
        Args {
            root_dir: get_home_dir(),
            num_threads: DEFAULT_THREADS,
            create_tmux_session: false,
            create_worktree: true,
        }
    }
}

impl Args {
    /// These settings laid over `persisted`, the configuration file's: each
    /// setting that `explicit` marks keeps its command-line value.
    pub fn merge_config(self, explicit: ExplicitArgs, persisted: Args) -> (r: Args)
        ensures
            r@ == (ArgsView {
                root_dir: merged(self@.root_dir, explicit.root_dir, persisted@.root_dir),
                num_threads: merged(self@.num_threads, explicit.num_threads, persisted@.num_threads),
                create_tmux_session: merged(
                    self@.create_tmux_session,
                    explicit.create_tmux_session,
                    persisted@.create_tmux_session,
                ),
                create_worktree: merged(
                    self@.create_worktree,
                    explicit.create_worktree,
                    persisted@.create_worktree,
                ),
            }),
    {
        Args {
            root_dir: merge_setting(self.root_dir, explicit.root_dir, persisted.root_dir),
            num_threads: merge_setting(self.num_threads, explicit.num_threads, persisted.num_threads),
            create_tmux_session: merge_setting(
                self.create_tmux_session,
                explicit.create_tmux_session,
                persisted.create_tmux_session,
            ),
            create_worktree: merge_setting(
                self.create_worktree,
                explicit.create_worktree,
                persisted.create_worktree,
            ),
        }
    }

    /// Checks that the settings can start a scan: a directory to scan, and
    /// at least one worker thread.
    pub fn validate(&self) -> (r: Result<(), ConfigError>)
        ensures
            r == Err::<(), ConfigError>(ConfigError::EmptyRootDir) <==> self@.root_dir.len() == 0,
            r == Err::<(), ConfigError>(ConfigError::NoWorkerThreads) <==> (self@.root_dir.len()
                > 0 && self@.num_threads == 0),
            r is Ok <==> (self@.root_dir.len() > 0 && self@.num_threads >= 1),
    {
        if self.root_dir.as_str().is_empty() {
            Err(ConfigError::EmptyRootDir)
        } else if self.num_threads == 0 {
            Err(ConfigError::NoWorkerThreads)
        } else {
            Ok(())
        }
    }
}

} // verus!
