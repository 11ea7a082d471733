use gh_review_request::config::{
    home_or_root, merge_setting, Args, ConfigError, ExplicitArgs, DEFAULT_THREADS,
};

fn args(root: &str, threads: usize, session: bool, worktree: bool) -> Args {
    Args {
        root_dir: root.to_string(),
        num_threads: threads,
        create_tmux_session: session,
        create_worktree: worktree,
    }
}

#[test]
fn explicit_settings_win_over_the_file() {
    let cli = args("/cli", 2, true, false);
    let file = args("/file", 9, false, true);
    let explicit = ExplicitArgs {
        root_dir: true,
        num_threads: false,
        create_tmux_session: true,
        create_worktree: false,
    };
    let r = cli.merge_config(explicit, file);
    assert_eq!(r.root_dir, "/cli");
    assert_eq!(r.num_threads, 9);
    assert!(r.create_tmux_session);
    assert!(r.create_worktree);
}

#[test]
fn nothing_explicit_takes_the_file() {
    let none = ExplicitArgs { root_dir: false, num_threads: false, create_tmux_session: false, create_worktree: false };
    let r = args("/cli", 2, true, false).merge_config(none, args("/file", 9, false, true));
    assert_eq!(r.root_dir, "/file");
    assert_eq!(r.num_threads, 9);
    assert!(!r.create_tmux_session);
    assert!(r.create_worktree);
}

#[test]
fn merge_setting_picks_by_flag() {
    assert_eq!(merge_setting(1, true, 2), 1);
    assert_eq!(merge_setting(1, false, 2), 2);
}

#[test]
fn settings_are_validated() {
    assert_eq!(args("", 4, false, true).validate(), Err(ConfigError::EmptyRootDir));
    assert_eq!(args("", 0, false, true).validate(), Err(ConfigError::EmptyRootDir));
    assert_eq!(args("/x", 0, false, true).validate(), Err(ConfigError::NoWorkerThreads));
    assert_eq!(args("/x", 1, false, true).validate(), Ok(()));
}

#[test]
fn defaults_scan_home_with_worktrees() {
    let d = Args::default();
    assert_eq!(d.num_threads, DEFAULT_THREADS);
    assert_eq!(d.num_threads, 6);
    assert!(d.create_worktree);
    assert!(!d.create_tmux_session);
    assert!(!d.root_dir.is_empty());
}

#[test]
fn home_falls_back_to_root() {
    assert_eq!(home_or_root(None), "/");
    assert_eq!(home_or_root(Some("/home/u".to_string())), "/home/u");
}
