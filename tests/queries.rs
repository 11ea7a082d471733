use gh_review_request::git::{
    build_local_review_requests, classify_cli_error, BuildReviewRequestErrors, CliResponse,
    GHPullRequest, GitRepo, LocalReviewRequest, NOT_A_REPO_MESSAGE, NO_REMOTE_MESSAGE,
    UNKNOWN_HOST_MESSAGE,
};

fn pr(branch: &str, owner: &str, repo: &str, title: &str) -> GHPullRequest {
    GHPullRequest {
        head_ref_name: branch.to_string(),
        owner_login: owner.to_string(),
        repo_name: repo.to_string(),
        title: title.to_string(),
    }
}

#[test]
fn no_remote_message_is_classified_as_no_remote() {
    let e = classify_cli_error("no git remotes found\n");
    assert!(matches!(e, BuildReviewRequestErrors::LocalGitRepoError));
    assert!(!matches!(e, BuildReviewRequestErrors::UnknownGithubCliError(_)));
}

#[test]
fn not_a_repo_message_is_classified() {
    let e = classify_cli_error(
        "failed to run git: fatal: not a git repository (or any of the parent directories): .git\n\n",
    );
    assert!(matches!(e, BuildReviewRequestErrors::NotGitRepoError));
    assert!(matches!(classify_cli_error(NOT_A_REPO_MESSAGE), BuildReviewRequestErrors::NotGitRepoError));
}

#[test]
fn unknown_host_message_is_classified() {
    assert!(matches!(
        classify_cli_error(UNKNOWN_HOST_MESSAGE),
        BuildReviewRequestErrors::NotAGitHubRepoError
    ));
}

#[test]
fn other_messages_are_unclassified_and_kept() {
    match classify_cli_error("HTTP 502: Bad Gateway\n") {
        BuildReviewRequestErrors::UnknownGithubCliError(m) => assert_eq!(m, "HTTP 502: Bad Gateway\n"),
        other => panic!("unexpected {:?}", other),
    }
    // The match is exact: a missing newline is not the known message.
    match classify_cli_error("no git remotes found") {
        BuildReviewRequestErrors::UnknownGithubCliError(m) => assert_eq!(m, "no git remotes found"),
        other => panic!("unexpected {:?}", other),
    }
    match classify_cli_error("") {
        BuildReviewRequestErrors::UnknownGithubCliError(m) => assert_eq!(m, ""),
        other => panic!("unexpected {:?}", other),
    }
    assert_eq!(NO_REMOTE_MESSAGE, "no git remotes found\n");
}

#[test]
fn error_messages_describe_the_failure() {
    assert_eq!(BuildReviewRequestErrors::NotGitRepoError.message(), "Not Git Repo Error");
    assert_eq!(BuildReviewRequestErrors::NotAGitHubRepoError.message(), "Not a GitHub Repo Error");
    assert_eq!(BuildReviewRequestErrors::LocalGitRepoError.message(), "Local Git Repo Error");
    assert_eq!(
        BuildReviewRequestErrors::UnknownGithubCliError("boom".to_string()).message(),
        "boom"
    );
}

#[test]
fn listing_becomes_requests_in_order() {
    let prs = vec![
        pr("feature-x", "alice", "proj-a", "Fix bug"),
        pr("docs", "bob", "proj-a", "Update docs"),
    ];
    let reqs = build_local_review_requests("/home/u/code/proj-a", CliResponse::Listed(prs)).unwrap();
    assert_eq!(reqs.len(), 2);
    assert_eq!(reqs[0].branch, "feature-x");
    assert_eq!(reqs[0].path, "/home/u/code/proj-a");
    assert_eq!(reqs[0].repo, GitRepo { owner: "alice".to_string(), repo: "proj-a".to_string() });
    assert_eq!(reqs[0].title, "Fix bug");
    assert_eq!(reqs[1].branch, "docs");
    assert_eq!(reqs[1].repo.owner, "bob");
    assert_eq!(reqs[1].title, "Update docs");
}

#[test]
fn empty_listing_gives_no_requests() {
    let reqs = build_local_review_requests("/r", CliResponse::Listed(vec![])).unwrap();
    assert!(reqs.is_empty());
}

#[test]
fn malformed_listing_is_unclassified() {
    match build_local_review_requests("/r", CliResponse::Malformed("expected value".to_string())) {
        Err(BuildReviewRequestErrors::UnknownGithubCliError(m)) => assert_eq!(m, "expected value"),
        other => panic!("unexpected {:?}", other),
    }
}

#[test]
fn failed_run_is_classified() {
    let r = build_local_review_requests("/r", CliResponse::Failed("no git remotes found\n".to_string()));
    assert!(matches!(r, Err(BuildReviewRequestErrors::LocalGitRepoError)));
}

#[test]
fn pull_request_is_tied_to_its_clone() {
    let r = pr("b", "o", "n", "t").to_local_review_request("/x/y");
    assert_eq!(r.branch, "b");
    assert_eq!(r.path, "/x/y");
    assert_eq!(r.repo.owner, "o");
    assert_eq!(r.repo.repo, "n");
    assert_eq!(r.title, "t");
    let g = GitRepo::from(pr("b", "o", "n", "t"));
    assert_eq!(g.owner, "o");
    assert_eq!(g.repo, "n");
}

#[test]
fn defaults_are_empty() {
    let r = LocalReviewRequest::default();
    assert!(r.branch.is_empty() && r.path.is_empty() && r.title.is_empty());
    assert_eq!(GitRepo::default(), GitRepo { owner: String::new(), repo: String::new() });
}
