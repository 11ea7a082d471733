//! Review requests as the hosting CLI reports them, and the classification
//! of the failures that a query for them can end in.
use vstd::prelude::*;
use vstd::string::{StrSliceExecFns, StringExecFns};

verus! {

broadcast use vstd::string::group_string_axioms;

/// A hosted repository, named by its owner and its name.
#[derive(Debug, Clone, PartialEq, Eq)]
pub struct GitRepo {
    pub owner: String,
    pub repo: String,
}

/// The mathematical value of a [`GitRepo`].
pub struct GitRepoView {
    pub owner: Seq<char>,
    pub repo: Seq<char>,
}

impl View for GitRepo {
    type V = GitRepoView;

    open spec fn view(&self) -> GitRepoView {
        GitRepoView { owner: self.owner@, repo: self.repo@ }
    }
}

impl Default for GitRepo {
    fn default() -> (r: Self)
        ensures
            r@.owner.len() == 0,
            r@.repo.len() == 0,
    {
        GitRepo { owner: String::new(), repo: String::new() }
    }
}

/// One open pull request, found in the clone at `path`, that asks for the
/// user's review. `branch` is the head branch of the pull request.
#[derive(Debug, Clone)]
pub struct LocalReviewRequest {
    pub branch: String,
    pub path: String,
    pub repo: GitRepo,
    pub title: String,
}

/// The mathematical value of a [`LocalReviewRequest`].
pub struct ReviewRequestView {
    pub branch: Seq<char>,
    pub path: Seq<char>,
    pub repo: GitRepoView,
    pub title: Seq<char>,
}

impl View for LocalReviewRequest {
    type V = ReviewRequestView;

    open spec fn view(&self) -> ReviewRequestView {
        ReviewRequestView {
            branch: self.branch@,
            path: self.path@,
            repo: self.repo@,
            title: self.title@,
        }
    }
}

impl Default for LocalReviewRequest {
    fn default() -> (r: Self)
        ensures
            r@.branch.len() == 0,
            r@.path.len() == 0,
            r@.repo.owner.len() == 0,
            r@.repo.repo.len() == 0,
            r@.title.len() == 0,
    {
        LocalReviewRequest {
            branch: String::new(),
            path: String::new(),
            repo: GitRepo::default(),
            title: String::new(),
        }
    }
}

/// One entry of the hosting CLI's pull-request listing: the head branch, the
/// login of the head repository's owner, the head repository's name, and
/// the title.
#[derive(Debug, Clone)]
pub struct GHPullRequest {
    pub head_ref_name: String,
    pub owner_login: String,
    pub repo_name: String,
    pub title: String,
}

impl GHPullRequest {
    /// The request that this entry stands for in the clone at `path`.
    pub open spec fn request_at(&self, path: Seq<char>) -> ReviewRequestView {
        ReviewRequestView {
            branch: self.head_ref_name@,
            path,
            repo: GitRepoView { owner: self.owner_login@, repo: self.repo_name@ },
            title: self.title@,
        }
    }

    /// Ties this entry to the clone at `path`.
    pub fn to_local_review_request(self, path: &str) -> (r: LocalReviewRequest)
        ensures
            r@ == self.request_at(path@),
    {
        let title = self.title.clone();
        let branch = self.head_ref_name.clone();
        LocalReviewRequest {
            branch,
            path: String::from_str(path),
            title,
            repo: GitRepo::from(self),
        }
    }
}

impl From<GHPullRequest> for GitRepo {
    fn from(value: GHPullRequest) -> (r: GitRepo)
        ensures
            r@ == (GitRepoView { owner: value.owner_login@, repo: value.repo_name@ }),
    {
        GitRepo { owner: value.owner_login, repo: value.repo_name }
    }
}

impl vstd::std_specs::convert::FromSpecImpl<GHPullRequest> for GitRepo {
    open spec fn obeys_from_spec() -> bool {
        true
    }

    open spec fn from_spec(v: GHPullRequest) -> GitRepo {
        GitRepo { owner: v.owner_login, repo: v.repo_name }
    }
}


/// Why a query for review requests in a directory produced none.
#[derive(Debug, Clone)]
pub enum BuildReviewRequestErrors {
    /// The directory is not under version control.
    NotGitRepoError,
    /// The remote of the directory is not a recognised hosting service.
    NotAGitHubRepoError,
    /// The directory is under version control but has no remote.
    LocalGitRepoError,
    /// Any other failure, with the tool's message.
    UnknownGithubCliError(String),
}

/// Error stream of the hosting CLI when the clone has no remote.
pub const NO_REMOTE_MESSAGE: &'static str = "no git remotes found\n";

/// Error stream of the hosting CLI outside version control.
pub const NOT_A_REPO_MESSAGE: &'static str =
    "failed to run git: fatal: not a git repository (or any of the parent directories): .git\n\n";

/// Error stream of the hosting CLI when no remote points to a known host.
pub const UNKNOWN_HOST_MESSAGE: &'static str =
    "none of the git remotes configured for this repository point to a known GitHub host. To tell gh about a new GitHub host, please use `gh auth login`\n";

/// The failure that an error stream `err` stands for: the known messages in
/// order, and anything else as an unclassified failure carrying `err`.
pub open spec fn classifies_as(err: Seq<char>, e: BuildReviewRequestErrors) -> bool {
    if err == NO_REMOTE_MESSAGE@ {
        e is LocalGitRepoError
    } else if err == NOT_A_REPO_MESSAGE@ {
        e is NotGitRepoError
    } else if err == UNKNOWN_HOST_MESSAGE@ {
        e is NotAGitHubRepoError
    } else {
        e matches BuildReviewRequestErrors::UnknownGithubCliError(m) && m@ == err
    }
}

/// Whether two texts hold the same characters.
fn same_text(a: &str, b: &str) -> (r: bool)
    ensures
        r == (a@ == b@),
{
    let n = a.unicode_len();
    if n != b.unicode_len() {
        return false;
    }
    let mut i: usize = 0;
    while i < n
        invariant
            n == a@.len(),
            n == b@.len(),
            i <= n,
            a@.subrange(0, i as int) == b@.subrange(0, i as int),
        decreases n - i,
    {
        if a.get_char(i) != b.get_char(i) {
            return false;
        }
        assert(a@.subrange(0, i + 1) == a@.subrange(0, i as int).push(a@[i as int]));
        assert(b@.subrange(0, i + 1) == b@.subrange(0, i as int).push(b@[i as int]));
        i = i + 1;
    }
    assert(a@ == a@.subrange(0, n as int));
    assert(b@ == b@.subrange(0, n as int));
    true
}

/// Maps the hosting CLI's error stream to a failure, by the literal
/// messages it is known to print.
pub fn classify_cli_error(err: &str) -> (r: BuildReviewRequestErrors)
    ensures
        classifies_as(err@, r),
{
    if same_text(err, NO_REMOTE_MESSAGE) {
        BuildReviewRequestErrors::LocalGitRepoError
    } else if same_text(err, NOT_A_REPO_MESSAGE) {
        BuildReviewRequestErrors::NotGitRepoError
    } else if same_text(err, UNKNOWN_HOST_MESSAGE) {
        BuildReviewRequestErrors::NotAGitHubRepoError
    } else {
        BuildReviewRequestErrors::UnknownGithubCliError(String::from_str(err))
    }
}

impl BuildReviewRequestErrors {
    /// A line that describes the failure.
    pub fn message(&self) -> (r: String)
        ensures
            self is NotGitRepoError ==> r@ == "Not Git Repo Error"@,
            self is NotAGitHubRepoError ==> r@ == "Not a GitHub Repo Error"@,
            self is LocalGitRepoError ==> r@ == "Local Git Repo Error"@,
            self is UnknownGithubCliError ==> r@ == self->UnknownGithubCliError_0@,
    {
        match self {
            BuildReviewRequestErrors::NotGitRepoError => String::from_str("Not Git Repo Error"),
            BuildReviewRequestErrors::NotAGitHubRepoError => String::from_str(
                "Not a GitHub Repo Error",
            ),
            BuildReviewRequestErrors::LocalGitRepoError => String::from_str("Local Git Repo Error"),
            BuildReviewRequestErrors::UnknownGithubCliError(m) => m.clone(),
        }
    }
}

/// What one run of the hosting CLI in a directory gave.
pub enum CliResponse {
    /// It exited with success, and its listing was read as these entries.
    Listed(Vec<GHPullRequest>),
    /// It exited with success, but its listing could not be read; the reason.
    Malformed(String),
    /// It failed, with this error stream.
    Failed(String),
}

/// The requests of a listing, each tied to the clone at `path`.
pub open spec fn requests_at(prs: Seq<GHPullRequest>, path: Seq<char>) -> Seq<ReviewRequestView> {
    prs.map_values(|pr: GHPullRequest| pr.request_at(path))
}

/// The view of a sequence of requests.
pub open spec fn request_views(v: Seq<LocalReviewRequest>) -> Seq<ReviewRequestView> {
    v.map_values(|r: LocalReviewRequest| r@)
}

/// Turns the hosting CLI's answer for the directory `path` into the review
/// requests it lists, or the failure it reports.
pub fn build_local_review_requests(path: &str, response: CliResponse) -> (r: Result<
    Vec<LocalReviewRequest>,
    BuildReviewRequestErrors,
>)
    ensures
        response matches CliResponse::Listed(prs) ==> r matches Ok(v) && request_views(v@)
            == requests_at(prs@, path@),
        response matches CliResponse::Malformed(m) ==> r matches Err(
            BuildReviewRequestErrors::UnknownGithubCliError(e),
        ) && e@ == m@,
        response matches CliResponse::Failed(err) ==> r matches Err(e) && classifies_as(err@, e),
{
    match response {
        CliResponse::Failed(err) => Err(classify_cli_error(err.as_str())),
        CliResponse::Malformed(m) => Err(BuildReviewRequestErrors::UnknownGithubCliError(m)),
        CliResponse::Listed(prs) => {
            let ghost entries = prs@;
            let mut rest = prs;
            let mut out: Vec<LocalReviewRequest> = Vec::new();
            while rest.len() > 0
                invariant
                    out@.len() + rest@.len() == entries.len(),
                    rest@ == entries.subrange(out@.len() as int, entries.len() as int),
                    forall|i: int| 0 <= i < out@.len() ==> #[trigger] out@[i]@ == entries[i].request_at(path@),
                decreases rest@.len(),
            {
                let pr = rest.remove(0);
                out.push(pr.to_local_review_request(path));
            }
            assert(request_views(out@) =~= requests_at(entries, path@));
            Ok(out)
        }
    }
}

} // verus!
