//! The decisions of the repository walk: which entries to query, where to
//! stop descending, and the worktree and session steps taken for each
//! review request that a directory yields.
use vstd::prelude::*;

use crate::effects::{session_name, session_name_of, worktree_dir, worktree_dir_of};
use crate::git::{
    request_views, BuildReviewRequestErrors, GitRepoView, LocalReviewRequest, ReviewRequestView,
};

verus! {

/// One discovered review request, with what became of its effects.
#[derive(Debug)]
pub struct ReviewRequestOutput {
    pub review_request: LocalReviewRequest,
    pub worktree_created: bool,
    pub tmux_session_created: bool,
}

/// The mathematical value of a [`ReviewRequestOutput`].
pub struct OutputView {
    pub request: ReviewRequestView,
    pub worktree_created: bool,
    pub tmux_session_created: bool,
}

impl View for ReviewRequestOutput {
    type V = OutputView;

    open spec fn view(&self) -> OutputView {
        OutputView {
            request: self.review_request@,
            worktree_created: self.worktree_created,
            tmux_session_created: self.tmux_session_created,
        }
    }
}

impl Default for ReviewRequestOutput {
    fn default() -> (r: Self)
        ensures
            r@ == (OutputView {
                request: ReviewRequestView {
                    branch: Seq::empty(),
                    path: Seq::empty(),
                    repo: GitRepoView { owner: Seq::empty(), repo: Seq::empty() },
                    title: Seq::empty(),
                },
                worktree_created: false,
                tmux_session_created: false,
            }),
    {
        let r = ReviewRequestOutput {
            review_request: LocalReviewRequest::default(),
            worktree_created: false,
            tmux_session_created: false,
        };
        assert(r@.request.branch =~= Seq::empty());
        assert(r@.request.path =~= Seq::empty());
        assert(r@.request.title =~= Seq::empty());
        assert(r@.request.repo.owner =~= Seq::empty());
        assert(r@.request.repo.repo =~= Seq::empty());
        r
    }
}

/// Whether the walk goes on below an entry.
#[derive(Debug, Clone, Copy, PartialEq, Eq, Structural)]
pub enum WalkAction {
    /// Descend into the entry's subdirectories.
    Continue,
    /// Do not descend below the entry.
    Skip,
}

/// What the walk does with one entry before any query.
#[derive(Debug, Clone, Copy, PartialEq, Eq, Structural)]
pub enum EntryDecision {
    /// The entry could not be read: go on with the walk.
    Continue,
    /// The entry is no directory, or is a symbolic link: do not descend.
    Skip,
    /// The entry is a directory: ask the hosting CLI about it.
    Query,
}

/// Decides on an entry of the walk from how it was read.
pub fn decide_entry(readable: bool, is_dir: bool, is_symlink: bool) -> (r: EntryDecision)
    ensures
        !readable ==> r == EntryDecision::Continue,
        readable && (!is_dir || is_symlink) ==> r == EntryDecision::Skip,
        readable && is_dir && !is_symlink ==> r == EntryDecision::Query,
{
    if !readable {
        EntryDecision::Continue
    } else if !is_dir || is_symlink {
        EntryDecision::Skip
    } else {
        EntryDecision::Query
    }
}

/// Where the walk goes after a directory's query: a repository root, and a
/// directory outside version control or without a remote, end their branch;
/// past an unrecognised host or an unclassified failure the walk goes on.
pub open spec fn action_after(result: Result<Vec<LocalReviewRequest>, BuildReviewRequestErrors>) -> WalkAction {
    match result {
        Ok(_) => WalkAction::Skip,
        Err(BuildReviewRequestErrors::NotGitRepoError) => WalkAction::Skip,
        Err(BuildReviewRequestErrors::LocalGitRepoError) => WalkAction::Skip,
        Err(BuildReviewRequestErrors::NotAGitHubRepoError) => WalkAction::Continue,
        Err(BuildReviewRequestErrors::UnknownGithubCliError(_)) => WalkAction::Continue,
    }
}

/// The effect that the request in progress waits for.
#[derive(Debug, Clone, Copy, PartialEq, Eq, Structural)]
pub enum Stage {
    /// Its worktree is to be created.
    Worktree,
    /// Its session is to be opened; whether its worktree was created.
    Session { worktree_created: bool },
}

/// The next thing that a [`DirectoryVisit`] asks its driver to do.
pub enum VisitStep {
    /// Create the worktree `worktree_dir` on a new branch `branch`, from the
    /// clone at `repo_dir`.
    CreateWorktree { repo_dir: String, worktree_dir: String, branch: String },
    /// Open a detached session named `name` in `dir`.
    CreateSession { dir: String, name: String },
    /// Nothing is left to do: the outputs can be taken.
    Finished,
}

/// The abstract state of a [`DirectoryVisit`].
pub struct VisitView {
    pub action: WalkAction,
    pub requests: Seq<ReviewRequestView>,
    pub create_worktree: bool,
    pub create_session: bool,
    /// For each request handled so far: whether its worktree was created,
    /// and whether its session was.
    pub done: Seq<(bool, bool)>,
    pub stage: Stage,
}

/// The stage at which each request starts.
pub open spec fn first_stage(create_worktree: bool) -> Stage {
    if create_worktree {
        Stage::Worktree
    } else {
        Stage::Session { worktree_created: false }
    }
}

impl VisitView {
    pub open spec fn finished(self) -> bool {
        self.done.len() == self.requests.len()
    }

    /// The request in progress.
    pub open spec fn current(self) -> ReviewRequestView {
        self.requests[self.done.len() as int]
    }

    pub open spec fn wf(self) -> bool {
        &&& self.done.len() <= self.requests.len()
        &&& (!self.create_worktree && !self.create_session) ==> self.finished()
        &&& self.stage is Worktree ==> self.create_worktree
        &&& self.stage is Session ==> self.create_session || !self.create_worktree
        &&& self.stage == (Stage::Session { worktree_created: true }) ==> self.create_worktree
        &&& forall|i: int|
            0 <= i < self.done.len() ==> (#[trigger] self.done[i]).0 ==> self.create_worktree
        &&& forall|i: int| 0 <= i < self.done.len() ==> (#[trigger] self.done[i]).1 ==> self.create_session
    }

    /// The state after the driver reports whether the step asked for succeeded.
    pub open spec fn after(self, succeeded: bool) -> VisitView {
        match self.stage {
            Stage::Worktree => if self.create_session {
                VisitView { stage: Stage::Session { worktree_created: succeeded }, ..self }
            } else {
                VisitView {
                    done: self.done.push((succeeded, false)),
                    stage: first_stage(self.create_worktree),
                    ..self
                }
            },
            Stage::Session { worktree_created } => VisitView {
                done: self.done.push((worktree_created, succeeded)),
                stage: first_stage(self.create_worktree),
                ..self
            },
        }
    }

    /// The outputs of a finished visit, in the order of the requests.
    pub open spec fn outputs(self) -> Seq<OutputView> {
        Seq::new(
            self.requests.len(),
            |i: int|
                OutputView {
                    request: self.requests[i],
                    worktree_created: self.done[i].0,
                    tmux_session_created: self.done[i].1,
                },
        )
    }
}

/// Whether `step` is what a visit in state `v` asks for next: nothing once
/// every request is handled; else the worktree of the request in progress,
/// or its session, opened in its worktree if that was created and in its
/// clone otherwise.
pub open spec fn is_next_step(v: VisitView, step: VisitStep) -> bool {
    if v.finished() {
        step is Finished
    } else {
        match v.stage {
            Stage::Worktree => step matches VisitStep::CreateWorktree {
                repo_dir,
                worktree_dir,
                branch,
            } && repo_dir@ == v.current().path && worktree_dir@ == worktree_dir_of(v.current())
                && branch@ == v.current().branch,
            Stage::Session { worktree_created } => step matches VisitStep::CreateSession {
                dir,
                name,
            } && dir@ == (if worktree_created {
                worktree_dir_of(v.current())
            } else {
                v.current().path
            }) && name@ == session_name_of(v.current().title),
        }
    }
}

/// The work that one queried directory leaves: where the walk goes next,
/// and the effects still to try for each review request it yielded.
pub struct DirectoryVisit {
    action: WalkAction,
    requests: Vec<LocalReviewRequest>,
    create_worktree: bool,
    create_session: bool,
    done: Vec<(bool, bool)>,
    stage: Stage,
}

impl View for DirectoryVisit {
    type V = VisitView;

    closed spec fn view(&self) -> VisitView {
        VisitView {
            action: self.action,
            requests: request_views(self.requests@),
            create_worktree: self.create_worktree,
            create_session: self.create_session,
            done: self.done@,
            stage: self.stage,
        }
    }
}


/// The views of a sequence of outputs.
pub open spec fn output_views(v: Seq<ReviewRequestOutput>) -> Seq<OutputView> {
    v.map_values(|o: ReviewRequestOutput| o@)
}

impl DirectoryVisit {
    /// Starts the visit of a directory whose query gave `result`, with the
    /// effects that are asked for: worktrees, sessions, both or neither.
    pub fn new(
        result: Result<Vec<LocalReviewRequest>, BuildReviewRequestErrors>,
        create_worktree: bool,
        create_session: bool,
    ) -> (r: Self)
        ensures
            r@.wf(),
            r@.action == action_after(result),
            result matches Ok(v) ==> r@.requests == request_views(v@),
            result is Err ==> r@.requests.len() == 0,
            r@.create_worktree == create_worktree,
            r@.create_session == create_session,
            r@.stage == first_stage(create_worktree),
            (create_worktree || create_session) ==> r@.done.len() == 0,
            (!create_worktree && !create_session) ==> r@.done == Seq::new(
                r@.requests.len(),
                |i: int| (false, false),
            ),
    {
        let action = match &result {
            Ok(_) => WalkAction::Skip,
            Err(BuildReviewRequestErrors::NotGitRepoError) => WalkAction::Skip,
            Err(BuildReviewRequestErrors::LocalGitRepoError) => WalkAction::Skip,
            Err(BuildReviewRequestErrors::NotAGitHubRepoError) => WalkAction::Continue,
            Err(BuildReviewRequestErrors::UnknownGithubCliError(_)) => WalkAction::Continue,
        };
        let requests = match result {
            Ok(v) => v,
            Err(_) => Vec::new(),
        };
        let mut done: Vec<(bool, bool)> = Vec::new();
        if !create_worktree && !create_session {
            let n = requests.len();
            while done.len() < n
                invariant
                    done@.len() <= n,
                    forall|i: int| 0 <= i < done@.len() ==> #[trigger] done@[i] == (false, false),
                decreases n - done@.len(),
            {
                done.push((false, false));
            }
        }
        let stage = if create_worktree {
            Stage::Worktree
        } else {
            Stage::Session { worktree_created: false }
        };
        let r = DirectoryVisit { action, requests, create_worktree, create_session, done, stage };
        assert(!create_worktree && !create_session ==> r@.done =~= Seq::new(
            r@.requests.len(),
            |i: int| (false, false),
        ));
        r
    }

    /// Whether the walk descends below the visited directory.
    pub fn walk_action(&self) -> (r: WalkAction)
        ensures
            r == self@.action,
    {
        self.action
    }

    /// The step that the visit waits for.
    pub fn next_step(&self) -> (r: VisitStep)
        requires
            self@.wf(),
        ensures
            is_next_step(self@, r),
    {
        let k = self.done.len();
        if k == self.requests.len() {
            return VisitStep::Finished;
        }
        let req = &self.requests[k];
        assert(req@ == self@.current());
        match self.stage {
            Stage::Worktree => VisitStep::CreateWorktree {
                repo_dir: req.path.clone(),
                worktree_dir: worktree_dir(req),
                branch: req.branch.clone(),
            },
            Stage::Session { worktree_created } => {
                let dir = if worktree_created {
                    worktree_dir(req)
                } else {
                    req.path.clone()
                };
                VisitStep::CreateSession { dir, name: session_name(req.title.as_str()) }
            },
        }
    }

    /// Takes in whether the step asked for by [`Self::next_step`] succeeded.
    pub fn record(&mut self, succeeded: bool)
        requires
            old(self)@.wf(),
            !old(self)@.finished(),
        ensures
            final(self)@ == old(self)@.after(succeeded),
            final(self)@.wf(),
    {
        let next = if self.create_worktree {
            Stage::Worktree
        } else {
            Stage::Session { worktree_created: false }
        };
        match self.stage {
            Stage::Worktree => {
                if self.create_session {
                    self.stage = Stage::Session { worktree_created: succeeded };
                } else {
                    self.done.push((succeeded, false));
                    self.stage = next;
                }
            },
            Stage::Session { worktree_created } => {
                self.done.push((worktree_created, succeeded));
                self.stage = next;
            },
        }
        assert(self@ == old(self)@.after(succeeded));
    }

    /// The outputs of a finished visit: one for each request, in order, with
    /// the effects' recorded results.
    pub fn into_outputs(self) -> (r: Vec<ReviewRequestOutput>)
        requires
            self@.wf(),
            self@.finished(),
        ensures
            output_views(r@) == self@.outputs(),
    {
        let ghost all = self@;
        let DirectoryVisit { requests, done, .. } = self;
        let mut rest = requests;
        let mut out: Vec<ReviewRequestOutput> = Vec::new();
        while rest.len() > 0
            invariant
                out@.len() + rest@.len() == all.requests.len(),
                done@ == all.done,
                all.done.len() == all.requests.len(),
                request_views(rest@) == all.requests.subrange(out@.len() as int, all.requests.len() as int),
                forall|i: int| 0 <= i < out@.len() ==> #[trigger] out@[i]@ == all.outputs()[i],
            decreases rest@.len(),
        {
            let ghost k = out@.len() as int;
            assert(request_views(rest@)[0] == all.requests[k]);
            let ghost before = rest@;
            let req = rest.remove(0);
            assert(rest@ =~= before.subrange(1, before.len() as int));
            assert(request_views(rest@) =~= request_views(before).subrange(1, before.len() as int));
            let (w, s) = done[out.len()];
            out.push(ReviewRequestOutput { review_request: req, worktree_created: w, tmux_session_created: s });
            assert(request_views(rest@) =~= all.requests.subrange(out@.len() as int, all.requests.len() as int));
        }
        assert(output_views(out@) =~= all.outputs());
        out
    }
}


/// The state after the driver reports the step results `results` in turn;
/// results past the end of the visit are not taken.
pub open spec fn run(v: VisitView, results: Seq<bool>) -> VisitView
    decreases results.len(),
{
    if results.len() == 0 || v.finished() {
        v
    } else {
        run(v.after(results[0]), results.drop_first())
    }
}

/// The number of effects tried for each request.
pub open spec fn effects_per_request(v: VisitView) -> nat {
    (if v.create_worktree { 1nat } else { 0nat }) + (if v.create_session { 1nat } else { 0nat })
}

/// The number of step results that a visit still waits for.
pub open spec fn steps_left(v: VisitView) -> nat {
    if v.finished() {
        0
    } else {
        ((v.requests.len() - v.done.len()) * effects_per_request(v) - (if v.stage is Session
            && v.create_worktree {
            1int
        } else {
            0int
        })) as nat
    }
}

proof fn lemma_after_keeps(v: VisitView, b: bool)
    requires
        v.wf(),
        !v.finished(),
    ensures
        v.after(b).wf(),
        v.after(b).requests == v.requests,
        v.after(b).action == v.action,
        v.after(b).create_worktree == v.create_worktree,
        v.after(b).create_session == v.create_session,
        v.after(b).done.len() >= v.done.len(),
        v.after(b).done.subrange(0, v.done.len() as int) == v.done,
        steps_left(v.after(b)) + 1 == steps_left(v),
{
    let w = v.after(b);
    assert(w.done.subrange(0, v.done.len() as int) =~= v.done);
    let n = v.requests.len() - v.done.len();
    let k = effects_per_request(v);
    assert(k >= 1);
    assert((n - 1) * k == n * k - k) by (nonlinear_arith);
    assert(n * k >= k) by (nonlinear_arith)
        requires
            n >= 1,
            k >= 1,
    ;
}

proof fn lemma_run_keeps(v: VisitView, results: Seq<bool>)
    requires
        v.wf(),
    ensures
        run(v, results).wf(),
        run(v, results).requests == v.requests,
        run(v, results).action == v.action,
        run(v, results).create_worktree == v.create_worktree,
        run(v, results).create_session == v.create_session,
        run(v, results).done.len() >= v.done.len(),
        run(v, results).done.subrange(0, v.done.len() as int) == v.done,
        results.len() >= steps_left(v) ==> run(v, results).finished(),
    decreases results.len(),
{
    if results.len() == 0 || v.finished() {
        assert(v.done.subrange(0, v.done.len() as int) =~= v.done);
        if !v.finished() {
            let n = v.requests.len() - v.done.len();
            let k = effects_per_request(v);
            assert(n * k >= k) by (nonlinear_arith)
                requires
                    n >= 1,
                    k >= 1,
            ;
            assert(steps_left(v) >= 1);
        }
    } else {
        let w = v.after(results[0]);
        lemma_after_keeps(v, results[0]);
        lemma_run_keeps(w, results.drop_first());
        let r = run(w, results.drop_first());
        assert(r.done.subrange(0, v.done.len() as int) =~= r.done.subrange(
            0,
            w.done.len() as int,
        ).subrange(0, v.done.len() as int));
    }
}

/// A repository root whose query listed N requests yields exactly N outputs,
/// one for each request and in their order, once the driver has reported
/// the result of each step asked for; each output says that an effect
/// succeeded only where that effect was asked for. The walk does not
/// descend below the root.
pub proof fn lemma_one_output_per_request(
    result: Result<Vec<LocalReviewRequest>, BuildReviewRequestErrors>,
    v: VisitView,
    results: Seq<bool>,
)
    requires
        result is Ok,
        v.wf(),
        v.action == action_after(result),
        v.requests == request_views(result->Ok_0@),
        results.len() >= steps_left(v),
    ensures
        v.action == WalkAction::Skip,
        run(v, results).finished(),
        run(v, results).outputs().len() == result->Ok_0@.len(),
        forall|i: int|
            0 <= i < result->Ok_0@.len() ==> (#[trigger] run(v, results).outputs()[i]).request
                == result->Ok_0@[i]@,
        forall|i: int|
            0 <= i < result->Ok_0@.len() ==> ((#[trigger] run(v, results).outputs()[i]).worktree_created
                ==> v.create_worktree) && (run(v, results).outputs()[i].tmux_session_created
                ==> v.create_session),
{
    lemma_run_keeps(v, results);
    let r = run(v, results);
    assert forall|i: int| 0 <= i < result->Ok_0@.len() implies (#[trigger] r.outputs()[i]).request
        == result->Ok_0@[i]@ by {
        assert(r.requests[i] == request_views(result->Ok_0@)[i]);
    }
}

/// A directory outside version control, or without a remote, ends its
/// branch of the walk, yields no output, and asks for no effect.
pub proof fn lemma_pruned_without_effects(
    result: Result<Vec<LocalReviewRequest>, BuildReviewRequestErrors>,
    v: VisitView,
    step: VisitStep,
)
    requires
        result matches Err(e) && (e is NotGitRepoError || e is LocalGitRepoError),
        v.wf(),
        v.action == action_after(result),
        v.requests.len() == 0,
        is_next_step(v, step),
    ensures
        v.action == WalkAction::Skip,
        v.finished(),
        v.outputs().len() == 0,
        step is Finished,
{
}

/// Past a directory whose remote is not a recognised host, or whose query
/// failed otherwise, the walk goes on into its subdirectories; the
/// directory itself yields no output and asks for no effect.
pub proof fn lemma_unrecognised_host_continues(
    result: Result<Vec<LocalReviewRequest>, BuildReviewRequestErrors>,
    v: VisitView,
    step: VisitStep,
)
    requires
        result matches Err(e) && (e is NotAGitHubRepoError || e is UnknownGithubCliError),
        v.wf(),
        v.action == action_after(result),
        v.requests.len() == 0,
        is_next_step(v, step),
    ensures
        v.action == WalkAction::Continue,
        v.outputs().len() == 0,
        step is Finished,
{
}

/// A worktree that could not be created, as when one exists already for
/// the branch, is reported as not created; the visit goes on, and a session
/// asked for opens in the clone itself.
pub proof fn lemma_failed_worktree_reported(v: VisitView, step: VisitStep)
    requires
        v.wf(),
        !v.finished(),
        v.stage is Worktree,
        is_next_step(v.after(false), step),
    ensures
        v.after(false).wf(),
        v.create_session ==> (step matches VisitStep::CreateSession { dir, name } && dir@
            == v.current().path),
        !v.create_session ==> v.after(false).done.last() == (false, false),
        steps_left(v.after(false)) + 1 == steps_left(v),
{
    lemma_after_keeps(v, false);
}

} // verus!
