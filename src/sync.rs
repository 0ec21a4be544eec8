use vstd::prelude::*;

verus! {

/// How the local tip relates to the fetched remote tip.
#[derive(Clone, Copy, Debug, PartialEq, Eq, Structural)]
pub enum MergeAnalysis {
    /// The remote tip is the local tip or one of its ancestors.
    UpToDate,
    /// The local tip is an ancestor of the remote tip.
    FastForward,
    /// Each side has commits the other lacks, and they share a merge base.
    Normal,
    /// The histories share no commit.
    Unmergeable,
}

/// Classifies the divergence of the local and remote tips from their ancestry.
pub fn classify_merge(
    same_tip: bool,
    remote_in_local: bool,
    local_in_remote: bool,
    has_merge_base: bool,
) -> (r: MergeAnalysis)
    ensures
        (same_tip || remote_in_local) <==> r == MergeAnalysis::UpToDate,
        (!same_tip && !remote_in_local && local_in_remote) <==> r == MergeAnalysis::FastForward,
        (!same_tip && !remote_in_local && !local_in_remote && has_merge_base) <==> r
            == MergeAnalysis::Normal,
        (!same_tip && !remote_in_local && !local_in_remote && !has_merge_base) <==> r
            == MergeAnalysis::Unmergeable,
{
    if same_tip || remote_in_local {
        MergeAnalysis::UpToDate
    } else if local_in_remote {
        MergeAnalysis::FastForward
    } else if has_merge_base {
        MergeAnalysis::Normal
    } else {
        MergeAnalysis::Unmergeable
    }
}

/// Why creating the auto-commit failed.
#[derive(Clone, Copy, Debug, PartialEq, Eq, Structural)]
pub enum CommitError {
    /// No commit identity is configured.
    IdentityMissing,
    /// HEAD does not resolve to a commit.
    NoParent,
    /// The object store refused a write.
    ObjectWriteFailure,
    /// The local clock gave no time the commit message can carry.
    ClockOutOfRange,
}

/// Why a push failed. The local history is kept in every case.
#[derive(Clone, Copy, Debug, PartialEq, Eq, Structural)]
pub enum PushError {
    NetworkError,
    NonFastForwardRejected,
    RemoteMisconfigured,
}

/// Why a cycle stopped before pushing, other than a conflict.
#[derive(Clone, Copy, Debug, PartialEq, Eq, Structural)]
pub enum SyncError {
    Commit(CommitError),
    /// The fetch failed.
    NetworkError,
    /// The histories share no commit.
    Unmergeable,
    /// Moving the branch to the remote tip, or checking it out, failed.
    FastForwardFailed,
    /// The three-way merge, or writing its commit, failed.
    MergeFailed,
}

/// The result of a three-way merge.
#[derive(Clone, Copy, Debug, PartialEq, Eq, Structural)]
pub enum MergeOutcome {
    /// No conflicting path: the merged tree can be committed.
    Clean,
    /// Some paths conflict.
    Conflict,
    /// The merge itself failed.
    Error,
}

/// Where one commit / sync cycle stands.
#[derive(Clone, Copy, Debug, PartialEq, Eq, Structural)]
pub enum Phase {
    Idle,
    CheckingStatus,
    Committing,
    Fetching,
    Analyzing,
    FastForwarding,
    Merging,
    CommittingMerge,
    Pushing,
    /// Terminal: there was nothing to commit or push.
    Clean,
    /// Terminal: the remote holds the local history.
    Pushed,
    /// Terminal: a merge is in progress and needs resolving outside.
    Conflicted,
    /// Terminal: the push failed; the local commits stay.
    PushFailed(PushError),
    /// Terminal: the cycle stopped on an error.
    Failed(SyncError),
}

/// What the caller reports back after doing the last action.
#[derive(Clone, Copy, Debug)]
pub enum Event {
    /// Begin a full cycle: status check, commit, then sync.
    StartCycle { merge_in_progress: bool },
    /// Begin a sync alone (after a commit made earlier).
    StartSync { merge_in_progress: bool },
    /// The status check: a pending change in the working tree, and local
    /// commits that the remote branch lacks (a push that failed earlier).
    Status { modified: bool, unpushed: bool },
    Committed(Result<(), CommitError>),
    Fetched { ok: bool },
    Analyzed(MergeAnalysis),
    FastForwarded { ok: bool },
    Merged(MergeOutcome),
    MergeCommitted { ok: bool },
    PushDone(Result<(), PushError>),
}

/// What the caller must do next.
#[derive(Clone, Copy, Debug, PartialEq, Eq, Structural)]
pub enum Action {
    /// Compute the working-tree status (untracked included, submodules excluded).
    CheckStatus,
    /// Stage everything and commit it on top of HEAD with the auto-commit message.
    CommitAll,
    /// Fetch the configured branch from the configured remote.
    Fetch,
    /// Compare the local tip with the fetched remote tip.
    AnalyzeMerge,
    /// Move the local branch to the remote tip and check it out.
    FastForward,
    /// Merge the remote tip into HEAD against their merge base.
    ThreeWayMerge,
    /// Commit the merged tree with parents HEAD and remote tip, and check it out.
    CommitMerge,
    /// Write the conflicted merge state into the working tree.
    ApplyConflicts,
    /// Push the local branch to the same branch of the remote.
    Push,
    /// Nothing: the cycle is over, or the event did not fit the phase.
    Stop,
}

/// The cycle is over.
pub open spec fn is_terminal(p: Phase) -> bool {
    match p {
        Phase::Clean | Phase::Pushed | Phase::Conflicted | Phase::PushFailed(_) | Phase::Failed(_) => true,
        _ => false,
    }
}

/// The transition table: the next phase and the action it asks for.
/// An event that does not fit the phase changes nothing.
pub open spec fn next(p: Phase, e: Event) -> (Phase, Action) {
    match (p, e) {
        (Phase::Idle, Event::StartCycle { merge_in_progress }) => if merge_in_progress {
            (Phase::Conflicted, Action::Stop)
        } else {
            (Phase::CheckingStatus, Action::CheckStatus)
        },
        (Phase::Idle, Event::StartSync { merge_in_progress }) => if merge_in_progress {
            (Phase::Conflicted, Action::Stop)
        } else {
            (Phase::Fetching, Action::Fetch)
        },
        (Phase::CheckingStatus, Event::Status { modified, unpushed }) => if modified {
            (Phase::Committing, Action::CommitAll)
        } else if unpushed {
            (Phase::Fetching, Action::Fetch)
        } else {
            (Phase::Clean, Action::Stop)
        },
        (Phase::Committing, Event::Committed(res)) => match res {
            Ok(_) => (Phase::Fetching, Action::Fetch),
            Err(c) => (Phase::Failed(SyncError::Commit(c)), Action::Stop),
        },
        (Phase::Fetching, Event::Fetched { ok }) => if ok {
            (Phase::Analyzing, Action::AnalyzeMerge)
        } else {
            (Phase::Failed(SyncError::NetworkError), Action::Stop)
        },
        (Phase::Analyzing, Event::Analyzed(a)) => match a {
            MergeAnalysis::UpToDate => (Phase::Pushing, Action::Push),
            MergeAnalysis::FastForward => (Phase::FastForwarding, Action::FastForward),
            MergeAnalysis::Normal => (Phase::Merging, Action::ThreeWayMerge),
            MergeAnalysis::Unmergeable => (Phase::Failed(SyncError::Unmergeable), Action::Stop),
        },
        (Phase::FastForwarding, Event::FastForwarded { ok }) => if ok {
            (Phase::Pushing, Action::Push)
        } else {
            (Phase::Failed(SyncError::FastForwardFailed), Action::Stop)
        },
        (Phase::Merging, Event::Merged(m)) => match m {
            MergeOutcome::Clean => (Phase::CommittingMerge, Action::CommitMerge),
            MergeOutcome::Conflict => (Phase::Conflicted, Action::ApplyConflicts),
            MergeOutcome::Error => (Phase::Failed(SyncError::MergeFailed), Action::Stop),
        },
        (Phase::CommittingMerge, Event::MergeCommitted { ok }) => if ok {
            (Phase::Pushing, Action::Push)
        } else {
            (Phase::Failed(SyncError::MergeFailed), Action::Stop)
        },
        (Phase::Pushing, Event::PushDone(res)) => match res {
            Ok(_) => (Phase::Pushed, Action::Stop),
            Err(pe) => (Phase::PushFailed(pe), Action::Stop),
        },
        _ => (p, Action::Stop),
    }
}

/// One transition of the cycle.
pub fn step(p: Phase, e: Event) -> (r: (Phase, Action))
    ensures
        r == next(p, e),
{
    match (p, e) {
        (Phase::Idle, Event::StartCycle { merge_in_progress }) => if merge_in_progress {
            (Phase::Conflicted, Action::Stop)
        } else {
            (Phase::CheckingStatus, Action::CheckStatus)
        },
        (Phase::Idle, Event::StartSync { merge_in_progress }) => if merge_in_progress {
            (Phase::Conflicted, Action::Stop)
        } else {
            (Phase::Fetching, Action::Fetch)
        },
        (Phase::CheckingStatus, Event::Status { modified, unpushed }) => if modified {
            (Phase::Committing, Action::CommitAll)
        } else if unpushed {
            (Phase::Fetching, Action::Fetch)
        } else {
            (Phase::Clean, Action::Stop)
        },
        (Phase::Committing, Event::Committed(res)) => match res {
            Ok(_) => (Phase::Fetching, Action::Fetch),
            Err(c) => (Phase::Failed(SyncError::Commit(c)), Action::Stop),
        },
        (Phase::Fetching, Event::Fetched { ok }) => if ok {
            (Phase::Analyzing, Action::AnalyzeMerge)
        } else {
            (Phase::Failed(SyncError::NetworkError), Action::Stop)
        },
        (Phase::Analyzing, Event::Analyzed(a)) => match a {
            MergeAnalysis::UpToDate => (Phase::Pushing, Action::Push),
            MergeAnalysis::FastForward => (Phase::FastForwarding, Action::FastForward),
            MergeAnalysis::Normal => (Phase::Merging, Action::ThreeWayMerge),
            MergeAnalysis::Unmergeable => (Phase::Failed(SyncError::Unmergeable), Action::Stop),
        },
        (Phase::FastForwarding, Event::FastForwarded { ok }) => if ok {
            (Phase::Pushing, Action::Push)
        } else {
            (Phase::Failed(SyncError::FastForwardFailed), Action::Stop)
        },
        (Phase::Merging, Event::Merged(m)) => match m {
            MergeOutcome::Clean => (Phase::CommittingMerge, Action::CommitMerge),
            MergeOutcome::Conflict => (Phase::Conflicted, Action::ApplyConflicts),
            MergeOutcome::Error => (Phase::Failed(SyncError::MergeFailed), Action::Stop),
        },
        (Phase::CommittingMerge, Event::MergeCommitted { ok }) => if ok {
            (Phase::Pushing, Action::Push)
        } else {
            (Phase::Failed(SyncError::MergeFailed), Action::Stop)
        },
        (Phase::Pushing, Event::PushDone(res)) => match res {
            Ok(_) => (Phase::Pushed, Action::Stop),
            Err(pe) => (Phase::PushFailed(pe), Action::Stop),
        },
        _ => (p, Action::Stop),
    }
}

/// The push error for a failed push: a rejection that is not a fast-forward,
/// a network failure, a remote with an empty URL, or else a network error.
pub fn classify_push_failure(not_fast_forward: bool, network: bool, url_empty: bool) -> (r: PushError)
    ensures
        not_fast_forward ==> r == PushError::NonFastForwardRejected,
        !not_fast_forward && network ==> r == PushError::NetworkError,
        !not_fast_forward && !network && url_empty ==> r == PushError::RemoteMisconfigured,
        !not_fast_forward && !network && !url_empty ==> r == PushError::NetworkError,
{
    if not_fast_forward {
        PushError::NonFastForwardRejected
    } else if network {
        PushError::NetworkError
    } else if url_empty {
        PushError::RemoteMisconfigured
    } else {
        PushError::NetworkError
    }
}

/// Whether the cycle is over.
pub fn terminal(p: Phase) -> (r: bool)
    ensures
        r == is_terminal(p),
{
    match p {
        Phase::Clean | Phase::Pushed | Phase::Conflicted | Phase::PushFailed(_) | Phase::Failed(_) => true,
        _ => false,
    }
}

} // verus!

verus! {

/// The phase reached from `p` after the events `es`, and the actions asked for on the way.
pub open spec fn run(p: Phase, es: Seq<Event>) -> (Phase, Seq<Action>)
    decreases es.len(),
{
    if es.len() == 0 {
        (p, Seq::empty())
    } else {
        let prev = run(p, es.drop_last());
        let t = next(prev.0, es.last());
        (t.0, prev.1.push(t.1))
    }
}

/// The event that lets a cycle go on to fetch: a commit made, a status check
/// that found local commits still to push, or a sync started with no merge in
/// progress.
pub open spec fn opens_sync(e: Event) -> bool {
    match e {
        Event::Committed(Ok(_)) => true,
        Event::Status { modified, unpushed } => !modified && unpushed,
        Event::StartSync { merge_in_progress } => !merge_in_progress,
        _ => false,
    }
}

/// A status check that found a pending change.
pub open spec fn reports_change(e: Event) -> bool {
    match e {
        Event::Status { modified, .. } => modified,
        _ => false,
    }
}

/// Phases in which the branch has been neither moved, merge-committed nor pushed.
pub open spec fn history_untouched(p: Phase) -> bool {
    match p {
        Phase::Idle | Phase::CheckingStatus | Phase::Committing | Phase::Fetching
        | Phase::Analyzing | Phase::Merging | Phase::Conflicted | Phase::Clean => true,
        _ => false,
    }
}

/// Phases at or after the fetch.
pub open spec fn syncing(p: Phase) -> bool {
    match p {
        Phase::Fetching | Phase::Analyzing | Phase::FastForwarding | Phase::Merging
        | Phase::CommittingMerge | Phase::Pushing | Phase::Pushed | Phase::PushFailed(_) => true,
        _ => false,
    }
}

/// Phases that can follow a fast-forward.
pub open spec fn after_fast_forward(p: Phase) -> bool {
    match p {
        Phase::FastForwarding | Phase::Pushing | Phase::Pushed | Phase::PushFailed(_)
        | Phase::Failed(_) => true,
        _ => false,
    }
}

/// Phases that can follow the start of a three-way merge.
pub open spec fn after_merge(p: Phase) -> bool {
    match p {
        Phase::Merging | Phase::CommittingMerge | Phase::Pushing | Phase::Pushed
        | Phase::PushFailed(_) | Phase::Conflicted | Phase::Failed(_) => true,
        _ => false,
    }
}

/// A finished cycle stays finished: every later event is ignored.
pub proof fn lemma_terminal_absorbs(p: Phase, e: Event)
    requires
        is_terminal(p),
    ensures
        next(p, e) == (p, Action::Stop),
{
}

/// While the branch is untouched, no action has moved it, merge-committed or pushed.
proof fn lemma_untouched_runs(es: Seq<Event>)
    requires
        history_untouched(run(Phase::Idle, es).0),
    ensures
        forall|k: int| 0 <= k < run(Phase::Idle, es).1.len() ==> {
            let a = #[trigger] run(Phase::Idle, es).1[k];
            a != Action::Push && a != Action::CommitMerge && a != Action::FastForward
        },
    decreases es.len(),
{
    if es.len() > 0 {
        lemma_untouched_runs(es.drop_last());
    }
}

/// A cycle that ends in conflict has not moved the branch, written a merge
/// commit or pushed.
pub proof fn lemma_conflict_never_commits_or_pushes(es: Seq<Event>)
    requires
        run(Phase::Idle, es).0 == Phase::Conflicted,
    ensures
        forall|k: int| 0 <= k < run(Phase::Idle, es).1.len() ==> {
            let a = #[trigger] run(Phase::Idle, es).1[k];
            a != Action::Push && a != Action::CommitMerge && a != Action::FastForward
        },
{
    lemma_untouched_runs(es);
}

/// Once a cycle is syncing, some event opened the sync (see `opens_sync`);
/// and no push is asked for otherwise.
proof fn lemma_sync_is_opened(es: Seq<Event>)
    ensures
        syncing(run(Phase::Idle, es).0) ==> exists|k: int| 0 <= k < es.len() && opens_sync(#[trigger] es[k]),
        (exists|k: int| 0 <= k < run(Phase::Idle, es).1.len() && #[trigger] run(Phase::Idle, es).1[k] == Action::Push)
            ==> exists|k: int| 0 <= k < es.len() && opens_sync(#[trigger] es[k]),
    decreases es.len(),
{
    if es.len() > 0 {
        let es0 = es.drop_last();
        lemma_sync_is_opened(es0);
        let prev = run(Phase::Idle, es0);
        assert(run(Phase::Idle, es).1 == prev.1.push(next(prev.0, es.last()).1));
        if exists|k: int| 0 <= k < es0.len() && opens_sync(#[trigger] es0[k]) {
            let k = choose|k: int| 0 <= k < es0.len() && opens_sync(#[trigger] es0[k]);
            assert(es[k] == es0[k]);
        } else {
            if syncing(run(Phase::Idle, es).0) || next(prev.0, es.last()).1 == Action::Push {
                assert(opens_sync(es[es.len() - 1]));
            }
            if exists|k: int| 0 <= k < run(Phase::Idle, es).1.len() && #[trigger] run(Phase::Idle, es).1[k] == Action::Push {
                let k = choose|k: int| 0 <= k < run(Phase::Idle, es).1.len() && #[trigger] run(Phase::Idle, es).1[k] == Action::Push;
                if k < prev.1.len() {
                    assert(prev.1[k] == Action::Push);
                }
                assert(opens_sync(es[es.len() - 1]));
            }
        }
    }
}

/// A push is asked for only after a successful local commit, a status check
/// that found unpushed local commits, or in a sync started with no merge in
/// progress.
pub proof fn lemma_push_follows_commit(es: Seq<Event>, k: int)
    requires
        0 <= k < run(Phase::Idle, es).1.len(),
        run(Phase::Idle, es).1[k] == Action::Push,
    ensures
        exists|j: int| 0 <= j < es.len() && opens_sync(#[trigger] es[j]),
{
    lemma_sync_is_opened(es);
}

/// A commit of the working tree is asked for only right after a status check
/// that found a pending change.
pub proof fn lemma_commit_needs_change(es: Seq<Event>, k: int)
    requires
        0 <= k < run(Phase::Idle, es).1.len(),
        run(Phase::Idle, es).1[k] == Action::CommitAll,
    ensures
        k < es.len(),
        reports_change(es[k]),
    decreases es.len(),
{
    let es0 = es.drop_last();
    let prev = run(Phase::Idle, es0);
    lemma_run_len(es0);
    if k < prev.1.len() {
        assert(prev.1[k] == Action::CommitAll);
        lemma_commit_needs_change(es0, k);
    }
}

/// One action per event.
proof fn lemma_run_len(es: Seq<Event>)
    ensures
        run(Phase::Idle, es).1.len() == es.len(),
    decreases es.len(),
{
    if es.len() > 0 {
        lemma_run_len(es.drop_last());
    }
}

/// The fast-forward and the three-way merge exclude each other within a run.
proof fn lemma_merge_paths(es: Seq<Event>)
    ensures
        run(Phase::Idle, es).1.contains(Action::FastForward) ==> {
            &&& after_fast_forward(run(Phase::Idle, es).0)
            &&& !run(Phase::Idle, es).1.contains(Action::ThreeWayMerge)
            &&& !run(Phase::Idle, es).1.contains(Action::CommitMerge)
        },
        (run(Phase::Idle, es).1.contains(Action::ThreeWayMerge) || run(Phase::Idle, es).1.contains(
            Action::CommitMerge,
        )) ==> {
            &&& after_merge(run(Phase::Idle, es).0)
            &&& !run(Phase::Idle, es).1.contains(Action::FastForward)
        },
    decreases es.len(),
{
    if es.len() > 0 {
        let es0 = es.drop_last();
        lemma_merge_paths(es0);
        let prev = run(Phase::Idle, es0);
        let t = next(prev.0, es.last());
        let acts = run(Phase::Idle, es).1;
        assert(acts == prev.1.push(t.1));
        assert forall|a: Action| acts.contains(a) <==> (prev.1.contains(a) || a == t.1) by {
            if acts.contains(a) {
                let k = choose|k: int| 0 <= k < acts.len() && acts[k] == a;
                if k < prev.1.len() {
                    assert(prev.1[k] == a);
                }
            }
            if prev.1.contains(a) {
                let k = choose|k: int| 0 <= k < prev.1.len() && prev.1[k] == a;
                assert(acts[k] == a);
            }
            if a == t.1 {
                assert(acts[acts.len() - 1] == a);
            }
        }
    }
}

/// A cycle that fast-forwards never runs a three-way merge nor writes a merge commit.
pub proof fn lemma_fast_forward_never_merges(es: Seq<Event>)
    requires
        run(Phase::Idle, es).1.contains(Action::FastForward),
    ensures
        !run(Phase::Idle, es).1.contains(Action::ThreeWayMerge),
        !run(Phase::Idle, es).1.contains(Action::CommitMerge),
{
    lemma_merge_paths(es);
}

} // verus!

verus! {

/// `refs/heads/<branch>:refs/heads/<branch>`.
pub open spec fn refspec_text(branch: Seq<char>) -> Seq<char> {
    "refs/heads/"@ + branch + ":refs/heads/"@ + branch
}

/// The remote and branch a checkout is kept in sync with, and the URL used
/// to create the remote where it is missing.
pub struct SyncConfig {
    pub remote: String,
    pub branch: String,
    pub url: String,
}

impl SyncConfig {
    /// The fixed defaults: remote `origin`, branch `master`.
    pub fn fixed_default(url: &str) -> (r: SyncConfig)
        ensures
            r.remote@ == "origin"@,
            r.branch@ == "master"@,
            r.url@ == url@,
    {
        SyncConfig {
            remote: String::from_str("origin"),
            branch: String::from_str("master"),
            url: String::from_str(url),
        }
    }

    /// The refspec that pushes the local branch to the same-named remote branch.
    pub fn refspec(&self) -> (r: String)
        ensures
            r@ == refspec_text(self.branch@),
    {
        let mut s = String::from_str("refs/heads/");
        s.append(self.branch.as_str());
        s.append(":refs/heads/");
        s.append(self.branch.as_str());
        s
    }
}

/// One commit / sync cycle on one checkout.
pub struct SyncCycle {
    phase: Phase,
}

impl SyncCycle {
    pub closed spec fn current(&self) -> Phase {
        self.phase
    }

    /// A cycle that has not started.
    pub fn new() -> (r: SyncCycle)
        ensures
            r.current() == Phase::Idle,
    {
        SyncCycle { phase: Phase::Idle }
    }

    /// Where the cycle stands.
    pub fn phase(&self) -> (r: Phase)
        ensures
            r == self.current(),
    {
        self.phase
    }

    /// Whether the cycle is over.
    pub fn is_done(&self) -> (r: bool)
        ensures
            r == is_terminal(self.current()),
    {
        terminal(self.phase)
    }

    /// Takes in what the last action produced and returns the next action.
    pub fn advance(&mut self, e: Event) -> (r: Action)
        ensures
            (final(self).current(), r) == next(old(self).current(), e),
    {
        let (p, a) = step(self.phase, e);
        self.phase = p;
        a
    }
}

} // verus!
