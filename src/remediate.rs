use vstd::prelude::*;
use crate::dependency::{clone_opt, opt_view, GithubDependency, GithubView};
use crate::paths::str_eq;
use crate::reconcile::{is_default_branch, reset_target_of};

verus! {

/// Why remediation of a diverged checkout stopped short.
#[derive(Clone, Copy, PartialEq, Eq, Structural, Debug)]
pub enum UpdateError {
    /// The checkout could not be moved onto the wanted branch (for an
    /// unnamed branch: onto neither `main` nor `master`).
    BranchSwitchFailed,
    /// Fetching the branch from `origin` failed.
    FetchFailed,
    /// The reset failed again after the branch was fetched, or there was
    /// no branch to fetch.
    ResetFailed,
}

/// Where a remediation stands.
#[derive(Clone, Copy, Debug, PartialEq, Eq)]
pub enum UpdatePhase {
    /// Moving onto the branch the specifier names.
    SwitchingBranch,
    /// Moving onto `main`, the first default branch tried.
    SwitchingMain,
    /// Moving onto `master`, tried when `main` could not be checked out.
    SwitchingMaster,
    Resetting,
    Fetching,
    Done(Result<(), UpdateError>),
}

/// What the caller is to do next on the checkout, reporting back whether
/// it succeeded.
#[derive(Debug, PartialEq, Eq)]
pub enum UpdateAction {
    /// Check out the named branch and point the head at it.
    SwitchBranch(String),
    /// Resolve the revision; unless the head is already there, reset hard
    /// to it. Failing to resolve it counts as a failure.
    ResetTo(String),
    /// Fetch the named branch from `origin` and check it out.
    FetchBranch(String),
    /// Nothing more to do; the outcome of the remediation.
    Finish(Result<(), UpdateError>),
}

/// The model of an [`UpdateAction`].
pub enum ActionView {
    SwitchBranch(Seq<char>),
    ResetTo(Seq<char>),
    FetchBranch(Seq<char>),
    Finish(Result<(), UpdateError>),
}

impl View for UpdateAction {
    type V = ActionView;

    open spec fn view(&self) -> ActionView {
        match self {
            UpdateAction::SwitchBranch(b) => ActionView::SwitchBranch(b@),
            UpdateAction::ResetTo(t) => ActionView::ResetTo(t@),
            UpdateAction::FetchBranch(b) => ActionView::FetchBranch(b@),
            UpdateAction::Finish(r) => ActionView::Finish(*r),
        }
    }
}

/// The remediation of one diverged checkout, towards the target of its
/// specifier: first onto the wanted branch (the named one, else `main` or
/// `master`) if the head is elsewhere, then, when a hash or tag is pinned,
/// a hard reset to it; when that reset fails, the branch is fetched once
/// and the reset tried once more.
pub struct UpdateMachine {
    pub github: GithubDependency,
    /// The branch the head is on, as last known.
    pub head_branch: Option<String>,
    pub phase: UpdatePhase,
    /// Whether the one fetch has been asked for.
    pub fetched: bool,
}

/// The model of an [`UpdateMachine`].
pub struct MachineView {
    pub github: GithubView,
    pub head_branch: Option<Seq<char>>,
    pub phase: UpdatePhase,
    pub fetched: bool,
}

impl View for UpdateMachine {
    type V = MachineView;

    open spec fn view(&self) -> MachineView {
        MachineView {
            github: self.github@,
            head_branch: opt_view(self.head_branch),
            phase: self.phase,
            fetched: self.fetched,
        }
    }
}

/// The revision reset to once the branch is right: the hash when one is
/// pinned, else the tag; none when neither is.
pub open spec fn pinned_revision(g: GithubView) -> Option<Seq<char>> {
    if g.hash is Some {
        g.hash
    } else {
        g.tag
    }
}

/// Phase and action once the head is on the wanted branch: reset to the
/// pinned revision, or, with none pinned, done.
pub open spec fn after_branch(m: MachineView) -> (MachineView, ActionView) {
    match pinned_revision(m.github) {
        Some(t) => (MachineView { phase: UpdatePhase::Resetting, ..m }, ActionView::ResetTo(t)),
        None => finished(m, Ok(())),
    }
}

/// The first phase and action of a remediation that begins with the head
/// on `head_branch`.
pub open spec fn started(g: GithubView, head_branch: Option<Seq<char>>) -> (MachineView, ActionView) {
    let m = MachineView { github: g, head_branch, phase: UpdatePhase::SwitchingBranch, fetched: false };
    match g.branch {
        Some(b) => if head_branch == Some(b) {
            after_branch(m)
        } else {
            (m, ActionView::SwitchBranch(b))
        },
        None => if is_default_branch(head_branch) {
            after_branch(m)
        } else {
            (MachineView { phase: UpdatePhase::SwitchingMain, ..m }, ActionView::SwitchBranch("main"@))
        },
    }
}

/// The machine done with outcome `res`, and the action reporting it.
pub open spec fn finished(m: MachineView, res: Result<(), UpdateError>) -> (MachineView, ActionView) {
    (MachineView { phase: UpdatePhase::Done(res), ..m }, ActionView::Finish(res))
}

/// One transition: the machine and the action that follow when the last
/// action succeeded (`ok`) or failed.
pub open spec fn stepped(m: MachineView, ok: bool) -> (MachineView, ActionView) {
    match m.phase {
        UpdatePhase::SwitchingBranch => if ok {
            after_branch(MachineView { head_branch: m.github.branch, ..m })
        } else {
            finished(m, Err(UpdateError::BranchSwitchFailed))
        },
        UpdatePhase::SwitchingMain => if ok {
            after_branch(MachineView { head_branch: Some("main"@), ..m })
        } else {
            (MachineView { phase: UpdatePhase::SwitchingMaster, ..m }, ActionView::SwitchBranch("master"@))
        },
        UpdatePhase::SwitchingMaster => if ok {
            after_branch(MachineView { head_branch: Some("master"@), ..m })
        } else {
            finished(m, Err(UpdateError::BranchSwitchFailed))
        },
        UpdatePhase::Resetting => if ok {
            finished(m, Ok(()))
        } else if !m.fetched && m.head_branch is Some {
            (
                MachineView { phase: UpdatePhase::Fetching, fetched: true, ..m },
                ActionView::FetchBranch(m.head_branch->0),
            )
        } else {
            finished(m, Err(UpdateError::ResetFailed))
        },
        UpdatePhase::Fetching => if ok {
            (MachineView { phase: UpdatePhase::Resetting, ..m }, ActionView::ResetTo(pinned_revision(m.github)->0))
        } else {
            finished(m, Err(UpdateError::FetchFailed))
        },
        UpdatePhase::Done(res) => (m, ActionView::Finish(res)),
    }
}

/// How many more transitions a remediation can take before it is done.
pub open spec fn remaining(m: MachineView) -> nat {
    match m.phase {
        UpdatePhase::SwitchingMain => 5,
        UpdatePhase::SwitchingBranch => 4,
        UpdatePhase::SwitchingMaster => 4,
        UpdatePhase::Resetting => if m.fetched { 1 } else { 3 },
        UpdatePhase::Fetching => 2,
        UpdatePhase::Done(_) => 0,
    }
}

/// A reset or a fetch is only under way when there is a revision to reset
/// to, with the head on the named branch when one is named, and a fetch
/// counts as asked for; the default branches are only tried when no
/// branch is named.
pub open spec fn machine_wf(m: MachineView) -> bool {
    &&& (m.phase is Resetting || m.phase is Fetching) ==> pinned_revision(m.github) is Some
    &&& (m.phase is Resetting || m.phase is Fetching) && m.github.branch is Some ==> m.head_branch
        == m.github.branch
    &&& m.phase is Fetching ==> m.fetched
    &&& (m.phase is SwitchingMain || m.phase is SwitchingMaster) ==> m.github.branch is None
}

/// The machine after a run of transitions, one per reported outcome.
pub open spec fn run(m: MachineView, oks: Seq<bool>) -> MachineView
    decreases oks.len(),
{
    if oks.len() == 0 {
        m
    } else {
        run(stepped(m, oks[0]).0, oks.drop_first())
    }
}

/// How many fetches a run of transitions asks for.
pub open spec fn fetches(m: MachineView, oks: Seq<bool>) -> nat
    decreases oks.len(),
{
    if oks.len() == 0 {
        0
    } else {
        (if stepped(m, oks[0]).1 is FetchBranch { 1nat } else { 0nat }) + fetches(
            stepped(m, oks[0]).0,
            oks.drop_first(),
        )
    }
}

/// How many resets a run of transitions asks for.
pub open spec fn resets(m: MachineView, oks: Seq<bool>) -> nat
    decreases oks.len(),
{
    if oks.len() == 0 {
        0
    } else {
        (if stepped(m, oks[0]).1 is ResetTo { 1nat } else { 0nat }) + resets(
            stepped(m, oks[0]).0,
            oks.drop_first(),
        )
    }
}

proof fn lemma_step_facts(m: MachineView, ok: bool)
    requires
        machine_wf(m),
    ensures
        machine_wf(stepped(m, ok).0),
        m.phase is Done ==> stepped(m, ok).0 == m,
        !(m.phase is Done) ==> remaining(stepped(m, ok).0) < remaining(m),
        stepped(m, ok).1 is FetchBranch ==> !m.fetched && stepped(m, ok).0.fetched,
        m.fetched ==> stepped(m, ok).0.fetched,
        stepped(m, ok).1 is ResetTo ==> stepped(m, ok).0.phase is Resetting,
        m.phase is Resetting ==> !(stepped(m, ok).1 is ResetTo),
        stepped(m, ok).1 is ResetTo && m.phase is Fetching ==> stepped(m, ok).0.fetched,
{
}

/// Remediation never retries without bound: whatever outcomes the caller
/// reports, a run asks for at most one fetch (none once one was asked
/// for), and is done after `remaining` transitions.
pub proof fn lemma_remediation_ends(m: MachineView, oks: Seq<bool>)
    requires
        machine_wf(m),
    ensures
        fetches(m, oks) <= (if m.fetched { 0nat } else { 1nat }),
        oks.len() >= remaining(m) ==> run(m, oks).phase is Done,
    decreases oks.len(),
{
    if oks.len() > 0 {
        lemma_step_facts(m, oks[0]);
        lemma_remediation_ends(stepped(m, oks[0]).0, oks.drop_first());
    }
}

/// Whatever outcomes the caller reports, a remediation from its start asks
/// for at most two resets: the first try, and one retry after the fetch.
pub proof fn lemma_at_most_two_resets(g: GithubView, head_branch: Option<Seq<char>>, oks: Seq<bool>)
    ensures
        (if started(g, head_branch).1 is ResetTo { 1nat } else { 0nat }) + resets(
            started(g, head_branch).0,
            oks,
        ) <= 2,
{
    lemma_resets_bound(started(g, head_branch).0, oks);
}

/// How many more resets a remediation can ask for.
pub open spec fn reset_budget(m: MachineView) -> nat {
    match m.phase {
        UpdatePhase::Done(_) => 0,
        UpdatePhase::Resetting => if m.fetched { 0 } else { 1 },
        UpdatePhase::Fetching => 1,
        _ => if m.fetched { 1 } else { 2 },
    }
}

proof fn lemma_resets_bound(m: MachineView, oks: Seq<bool>)
    requires
        machine_wf(m),
    ensures
        resets(m, oks) <= reset_budget(m),
    decreases oks.len(),
{
    if oks.len() > 0 {
        lemma_step_facts(m, oks[0]);
        lemma_resets_bound(stepped(m, oks[0]).0, oks.drop_first());
    }
}

/// The one fetch is of the branch the head is on: the named branch when
/// the specifier names one.
pub proof fn lemma_fetch_names_wanted_branch(m: MachineView, ok: bool)
    requires
        machine_wf(m),
        stepped(m, ok).1 is FetchBranch,
    ensures
        m.head_branch is Some,
        stepped(m, ok).1 == ActionView::FetchBranch(m.head_branch->0),
        m.github.branch is Some ==> stepped(m, ok).1 == ActionView::FetchBranch(m.github.branch->0),
{
}

impl UpdateMachine {
    /// See [`machine_wf`].
    pub open spec fn wf(&self) -> bool {
        machine_wf(self@)
    }

    /// Begins remediating a checkout whose head is on `head_branch`.
    pub fn start(github: GithubDependency, head_branch: Option<String>) -> (r: (UpdateMachine, UpdateAction))
        ensures
            r.0.wf(),
            r.0.github == github,
            (r.0@, r.1@) == started(github@, opt_view(head_branch)),
    {
        let switch_to = match &github.branch {
            Some(b) => match &head_branch {
                Some(hb) => if str_eq(hb.as_str(), b.as_str()) {
                    None
                } else {
                    Some(b.clone())
                },
                None => Some(b.clone()),
            },
            None => match &head_branch {
                Some(hb) => if str_eq(hb.as_str(), "main") || str_eq(hb.as_str(), "master") {
                    None
                } else {
                    Some(String::from_str("main"))
                },
                None => Some(String::from_str("main")),
            },
        };
        let named = github.branch.is_some();
        let mut m = UpdateMachine { github, head_branch, phase: UpdatePhase::SwitchingBranch, fetched: false };
        match switch_to {
            Some(b) => {
                if !named {
                    m.phase = UpdatePhase::SwitchingMain;
                }
                (m, UpdateAction::SwitchBranch(b))
            },
            None => {
                let a = m.after_branch();
                (m, a)
            },
        }
    }

    /// Moves on once the head is on the wanted branch.
    fn after_branch(&mut self) -> (a: UpdateAction)
        ensures
            (final(self)@, a@) == after_branch(old(self)@),
            final(self).github == old(self).github,
    {
        match reset_target_of(&self.github) {
            Some(t) => {
                self.phase = UpdatePhase::Resetting;
                UpdateAction::ResetTo(t)
            },
            None => self.finish(Ok(())),
        }
    }

    /// Advances the remediation by the outcome of the last action. The
    /// machine is done within five transitions, and asks for at most one
    /// fetch.
    pub fn step(&mut self, succeeded: bool) -> (a: UpdateAction)
        requires
            old(self).wf(),
        ensures
            final(self).wf(),
            final(self).github == old(self).github,
            (final(self)@, a@) == stepped(old(self)@, succeeded),
            old(self).phase is Done ==> final(self)@ == old(self)@,
            !(old(self).phase is Done) ==> remaining(final(self)@) < remaining(old(self)@),
            a is FetchBranch ==> !old(self).fetched && final(self).fetched,
            old(self).fetched ==> final(self).fetched,
    {
        proof {
            lemma_step_facts(self@, succeeded);
        }
        match self.phase {
            UpdatePhase::SwitchingBranch => {
                if succeeded {
                    self.head_branch = clone_opt(&self.github.branch);
                    self.after_branch()
                } else {
                    self.finish(Err(UpdateError::BranchSwitchFailed))
                }
            },
            UpdatePhase::SwitchingMain => {
                if succeeded {
                    self.head_branch = Some(String::from_str("main"));
                    self.after_branch()
                } else {
                    self.phase = UpdatePhase::SwitchingMaster;
                    UpdateAction::SwitchBranch(String::from_str("master"))
                }
            },
            UpdatePhase::SwitchingMaster => {
                if succeeded {
                    self.head_branch = Some(String::from_str("master"));
                    self.after_branch()
                } else {
                    self.finish(Err(UpdateError::BranchSwitchFailed))
                }
            },
            UpdatePhase::Resetting => {
                if succeeded {
                    self.finish(Ok(()))
                } else if !self.fetched && self.head_branch.is_some() {
                    let b = clone_opt(&self.head_branch);
                    self.phase = UpdatePhase::Fetching;
                    self.fetched = true;
                    UpdateAction::FetchBranch(b.unwrap())
                } else {
                    self.finish(Err(UpdateError::ResetFailed))
                }
            },
            UpdatePhase::Fetching => {
                if succeeded {
                    self.phase = UpdatePhase::Resetting;
                    UpdateAction::ResetTo(reset_target_of(&self.github).unwrap())
                } else {
                    self.finish(Err(UpdateError::FetchFailed))
                }
            },
            UpdatePhase::Done(res) => UpdateAction::Finish(res),
        }
    }

    fn finish(&mut self, res: Result<(), UpdateError>) -> (a: UpdateAction)
        ensures
            (final(self)@, a@) == finished(old(self)@, res),
            final(self).github == old(self).github,
    {
        self.phase = UpdatePhase::Done(res);
        UpdateAction::Finish(res)
    }
}

} // verus!
