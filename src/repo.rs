use vstd::prelude::*;

use crate::error::PaletteError;

verus! {

/// The branch and commit that a local clone has checked out.
#[derive(Debug, Clone)]
pub struct CheckOutInfo {
    pub branch_name: String,
    pub commit_sha: String,
}

impl View for CheckOutInfo {
    /// The branch, then the commit.
    type V = (Seq<char>, Seq<char>);

    open spec fn view(&self) -> (Seq<char>, Seq<char>) {
        (self.branch_name@, self.commit_sha@)
    }
}

impl Default for CheckOutInfo {
    fn default() -> (r: CheckOutInfo)
        ensures
            r.branch_name@ == Seq::<char>::empty(),
            r.commit_sha@ == Seq::<char>::empty(),
    {
        CheckOutInfo { branch_name: String::new(), commit_sha: String::new() }
    }
}

/// What git's merge analysis said of the fetched tip against the local HEAD.
#[derive(Debug, Clone, Copy, PartialEq, Eq, Structural)]
pub struct MergeAnalysis {
    /// The fetched tip is already contained in the local history.
    pub up_to_date: bool,
    /// The local branch can be moved straight to the fetched tip.
    pub fast_forward: bool,
    /// A merge commit is needed to bring the two together.
    pub normal: bool,
    /// Such a merge would leave conflicts to resolve by hand.
    pub conflicts: bool,
}

/// What an update does to a local clone.
#[derive(Debug, Clone, Copy, PartialEq, Eq, Structural)]
pub enum UpdateStep {
    /// Nothing: the clone already holds the fetched tip.
    UpToDate,
    /// Move the integration branch to the fetched tip and check it out.
    FastForward,
    /// Merge the fetched tip into the working tree.
    Merge,
}

/// What a branch switch does to a local clone.
#[derive(Debug, Clone, Copy, PartialEq, Eq, Structural)]
pub enum SwitchStep {
    /// Check out the existing branch.
    CheckOut,
    /// Create the branch at HEAD, then check it out.
    CreateAndCheckOut,
}

/// One path that differs between the working tree, the index and HEAD.
pub struct StatusEntry {
    pub path: String,
    /// Changed in the working tree.
    pub worktree_modified: bool,
    /// Present in the working tree and unknown to git.
    pub untracked: bool,
    /// Changed in the index and not yet committed.
    pub staged: bool,
}

/// The warning lines for one changed path.
pub open spec fn entry_warnings_of(e: StatusEntry) -> Seq<Seq<char>> {
    let modified = if e.worktree_modified {
        seq!["Modified: "@ + e.path@]
    } else {
        Seq::empty()
    };
    let untracked = if e.untracked {
        seq!["Untracked: "@ + e.path@]
    } else {
        Seq::empty()
    };
    let staged = if e.staged {
        seq!["Staged change: "@ + e.path@]
    } else {
        Seq::empty()
    };
    modified + untracked + staged
}

/// The warning lines for all changed paths, path by path.
pub open spec fn warnings_of(entries: Seq<StatusEntry>) -> Seq<Seq<char>>
    decreases entries.len(),
{
    if entries.len() == 0 {
        Seq::empty()
    } else {
        warnings_of(entries.drop_last()) + entry_warnings_of(entries.last())
    }
}

/// The full name of the local branch `branch`.
pub open spec fn branch_ref_of(branch: Seq<char>) -> Seq<char> {
    "refs/heads/"@ + branch
}

/// The SSH address of repository `name` of `organization`.
pub open spec fn remote_url_of(organization: Seq<char>, name: Seq<char>) -> Seq<char> {
    "git@github.com:"@ + organization + "/"@ + name + ".git"@
}

/// The line that reports where local HEAD and the remote tip stand.
pub open spec fn comparison_summary(local: Seq<char>, remote: Seq<char>) -> Seq<char> {
    if local == remote {
        "Local and remote are both at "@ + local
    } else {
        "Local is at "@ + local + ", remote is at "@ + remote
    }
}

/// The update that brings a clone at `local` up to the fetched tip `fetched`.
pub open spec fn planned_update(local: Seq<char>, fetched: Seq<char>, a: MergeAnalysis) -> Result<
    UpdateStep,
    PaletteError,
> {
    if local == fetched || a.up_to_date {
        Ok(UpdateStep::UpToDate)
    } else if a.fast_forward {
        Ok(UpdateStep::FastForward)
    } else if a.normal && a.conflicts {
        Err(PaletteError::MergeConflict)
    } else if a.normal {
        Ok(UpdateStep::Merge)
    } else {
        Ok(UpdateStep::UpToDate)
    }
}

/// The checkout after `step`, where `target` is the full name of the
/// integration branch and `fetched` its fetched tip. A merge leaves HEAD
/// where it was until the merge is committed.
pub open spec fn updated_checkout(
    info: (Seq<char>, Seq<char>),
    step: UpdateStep,
    target: Seq<char>,
    fetched: Seq<char>,
) -> (Seq<char>, Seq<char>) {
    match step {
        UpdateStep::FastForward => (target, fetched),
        _ => info,
    }
}

/// An update of a clone whose HEAD already is the fetched tip does nothing
/// and leaves its checkout as it was. Once an update has left the clone at
/// the tip (by a fast-forward, or because it was there), a second update
/// against the same tip, whatever git's analysis says, does nothing either
/// and leaves the checkout byte for byte as the first left it.
pub proof fn lemma_update_idempotent(
    info: (Seq<char>, Seq<char>),
    target: Seq<char>,
    fetched: Seq<char>,
    first: MergeAnalysis,
    second: MergeAnalysis,
)
    requires
        planned_update(info.1, fetched, first) == Ok::<UpdateStep, PaletteError>(
            UpdateStep::FastForward,
        ) || info.1 == fetched,
    ensures
        info.1 == fetched ==> planned_update(info.1, fetched, first) == Ok::<
            UpdateStep,
            PaletteError,
        >(UpdateStep::UpToDate) && updated_checkout(info, UpdateStep::UpToDate, target, fetched)
            == info,
        ({
            let after_first = updated_checkout(
                info,
                planned_update(info.1, fetched, first)->Ok_0,
                target,
                fetched,
            );
            &&& planned_update(after_first.1, fetched, second) == Ok::<UpdateStep, PaletteError>(
                UpdateStep::UpToDate,
            )
            &&& updated_checkout(after_first, UpdateStep::UpToDate, target, fetched)
                == after_first
        }),
{
}

/// The full name of the local branch `branch`: `refs/heads/<branch>`.
pub fn branch_ref(branch: &str) -> (r: String)
    ensures
        r@ == branch_ref_of(branch@),
{
    let mut r = String::from_str("refs/heads/");
    r.append(branch);
    r
}

/// The address to clone repository `name` of `organization` from.
pub fn remote_url(organization: &str, name: &str) -> (r: String)
    ensures
        r@ == remote_url_of(organization@, name@),
{
    let mut r = String::from_str("git@github.com:");
    r.append(organization);
    r.append("/");
    r.append(name);
    r.append(".git");
    r
}

/// Compares local HEAD with the fetched remote tip: whether they differ,
/// and a line naming both.
pub fn compare_commits(local: &String, remote: &String) -> (r: (bool, String))
    ensures
        r.0 == (local@ != remote@),
        r.1@ == comparison_summary(local@, remote@),
{
    if *local == *remote {
        let mut s = String::from_str("Local and remote are both at ");
        s.append(local.as_str());
        (false, s)
    } else {
        let mut s = String::from_str("Local is at ");
        s.append(local.as_str());
        s.append(", remote is at ");
        s.append(remote.as_str());
        (true, s)
    }
}

fn prefixed(prefix: &str, path: &String) -> (r: String)
    ensures
        r@ == prefix@ + path@,
{
    let mut r = String::from_str(prefix);
    r.append(path.as_str());
    r
}

/// The warning lines for one changed path: one for each of a change in the
/// working tree, an untracked file and a staged change, in that order.
pub fn entry_warnings(e: &StatusEntry) -> (r: Vec<String>)
    ensures
        r@.map_values(|s: String| s@) == entry_warnings_of(*e),
{
    let mut r: Vec<String> = Vec::new();
    if e.worktree_modified {
        r.push(prefixed("Modified: ", &e.path));
    }
    if e.untracked {
        r.push(prefixed("Untracked: ", &e.path));
    }
    if e.staged {
        r.push(prefixed("Staged change: ", &e.path));
    }
    assert(r@.map_values(|s: String| s@) =~= entry_warnings_of(*e));
    r
}

/// The warnings that a comparison gives for the changes it finds in a
/// working tree, which it reports and never alters.
pub fn status_warnings(entries: &Vec<StatusEntry>) -> (r: Vec<String>)
    ensures
        r@.map_values(|s: String| s@) == warnings_of(entries@),
{
    let mut r: Vec<String> = Vec::new();
    let mut i: usize = 0;
    while i < entries.len()
        invariant
            0 <= i <= entries@.len(),
            r@.map_values(|s: String| s@) == warnings_of(entries@.take(i as int)),
        decreases entries@.len() - i,
    {
        proof {
            assert(entries@.take(i + 1).drop_last() =~= entries@.take(i as int));
        }
        let mut more = entry_warnings(&entries[i]);
        let ghost before = r@;
        let ghost added = more@;
        r.append(&mut more);
        assert(r@.map_values(|s: String| s@) =~= before.map_values(|s: String| s@)
            + added.map_values(|s: String| s@));
        i = i + 1;
    }
    proof {
        assert(entries@.take(entries@.len() as int) =~= entries@);
    }
    r
}

/// Decides how to bring a clone whose HEAD is at `local` up to the fetched
/// tip `fetched`. A clone already there, or already holding the tip, is left
/// alone; one that can fast-forward does; one that needs a merge gets it
/// unless the merge would conflict, which is reported instead.
pub fn plan_update(local: &String, fetched: &String, analysis: MergeAnalysis) -> (r: Result<
    UpdateStep,
    PaletteError,
>)
    ensures
        r == planned_update(local@, fetched@, analysis),
{
    if *local == *fetched || analysis.up_to_date {
        Ok(UpdateStep::UpToDate)
    } else if analysis.fast_forward {
        Ok(UpdateStep::FastForward)
    } else if analysis.normal && analysis.conflicts {
        Err(PaletteError::MergeConflict)
    } else if analysis.normal {
        Ok(UpdateStep::Merge)
    } else {
        Ok(UpdateStep::UpToDate)
    }
}

impl CheckOutInfo {
    /// The checkout once `step` is done, where `target` is the full name of
    /// the integration branch and `fetched` its fetched tip.
    pub fn after_update(&self, step: UpdateStep, target: &String, fetched: &String) -> (r:
        CheckOutInfo)
        ensures
            r@ == updated_checkout(self@, step, target@, fetched@),
    {
        match step {
            UpdateStep::FastForward => CheckOutInfo {
                branch_name: target.clone(),
                commit_sha: fetched.clone(),
            },
            _ => CheckOutInfo {
                branch_name: self.branch_name.clone(),
                commit_sha: self.commit_sha.clone(),
            },
        }
    }
}

/// Decides whether a clone may be pushed. With any uncommitted or untracked
/// change it may not, and nothing is to be sent; with HEAD off any branch it
/// may not either. Otherwise the result is the refspec that pushes the
/// current branch to the branch of the same name on the remote.
pub fn plan_push(pending_changes: usize, head_branch: Option<String>) -> (r: Result<
    String,
    PaletteError,
>)
    ensures
        pending_changes > 0 ==> r == Err::<String, PaletteError>(PaletteError::DirtyWorkingTree),
        pending_changes == 0 && head_branch is None ==> r == Err::<String, PaletteError>(
            PaletteError::DetachedHeadError,
        ),
        pending_changes == 0 && head_branch is Some ==> r is Ok && r->Ok_0@ == branch_ref_of(
            head_branch->Some_0@,
        ) + ":"@ + branch_ref_of(head_branch->Some_0@),
{
    if pending_changes > 0 {
        return Err(PaletteError::DirtyWorkingTree);
    }
    match head_branch {
        None => Err(PaletteError::DetachedHeadError),
        Some(b) => {
            let mut refspec = branch_ref(b.as_str());
            refspec.append(":");
            let dest = branch_ref(b.as_str());
            refspec.append(dest.as_str());
            Ok(refspec)
        },
    }
}

/// Decides how to switch a clone to a branch. A missing branch is created
/// only when asked for; a working tree with changes is never switched, so
/// that nothing is discarded.
pub fn plan_switch(branch_exists: bool, create: bool, pending_changes: usize) -> (r: Result<
    SwitchStep,
    PaletteError,
>)
    ensures
        !branch_exists && !create ==> r == Err::<SwitchStep, PaletteError>(
            PaletteError::BranchNotFound,
        ),
        (branch_exists || create) && pending_changes > 0 ==> r == Err::<SwitchStep, PaletteError>(
            PaletteError::DirtyWorkingTree,
        ),
        branch_exists && pending_changes == 0 ==> r == Ok::<SwitchStep, PaletteError>(
            SwitchStep::CheckOut,
        ),
        !branch_exists && create && pending_changes == 0 ==> r == Ok::<SwitchStep, PaletteError>(
            SwitchStep::CreateAndCheckOut,
        ),
{
    if !branch_exists && !create {
        Err(PaletteError::BranchNotFound)
    } else if pending_changes > 0 {
        Err(PaletteError::DirtyWorkingTree)
    } else if branch_exists {
        Ok(SwitchStep::CheckOut)
    } else {
        Ok(SwitchStep::CreateAndCheckOut)
    }
}

} // verus!
