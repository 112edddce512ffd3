use vstd::prelude::*;

verus! {

/// The ways in which an operation on the store or on a repository can fail.
#[derive(Debug, Clone, Copy, PartialEq, Eq, Structural)]
pub enum PaletteError {
    /// The store file exists but does not hold a valid store.
    ConfigParseError,
    /// The store file could not be read or written.
    ConfigIOError,
    /// A repository of that name is already tracked.
    DuplicateRepository,
    /// No repository of that name is tracked, or it has no local clone.
    RepositoryNotFound,
    /// The remote could not be cloned.
    CloneError,
    /// The remote could not be fetched.
    FetchError,
    /// Local and remote have diverged and need a manual merge.
    MergeConflict,
    /// The working tree holds uncommitted or untracked changes.
    DirtyWorkingTree,
    /// HEAD is not on a named branch.
    DetachedHeadError,
    /// The remote refused the push.
    PushRejected,
    /// The branch does not exist and was not to be created.
    BranchNotFound,
}

} // verus!
