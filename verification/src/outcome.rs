use vstd::prelude::*;

verus! {

/// Which step of the per-repository update sequence failed.
///
/// Every repository failure is non-fatal to the run: the worker records an
/// error outcome and moves on to the next task.
#[derive(Clone, Copy, PartialEq, Eq, Structural, Debug)]
pub enum ErrorKind {
    /// The repository at the given path could not be opened.
    OpenFailed,
    /// The working-tree status query failed.
    StatusQueryFailed,
    /// Fetching the `origin` remote failed (network or authentication).
    FetchFailed,
    /// The current branch or its upstream reference could not be resolved
    /// to a commit.
    UpstreamResolutionFailed,
    /// Moving the HEAD reference to the upstream commit failed.
    ReferenceUpdateFailed,
    /// Force-checkout of the updated working tree failed.
    CheckoutFailed,
    /// The tree-to-tree diff between the old and new commits failed.
    DiffFailed,
}

/// The terminal result of processing one repository task.
///
/// Exactly one outcome is produced per task.
#[derive(Clone, Copy, PartialEq, Eq, Structural, Debug)]
pub enum Outcome {
    /// The repository was fast-forwarded; `files_changed` counts the file
    /// entries that differ between the old and new trees.
    Updated { files_changed: usize },
    /// The current branch already points at its upstream commit.
    UpToDate,
    /// The working tree has staged, unstaged, or untracked changes; the
    /// repository was left untouched.
    Unclean,
    /// The current branch has no configured upstream; not an error.
    NoUpstream,
    /// One step of the update sequence failed.
    Error { kind: ErrorKind },
}

impl Outcome {
    /// Whether a human-readable line is reported for this outcome: updated
    /// and unclean repositories get a status line, errors get an error line,
    /// and up-to-date or upstream-less repositories pass silently.
    pub open spec fn spec_reports_line(self) -> bool {
        match self {
            Outcome::Updated { .. } => true,
            Outcome::UpToDate => false,
            Outcome::Unclean => true,
            Outcome::NoUpstream => false,
            Outcome::Error { .. } => true,
        }
    }

    /// Decides whether this outcome is announced with its own output line.
    pub fn reports_line(&self) -> (r: bool)
        ensures
            r == self.spec_reports_line(),
    {
        match self {
            Outcome::Updated { .. } => true,
            Outcome::UpToDate => false,
            Outcome::Unclean => true,
            Outcome::NoUpstream => false,
            Outcome::Error { .. } => true,
        }
    }
}

} // verus!
