use vstd::prelude::*;

use crate::git::{git_commit_ok, Git};
use crate::hg::{hg_commit_ok, HG};
use crate::BumpError;

verus! {

/// The closed set of version-control backends a repository can use.
#[derive(Clone, Copy, PartialEq, Eq, Structural, Debug)]
pub enum VcsKind {
    /// The mercurial-like backend, probed first.
    Hg,
    /// The git-like backend, probed second.
    Git,
}

/// The message reported when neither backend recognizes the path.
pub open spec fn not_a_repo_error(path: Seq<char>) -> Seq<char> {
    "Not a git or Mercurial repository: "@ + path
}

/// Selects the backend for a repository from the presence of each
/// backend's marker directory under its root, in a fixed precedence
/// order: the mercurial-like marker wins when both are present, and a
/// path with neither marker is not a recognized repository.
pub fn get_vcs_for_repo(path: &str, hg_marker: bool, git_marker: bool) -> (r: Result<
    VcsKind,
    BumpError,
>)
    ensures
        hg_marker ==> r == Ok::<VcsKind, BumpError>(VcsKind::Hg),
        !hg_marker && git_marker ==> r == Ok::<VcsKind, BumpError>(VcsKind::Git),
        !hg_marker && !git_marker ==> r is Err && (r->Err_0 matches BumpError::Precondition(m)
            && m@ == not_a_repo_error(path@)),
{
    if hg_marker {
        Ok(VcsKind::Hg)
    } else if git_marker {
        Ok(VcsKind::Git)
    } else {
        let mut m = String::from_str("Not a git or Mercurial repository: ");
        m.append(path);
        Err(BumpError::Precondition(m))
    }
}

/// The commit outcome rule of the given backend.
pub open spec fn commit_ok(kind: VcsKind, exit_success: bool, stdout: Seq<char>) -> bool {
    match kind {
        VcsKind::Hg => hg_commit_ok(exit_success, stdout),
        VcsKind::Git => git_commit_ok(exit_success, stdout),
    }
}

impl VcsKind {
    /// The marker directory that identifies this backend's repositories.
    pub fn marker_dir(&self) -> (r: String)
        ensures
            *self == VcsKind::Hg ==> r@ == ".hg"@,
            *self == VcsKind::Git ==> r@ == ".git"@,
    {
        match self {
            VcsKind::Hg => HG::new().marker_dir(),
            VcsKind::Git => Git::new().marker_dir(),
        }
    }

    /// The executable this backend invokes.
    pub fn program(&self) -> (r: String)
        ensures
            *self == VcsKind::Hg ==> r@ == "hg"@,
            *self == VcsKind::Git ==> r@ == "git"@,
    {
        match self {
            VcsKind::Hg => HG::new().program(),
            VcsKind::Git => Git::new().program(),
        }
    }

    /// The argument list of this backend's diff command.
    pub fn diff_args(&self) -> (r: Vec<String>)
        ensures
            r.deep_view() == seq!["diff"@],
    {
        match self {
            VcsKind::Hg => HG::new().diff_args(),
            VcsKind::Git => Git::new().diff_args(),
        }
    }

    /// The argument list of this backend's commit command for the given
    /// message.
    pub fn commit_args(&self, msg: &str) -> (r: Vec<String>)
        ensures
            *self == VcsKind::Hg ==> r.deep_view() == seq!["commit"@, "-m"@, msg@],
            *self == VcsKind::Git ==> r.deep_view() == seq!["commit"@, "-am"@, msg@],
    {
        match self {
            VcsKind::Hg => HG::new().commit_args(msg),
            VcsKind::Git => Git::new().commit_args(msg),
        }
    }

    /// Whether this backend's diff command reported uncommitted changes:
    /// exactly when it produced output bytes.
    pub fn has_diff_outcome(&self, stdout: &Vec<u8>) -> (r: bool)
        ensures
            r == (stdout@.len() > 0),
    {
        match self {
            VcsKind::Hg => HG::new().has_diff_outcome(stdout),
            VcsKind::Git => Git::new().has_diff_outcome(stdout),
        }
    }

    /// Decides a commit's outcome under this backend's sentinel rule.
    pub fn commit_outcome(&self, exit_success: bool, stdout: &str, stderr: &str) -> (r: Result<
        (),
        BumpError,
    >)
        ensures
            r is Ok <==> commit_ok(*self, exit_success, stdout@),
            r is Err ==> r->Err_0 is Process,
    {
        match self {
            VcsKind::Hg => HG::new().commit_outcome(exit_success, stdout, stderr),
            VcsKind::Git => Git::new().commit_outcome(exit_success, stdout, stderr),
        }
    }
}

} // verus!
