use vstd::prelude::*;

use crate::text::{contains_seq, str_contains, str_trim, trimmed};
use crate::BumpError;

verus! {

/// The git-like backend: its marker directory, the shapes of its diff
/// and commit commands, and the reading of their captured output.
pub struct Git;

/// A commit is a success when the process exited successfully, or when
/// its output reports that there was nothing left to commit.
pub open spec fn git_commit_ok(exit_success: bool, stdout: Seq<char>) -> bool {
    exit_success || contains_seq(trimmed(stdout), "nothing to commit"@)
}

/// The message reported when a commit fails for any other reason.
pub open spec fn git_commit_error(stdout: Seq<char>, stderr: Seq<char>) -> Seq<char> {
    "git commit returned an error: "@ + stdout + " "@ + stderr
}

impl Git {
    pub fn new() -> (r: Git) {
        Git
    }

    /// The marker directory whose presence directly under a path
    /// identifies a repository of this kind.
    pub fn marker_dir(&self) -> (r: String)
        ensures
            r@ == ".git"@,
    {
        String::from_str(".git")
    }

    /// The executable this backend invokes.
    pub fn program(&self) -> (r: String)
        ensures
            r@ == "git"@,
    {
        String::from_str("git")
    }

    /// The argument list of the diff command, which reports uncommitted
    /// changes by producing output.
    pub fn diff_args(&self) -> (r: Vec<String>)
        ensures
            r.deep_view() == seq!["diff"@],
    {
        let mut v: Vec<String> = Vec::new();
        v.push(String::from_str("diff"));
        proof {
            assert(v.deep_view() =~= seq!["diff"@]);
        }
        v
    }

    /// The argument list of the commit command, staging all tracked
    /// modifications under the given message.
    pub fn commit_args(&self, msg: &str) -> (r: Vec<String>)
        ensures
            r.deep_view() == seq!["commit"@, "-am"@, msg@],
    {
        let mut v: Vec<String> = Vec::new();
        v.push(String::from_str("commit"));
        v.push(String::from_str("-am"));
        v.push(String::from_str(msg));
        proof {
            assert(v.deep_view() =~= seq!["commit"@, "-am"@, msg@]);
        }
        v
    }

    /// A diff command reports uncommitted changes exactly when it
    /// produced output bytes.
    pub fn has_diff_outcome(&self, stdout: &Vec<u8>) -> (r: bool)
        ensures
            r == (stdout@.len() > 0),
    {
        stdout.len() > 0
    }

    /// Decides a commit's outcome from its exit status and captured
    /// streams: an exit failure whose output carries the "nothing to
    /// commit" sentinel is an idempotent no-op, not an error.
    pub fn commit_outcome(&self, exit_success: bool, stdout: &str, stderr: &str) -> (r: Result<
        (),
        BumpError,
    >)
        ensures
            r is Ok <==> git_commit_ok(exit_success, stdout@),
            r is Err ==> (r->Err_0 matches BumpError::Process(m) && m@ == git_commit_error(
                stdout@,
                stderr@,
            )),
    {
        if exit_success {
            Ok(())
        } else if str_contains(str_trim(stdout), "nothing to commit") {
            Ok(())
        } else {
            let mut m = String::from_str("git commit returned an error: ");
            m.append(stdout);
            m.append(" ");
            m.append(stderr);
            proof {
                assert(m@ =~= git_commit_error(stdout@, stderr@));
            }
            Err(BumpError::Process(m))
        }
    }
}

/// Committing twice with no intervening changes succeeds both times: the
/// first invocation exits successfully, and the second, left with nothing
/// to commit, exits non-zero but reports the sentinel, which
/// [`Git::commit_outcome`] reads as success rather than an error.
pub proof fn lemma_git_commit_idempotent(first_out: Seq<char>, second_out: Seq<char>)
    requires
        contains_seq(trimmed(second_out), "nothing to commit"@),
    ensures
        git_commit_ok(true, first_out),
        git_commit_ok(false, second_out),
{
}

} // verus!
