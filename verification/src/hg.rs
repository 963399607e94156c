use vstd::prelude::*;

use crate::text::{str_eq, str_trim, trimmed};
use crate::BumpError;

verus! {

/// The mercurial-like backend: its marker directory, the shapes of its
/// diff and commit commands, and the reading of their captured output.
pub struct HG;

/// A commit is a success when the process exited successfully, or when
/// its trimmed output is exactly the "nothing changed" sentinel.
pub open spec fn hg_commit_ok(exit_success: bool, stdout: Seq<char>) -> bool {
    exit_success || trimmed(stdout) == "nothing changed"@
}

/// The message reported when a commit fails for any other reason.
pub open spec fn hg_commit_error(stdout: Seq<char>, stderr: Seq<char>) -> Seq<char> {
    "hg commit returned an error: "@ + stdout + " "@ + stderr
}

impl HG {
    pub fn new() -> (r: HG) {
        HG
    }

    /// The marker directory whose presence directly under a path
    /// identifies a repository of this kind.
    pub fn marker_dir(&self) -> (r: String)
        ensures
            r@ == ".hg"@,
    {
        String::from_str(".hg")
    }

    /// The executable this backend invokes.
    pub fn program(&self) -> (r: String)
        ensures
            r@ == "hg"@,
    {
        String::from_str("hg")
    }

    /// The argument list of the diff command, which reports uncommitted
    /// changes by producing output.
    pub fn diff_args(&self) -> (r: Vec<String>)
        ensures
            r.deep_view() == seq!["diff"@],
    {
        let mut v: Vec<String> = Vec::new();
        v.push(String::from_str("diff"));
        proof {
            assert(v.deep_view() =~= seq!["diff"@]);
        }
        v
    }

    /// The argument list of the commit command, committing all tracked
    /// modifications under the given message.
    pub fn commit_args(&self, msg: &str) -> (r: Vec<String>)
        ensures
            r.deep_view() == seq!["commit"@, "-m"@, msg@],
    {
        let mut v: Vec<String> = Vec::new();
        v.push(String::from_str("commit"));
        v.push(String::from_str("-m"));
        v.push(String::from_str(msg));
        proof {
            assert(v.deep_view() =~= seq!["commit"@, "-m"@, msg@]);
        }
        v
    }

    /// A diff command reports uncommitted changes exactly when it
    /// produced output bytes.
    pub fn has_diff_outcome(&self, stdout: &Vec<u8>) -> (r: bool)
        ensures
            r == (stdout@.len() > 0),
    {
        stdout.len() > 0
    }

    /// Decides a commit's outcome from its exit status and captured
    /// streams: an exit failure whose trimmed output is the "nothing
    /// changed" sentinel is an idempotent no-op, not an error.
    pub fn commit_outcome(&self, exit_success: bool, stdout: &str, stderr: &str) -> (r: Result<
        (),
        BumpError,
    >)
        ensures
            r is Ok <==> hg_commit_ok(exit_success, stdout@),
            r is Err ==> (r->Err_0 matches BumpError::Process(m) && m@ == hg_commit_error(
                stdout@,
                stderr@,
            )),
    {
        if exit_success {
            Ok(())
        } else if str_eq(str_trim(stdout), "nothing changed") {
            Ok(())
        } else {
            let mut m = String::from_str("hg commit returned an error: ");
            m.append(stdout);
            m.append(" ");
            m.append(stderr);
            proof {
                assert(m@ =~= hg_commit_error(stdout@, stderr@));
            }
            Err(BumpError::Process(m))
        }
    }
}

/// Committing twice with no intervening changes succeeds both times: the
/// first invocation exits successfully, and the second, left with nothing
/// changed, exits non-zero but prints the sentinel, which
/// [`HG::commit_outcome`] reads as success rather than an error.
pub proof fn lemma_hg_commit_idempotent(first_out: Seq<char>, second_out: Seq<char>)
    requires
        trimmed(second_out) == "nothing changed"@,
    ensures
        hg_commit_ok(true, first_out),
        hg_commit_ok(false, second_out),
{
}

} // verus!
