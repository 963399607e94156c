use vstd::prelude::*;

use crate::manifest::{rewrite_nested, rewrite_top, replace_commit_sha, replace_cranelift_version,
    VersionSpec};
use crate::BumpError;

verus! {

/// The version spec together with the upstream commit identifier that
/// pins the override section; resolution produces it exactly once per
/// invocation, and one manifest-patching pass consumes it.
pub struct Resolution {
    /// Drives the nested-manifest rewrite.
    pub version: VersionSpec,
    /// Drives the top-level pin rewrite; absent when the workflow pins
    /// no commit (a local checkout).
    pub rev: Option<String>,
}

/// The states of the bump workflow, in the order a run traverses them.
/// A failure in any state moves to `Failed` and aborts the rest; there
/// is no rollback of edits or commits already applied.
pub enum PipelineState {
    /// Await the dirty-tree check; nothing has been touched yet.
    CheckClean,
    /// Await the version spec (from the registry and history host, or
    /// from a local path).
    ResolveVersionSpec,
    /// Await the manifest rewrite driven by the resolution.
    PatchManifests(Resolution),
    /// Await the commit of the manifest edit.
    CommitBump(Resolution),
    /// Await the external vendoring tool.
    RunVendor,
    /// Await the commit of the vendored tree.
    CommitVendor,
    /// The workflow finished.
    Done,
    /// The workflow aborted with this error.
    Failed(BumpError),
}

/// The outcome of the action a state awaits, reported back by the caller
/// that performed it.
pub enum PipelineEvent {
    /// Whether the working tree had uncommitted changes.
    DiffChecked(Result<bool, BumpError>),
    /// The resolved version spec and pin.
    Resolved(Result<Resolution, BumpError>),
    /// Whether both manifests were rewritten and written back.
    Patched(Result<(), BumpError>),
    /// Whether a commit succeeded (a no-op commit counts as success).
    Committed(Result<(), BumpError>),
    /// Whether the vendoring tool succeeded.
    Vendored(Result<(), BumpError>),
}

/// What the caller must do next in a given state.
#[derive(Clone, Copy, PartialEq, Eq, Structural, Debug)]
pub enum PipelineAction {
    /// Run the backend's diff command.
    QueryDiff,
    /// Produce a resolution.
    Resolve,
    /// Rewrite the manifests.
    Patch,
    /// Run the backend's commit command.
    Commit,
    /// Run the vendoring tool.
    Vendor,
}

/// The message of the precondition failure raised by a dirty tree.
pub open spec fn dirty_tree_message() -> Seq<char> {
    "Diff isn't empty! aborting, please make sure the repository is clean before running this script"@
}

/// The action each state awaits. Terminal states await none: in
/// particular a failed pipeline never issues another action, so nothing
/// is patched or committed after a failure.
pub open spec fn spec_action(s: &PipelineState) -> Option<PipelineAction> {
    match s {
        PipelineState::CheckClean => Option::Some(PipelineAction::QueryDiff),
        PipelineState::ResolveVersionSpec => Option::Some(PipelineAction::Resolve),
        PipelineState::PatchManifests(_) => Option::Some(PipelineAction::Patch),
        PipelineState::CommitBump(_) => Option::Some(PipelineAction::Commit),
        PipelineState::RunVendor => Option::Some(PipelineAction::Vendor),
        PipelineState::CommitVendor => Option::Some(PipelineAction::Commit),
        PipelineState::Done => Option::None,
        PipelineState::Failed(_) => Option::None,
    }
}

/// The transition relation of the workflow: each state consumes the
/// outcome of its own action; a reported error moves to `Failed`; an
/// outcome that does not answer the state's action changes nothing. The
/// relation pins `next` exactly, up to the identity of the freshly built
/// dirty-tree message, whose text it also fixes.
pub open spec fn spec_advance(s: PipelineState, ev: PipelineEvent, next: PipelineState) -> bool {
    match (s, ev) {
        (PipelineState::CheckClean, PipelineEvent::DiffChecked(outcome)) => match outcome {
            Result::Ok(dirty) => if dirty {
                next matches PipelineState::Failed(err) && err matches BumpError::Precondition(m)
                    && m@ == dirty_tree_message()
            } else {
                next == PipelineState::ResolveVersionSpec
            },
            Result::Err(e) => next == PipelineState::Failed(e),
        },
        (PipelineState::ResolveVersionSpec, PipelineEvent::Resolved(outcome)) => match outcome {
            Result::Ok(r) => next == PipelineState::PatchManifests(r),
            Result::Err(e) => next == PipelineState::Failed(e),
        },
        (PipelineState::PatchManifests(r), PipelineEvent::Patched(outcome)) => match outcome {
            Result::Ok(_) => next == PipelineState::CommitBump(r),
            Result::Err(e) => next == PipelineState::Failed(e),
        },
        (PipelineState::CommitBump(_), PipelineEvent::Committed(outcome)) => match outcome {
            Result::Ok(_) => next == PipelineState::RunVendor,
            Result::Err(e) => next == PipelineState::Failed(e),
        },
        (PipelineState::RunVendor, PipelineEvent::Vendored(outcome)) => match outcome {
            Result::Ok(_) => next == PipelineState::CommitVendor,
            Result::Err(e) => next == PipelineState::Failed(e),
        },
        (PipelineState::CommitVendor, PipelineEvent::Committed(outcome)) => match outcome {
            Result::Ok(_) => next == PipelineState::Done,
            Result::Err(e) => next == PipelineState::Failed(e),
        },
        (other, _) => next == other,
    }
}

/// The action the given state awaits, as [`spec_action`] describes.
pub fn action_of(s: &PipelineState) -> (r: Option<PipelineAction>)
    ensures
        r == spec_action(s),
{
    match s {
        PipelineState::CheckClean => Option::Some(PipelineAction::QueryDiff),
        PipelineState::ResolveVersionSpec => Option::Some(PipelineAction::Resolve),
        PipelineState::PatchManifests(_) => Option::Some(PipelineAction::Patch),
        PipelineState::CommitBump(_) => Option::Some(PipelineAction::Commit),
        PipelineState::RunVendor => Option::Some(PipelineAction::Vendor),
        PipelineState::CommitVendor => Option::Some(PipelineAction::Commit),
        PipelineState::Done => Option::None,
        PipelineState::Failed(_) => Option::None,
    }
}

/// Advances the workflow by one reported outcome, as [`spec_advance`]
/// describes.
pub fn advance(s: PipelineState, ev: PipelineEvent) -> (next: PipelineState)
    ensures
        spec_advance(s, ev, next),
{
    match (s, ev) {
        (PipelineState::CheckClean, PipelineEvent::DiffChecked(outcome)) => match outcome {
            Result::Ok(dirty) => if dirty {
                PipelineState::Failed(
                    BumpError::Precondition(
                        String::from_str(
                            "Diff isn't empty! aborting, please make sure the repository is clean before running this script",
                        ),
                    ),
                )
            } else {
                PipelineState::ResolveVersionSpec
            },
            Result::Err(e) => PipelineState::Failed(e),
        },
        (PipelineState::ResolveVersionSpec, PipelineEvent::Resolved(outcome)) => match outcome {
            Result::Ok(r) => PipelineState::PatchManifests(r),
            Result::Err(e) => PipelineState::Failed(e),
        },
        (PipelineState::PatchManifests(r), PipelineEvent::Patched(outcome)) => match outcome {
            Result::Ok(_) => PipelineState::CommitBump(r),
            Result::Err(e) => PipelineState::Failed(e),
        },
        (PipelineState::CommitBump(r), PipelineEvent::Committed(outcome)) => match outcome {
            Result::Ok(_) => PipelineState::RunVendor,
            Result::Err(e) => PipelineState::Failed(e),
        },
        (PipelineState::RunVendor, PipelineEvent::Vendored(outcome)) => match outcome {
            Result::Ok(_) => PipelineState::CommitVendor,
            Result::Err(e) => PipelineState::Failed(e),
        },
        (PipelineState::CommitVendor, PipelineEvent::Committed(outcome)) => match outcome {
            Result::Ok(_) => PipelineState::Done,
            Result::Err(e) => PipelineState::Failed(e),
        },
        (other, _) => other,
    }
}

/// A clean tree lets the workflow proceed to resolution; a dirty tree or
/// a failed check aborts it at once, and once failed the pipeline issues
/// no further action, so no manifest is ever touched: the only action a
/// run issues before the clean check answers is the diff query itself.
pub proof fn lemma_check_clean_guards_mutation(
    next_clean: PipelineState,
    next_dirty: PipelineState,
    e: BumpError,
    next_err: PipelineState,
)
    requires
        spec_advance(
            PipelineState::CheckClean,
            PipelineEvent::DiffChecked(Result::Ok(false)),
            next_clean,
        ),
        spec_advance(
            PipelineState::CheckClean,
            PipelineEvent::DiffChecked(Result::Ok(true)),
            next_dirty,
        ),
        spec_advance(
            PipelineState::CheckClean,
            PipelineEvent::DiffChecked(Result::Err(e)),
            next_err,
        ),
    ensures
        next_clean == PipelineState::ResolveVersionSpec,
        next_dirty matches PipelineState::Failed(err) && err matches BumpError::Precondition(m)
            && m@ == dirty_tree_message(),
        next_err == PipelineState::Failed(e),
        forall|s: PipelineState| s is Failed ==> spec_action(&s) is None,
        spec_action(&PipelineState::CheckClean) == Option::Some(PipelineAction::QueryDiff),
{
}

/// Rewrites both manifest contents for one resolution: the nested
/// manifest always, under the resolution's version spec; the top-level
/// pin manifest only when a commit identifier was resolved. Both
/// rewrites consume the same resolution, read in one pass each.
pub fn patch_manifest_contents(nested: &str, toplevel: &str, res: &Resolution) -> (r: (
    String,
    Option<String>,
))
    ensures
        r.0@ == rewrite_nested(nested@, &res.version),
        match res.rev {
            Option::Some(sha) => r.1 matches Option::Some(t) && t@ == rewrite_top(
                toplevel@,
                sha@,
            ),
            Option::None => r.1 is None,
        },
{
    let new_nested = replace_cranelift_version(nested, &res.version);
    let new_top = match &res.rev {
        Option::Some(sha) => Option::Some(replace_commit_sha(toplevel, sha.as_str())),
        Option::None => Option::None,
    };
    (new_nested, new_top)
}

/// The resolution of the `local` workflow: point the nested manifest at
/// a local checkout, pin nothing.
pub fn local_resolution(cranelift_path: String) -> (r: Resolution)
    ensures
        r.version matches VersionSpec::Path(p) && p@ == cranelift_path@,
        r.rev is None,
{
    Resolution { version: VersionSpec::Path(cranelift_path), rev: Option::None }
}

/// The resolution of the `bump` workflow: a published version for the
/// nested manifest and an upstream commit for the pin.
pub fn remote_resolution(version: String, rev: String) -> (r: Resolution)
    ensures
        r.version matches VersionSpec::Fixed(v) && v@ == version@,
        r.rev matches Option::Some(s) && s@ == rev@,
{
    Resolution { version: VersionSpec::Fixed(version), rev: Option::Some(rev) }
}

/// The dependency checkout directory under a local upstream checkout;
/// the path must already carry its trailing slash.
pub fn cranelift_dir(wasmtime_dir: &str) -> (r: String)
    ensures
        r@ == wasmtime_dir@ + "cranelift/"@,
{
    let mut s = String::from_str(wasmtime_dir);
    s.append("cranelift/");
    s
}

/// The commit message of the manifest edit in the `bump` workflow.
pub fn bump_commit_message(rev: &str) -> (r: String)
    ensures
        r@ == "Bug XXX - Bump Cranelift to "@ + rev@ + "; r?"@,
{
    let mut s = String::from_str("Bug XXX - Bump Cranelift to ");
    s.append(rev);
    s.append("; r?");
    s
}

/// The commit message of the vendored tree in the `bump` workflow.
pub fn vendor_commit_message() -> (r: String)
    ensures
        r@ == "Bug XXX - Output of mach vendor rust; r?"@,
{
    String::from_str("Bug XXX - Output of mach vendor rust; r?")
}

/// The commit message of the manifest edit in the `local` workflow.
pub fn local_bump_commit_message() -> (r: String)
    ensures
        r@ == "No bug - do not check in - use local Cranelift"@,
{
    String::from_str("No bug - do not check in - use local Cranelift")
}

/// The commit message of the vendored tree in the `local` workflow.
pub fn local_vendor_commit_message() -> (r: String)
    ensures
        r@ == "No bug - do not check in - result of mach vendor rust"@,
{
    String::from_str("No bug - do not check in - result of mach vendor rust")
}

/// The vendoring tool's program path, run from the repository root.
pub fn vendor_program() -> (r: String)
    ensures
        r@ == "./mach"@,
{
    String::from_str("./mach")
}

/// The vendoring tool's argument list, with the flag that allows
/// unusually large imports when the caller asked for it.
pub fn vendor_args(allow_large: bool) -> (r: Vec<String>)
    ensures
        allow_large ==> r.deep_view() == seq![
            "vendor"@,
            "rust"@,
            "--build-peers-said-large-imports-were-ok"@,
        ],
        !allow_large ==> r.deep_view() == seq!["vendor"@, "rust"@],
{
    let mut v: Vec<String> = Vec::new();
    v.push(String::from_str("vendor"));
    v.push(String::from_str("rust"));
    if allow_large {
        v.push(String::from_str("--build-peers-said-large-imports-were-ok"));
        proof {
            assert(v.deep_view() =~= seq![
                "vendor"@,
                "rust"@,
                "--build-peers-said-large-imports-were-ok"@,
            ]);
        }
    } else {
        proof {
            assert(v.deep_view() =~= seq!["vendor"@, "rust"@]);
        }
    }
    v
}

} // verus!
