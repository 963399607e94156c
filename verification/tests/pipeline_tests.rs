use cranelift_bump::manifest::VersionSpec;
use cranelift_bump::pipeline::{
    action_of, advance, bump_commit_message, cranelift_dir, local_bump_commit_message,
    local_resolution, local_vendor_commit_message, patch_manifest_contents, remote_resolution,
    vendor_args, vendor_commit_message, vendor_program, PipelineAction, PipelineEvent,
    PipelineState, Resolution,
};
use cranelift_bump::BumpError;

#[test]
fn clean_tree_lets_the_pipeline_proceed() {
    let next = advance(PipelineState::CheckClean, PipelineEvent::DiffChecked(Ok(false)));
    assert!(matches!(next, PipelineState::ResolveVersionSpec));
    assert_eq!(action_of(&next), Some(PipelineAction::Resolve));
}

#[test]
fn dirty_tree_aborts_before_any_mutation() {
    let next = advance(PipelineState::CheckClean, PipelineEvent::DiffChecked(Ok(true)));
    match &next {
        PipelineState::Failed(BumpError::Precondition(m)) => {
            assert_eq!(
                m,
                "Diff isn't empty! aborting, please make sure the repository is clean before running this script"
            );
        }
        other => panic!("expected a precondition failure, got action {:?}", action_of(other)),
    }
    // A failed pipeline issues no further action: nothing is patched.
    assert_eq!(action_of(&next), None);
}

#[test]
fn failed_diff_check_aborts_with_the_reported_error() {
    let next = advance(
        PipelineState::CheckClean,
        PipelineEvent::DiffChecked(Err(BumpError::Process("Could not start git diff: enoent".to_string()))),
    );
    match next {
        PipelineState::Failed(BumpError::Process(m)) => {
            assert_eq!(m, "Could not start git diff: enoent");
        }
        _ => panic!("expected a process failure"),
    }
}

#[test]
fn successful_run_walks_every_stage_in_order() {
    let mut st = PipelineState::CheckClean;
    assert_eq!(action_of(&st), Some(PipelineAction::QueryDiff));
    st = advance(st, PipelineEvent::DiffChecked(Ok(false)));
    assert_eq!(action_of(&st), Some(PipelineAction::Resolve));
    let res = remote_resolution("0.61.0".to_string(), "1234567".to_string());
    st = advance(st, PipelineEvent::Resolved(Ok(res)));
    assert_eq!(action_of(&st), Some(PipelineAction::Patch));
    st = advance(st, PipelineEvent::Patched(Ok(())));
    assert_eq!(action_of(&st), Some(PipelineAction::Commit));
    st = advance(st, PipelineEvent::Committed(Ok(())));
    assert_eq!(action_of(&st), Some(PipelineAction::Vendor));
    st = advance(st, PipelineEvent::Vendored(Ok(())));
    assert_eq!(action_of(&st), Some(PipelineAction::Commit));
    st = advance(st, PipelineEvent::Committed(Ok(())));
    assert!(matches!(st, PipelineState::Done));
    assert_eq!(action_of(&st), None);
}

#[test]
fn vendor_failure_aborts_the_rest() {
    let st = advance(
        PipelineState::RunVendor,
        PipelineEvent::Vendored(Err(BumpError::Process("Error when running mach vendor rust".to_string()))),
    );
    match &st {
        PipelineState::Failed(BumpError::Process(m)) => {
            assert_eq!(m, "Error when running mach vendor rust");
        }
        _ => panic!("expected a process failure"),
    }
    assert_eq!(action_of(&st), None);
}

#[test]
fn patching_consumes_one_resolution_for_both_targets() {
    let nested = "cranelift-codegen = { version = \"0.60.0\", default-features = false }";
    let top = "[patch.crates-io.cranelift-codegen]\ngit = \"u\"\nrev = \"old\"";
    let res = remote_resolution("0.61.0".to_string(), "1234567".to_string());
    let (new_nested, new_top) = patch_manifest_contents(nested, top, &res);
    assert_eq!(new_nested, "cranelift-codegen = { version = \"0.61.0\", default-features = false }");
    assert_eq!(
        new_top.unwrap(),
        "[patch.crates-io.cranelift-codegen]\ngit = \"u\"\nrev = \"1234567\""
    );
}

#[test]
fn local_resolution_patches_no_pin() {
    let nested = "cranelift-wasm = { version = \"0.60.0\" }";
    let top = "[patch.crates-io.cranelift-codegen]\ngit = \"u\"\nrev = \"old\"";
    let res = local_resolution(cranelift_dir("/home/u/wasmtime/"));
    match &res {
        Resolution { version: VersionSpec::Path(p), rev: None } => {
            assert_eq!(p, "/home/u/wasmtime/cranelift/");
        }
        _ => panic!("expected a path resolution with no pin"),
    }
    let (new_nested, new_top) = patch_manifest_contents(nested, top, &res);
    assert_eq!(new_nested, "cranelift-wasm = { path = \"/home/u/wasmtime/cranelift/wasm\" }");
    assert!(new_top.is_none());
}

#[test]
fn commit_messages() {
    assert_eq!(bump_commit_message("1234567"), "Bug XXX - Bump Cranelift to 1234567; r?");
    assert_eq!(vendor_commit_message(), "Bug XXX - Output of mach vendor rust; r?");
    assert_eq!(local_bump_commit_message(), "No bug - do not check in - use local Cranelift");
    assert_eq!(
        local_vendor_commit_message(),
        "No bug - do not check in - result of mach vendor rust"
    );
}

#[test]
fn vendor_invocation_shape() {
    assert_eq!(vendor_program(), "./mach");
    assert_eq!(vendor_args(false), vec!["vendor".to_string(), "rust".to_string()]);
    assert_eq!(
        vendor_args(true),
        vec![
            "vendor".to_string(),
            "rust".to_string(),
            "--build-peers-said-large-imports-were-ok".to_string()
        ]
    );
}
