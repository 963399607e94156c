use cranelift_bump::manifest::{
    nested_manifest_path, replace_commit_sha, replace_cranelift_version, toplevel_manifest_path,
    VersionSpec,
};

#[test]
fn nested_rewrite_fixed_version_example() {
    let content = "cranelift-codegen = { version = \"0.60.0\", default-features = false }";
    let out = replace_cranelift_version(content, &VersionSpec::Fixed("0.61.0".to_string()));
    assert_eq!(out, "cranelift-codegen = { version = \"0.61.0\", default-features = false }");
}

#[test]
fn nested_rewrite_companion_line_has_no_trailing_attribute() {
    let content = "cranelift-wasm = { version = \"0.60.0\" }";
    let out = replace_cranelift_version(content, &VersionSpec::Fixed("0.61.0".to_string()));
    assert_eq!(out, "cranelift-wasm = { version = \"0.61.0\" }");
}

#[test]
fn nested_rewrite_path_spec_points_at_subcrates() {
    let content = "cranelift-codegen = { version = \"0.60.0\", default-features = false }\n\
                   cranelift-wasm = { version = \"0.60.0\" }";
    let out =
        replace_cranelift_version(content, &VersionSpec::Path("/home/u/wasmtime/cranelift/".to_string()));
    assert_eq!(
        out,
        "cranelift-codegen = { path = \"/home/u/wasmtime/cranelift/codegen\", default-features = false }\n\
         cranelift-wasm = { path = \"/home/u/wasmtime/cranelift/wasm\" }"
    );
}

#[test]
fn nested_rewrite_keeps_unrelated_lines() {
    let content = "[dependencies]\nsmallvec = \"1.0\"\n\ncranelift-codegen = { version = \"0.1\" }\nlog = \"0.4\"";
    let out = replace_cranelift_version(content, &VersionSpec::Fixed("0.2".to_string()));
    assert_eq!(
        out,
        "[dependencies]\nsmallvec = \"1.0\"\n\ncranelift-codegen = { version = \"0.2\", default-features = false }\nlog = \"0.4\""
    );
}

#[test]
fn nested_rewrite_of_empty_content_is_empty() {
    let out = replace_cranelift_version("", &VersionSpec::Fixed("0.2".to_string()));
    assert_eq!(out, "");
}

#[test]
fn nested_rewrite_applied_twice_is_a_fixed_point() {
    let content = "intro\ncranelift-codegen = { version = \"0.60.0\", default-features = false }\ncranelift-wasm = { version = \"0.60.0\" }\noutro";
    let spec = VersionSpec::Fixed("0.61.0".to_string());
    let once = replace_cranelift_version(content, &spec);
    let twice = replace_cranelift_version(&once, &spec);
    assert_eq!(once, twice);
}

#[test]
fn nested_rewrite_path_applied_twice_is_a_fixed_point() {
    let content = "cranelift-codegen = { version = \"0.60.0\", default-features = false }";
    let spec = VersionSpec::Path("/tmp/checkout/cranelift/".to_string());
    let once = replace_cranelift_version(content, &spec);
    let twice = replace_cranelift_version(&once, &spec);
    assert_eq!(once, twice);
}

#[test]
fn top_rewrite_replaces_the_line_two_after_the_header() {
    let content = "[patch.crates-io.cranelift-codegen]\ngit = \"https://example.invalid/upstream\"\nrev = \"abcdef0\"";
    let out = replace_commit_sha(content, "1234567");
    assert_eq!(
        out,
        "[patch.crates-io.cranelift-codegen]\ngit = \"https://example.invalid/upstream\"\nrev = \"1234567\""
    );
}

#[test]
fn top_rewrite_ignores_similar_text_elsewhere() {
    let content = "rev = \"untouched\"\nsome = \"thing\"\n[patch.crates-io.cranelift-wasm]\ngit = \"u\"\nrev = \"old\"\ntail = 1";
    let out = replace_commit_sha(content, "fff");
    assert_eq!(
        out,
        "rev = \"untouched\"\nsome = \"thing\"\n[patch.crates-io.cranelift-wasm]\ngit = \"u\"\nrev = \"fff\"\ntail = 1"
    );
}

#[test]
fn top_rewrite_without_header_changes_nothing() {
    let content = "[dependencies]\nrev = \"abc\"\nrev = \"def\"";
    let out = replace_commit_sha(content, "fff");
    assert_eq!(out, content);
}

#[test]
fn top_rewrite_replaces_line_wholesale() {
    let content = "[patch.crates-io.cranelift-codegen]\na\nthis whole line goes away\nb";
    let out = replace_commit_sha(content, "99");
    assert_eq!(out, "[patch.crates-io.cranelift-codegen]\na\nrev = \"99\"\nb");
}

#[test]
fn top_rewrite_with_header_among_last_two_lines_changes_nothing() {
    let last = "a\nb\n[patch.crates-io.cranelift-codegen]";
    assert_eq!(replace_commit_sha(last, "fff"), last);
    let second_to_last = "a\n[patch.crates-io.cranelift-codegen]\ngit = \"u\"";
    assert_eq!(replace_commit_sha(second_to_last, "fff"), second_to_last);
}

#[test]
fn manifest_paths_hang_off_the_repository_root() {
    assert_eq!(
        nested_manifest_path("/repo/"),
        "/repo/js/src/wasm/cranelift/Cargo.toml"
    );
    assert_eq!(toplevel_manifest_path("/repo/"), "/repo/Cargo.toml");
}
