use cranelift_bump::testrun::{
    default_test_suite, jit_test_path, shell_args_arg, shell_path,
};
use cranelift_bump::text::{ensure_trailing_slash, str_contains, str_eq, str_starts_with, str_trim};

#[test]
fn trailing_slash_is_added_once() {
    assert_eq!(ensure_trailing_slash("/a/b"), "/a/b/");
    assert_eq!(ensure_trailing_slash("/a/b/"), "/a/b/");
    assert_eq!(ensure_trailing_slash(""), "/");
}

#[test]
fn trimming_strips_both_ends_only() {
    assert_eq!(str_trim("  a b \n"), "a b");
    assert_eq!(str_trim("abc"), "abc");
    assert_eq!(str_trim(" \t\r\n "), "");
    assert_eq!(str_trim(""), "");
}

#[test]
fn prefix_and_containment_checks() {
    assert!(str_starts_with("cranelift-codegen = 1", "cranelift-codegen ="));
    assert!(!str_starts_with("cranelift-wasm = 1", "cranelift-codegen ="));
    assert!(!str_starts_with("cr", "cranelift"));
    assert!(str_contains("nothing to commit, working tree clean", "nothing to commit"));
    assert!(!str_contains("2 files changed", "nothing to commit"));
    assert!(str_contains("abc", ""));
    assert!(str_eq("same", "same"));
    assert!(!str_eq("same", "sane"));
}

#[test]
fn test_harness_invocation_shape() {
    assert_eq!(shell_path("/build/dir/"), "/build/dir/dist/bin/js");
    assert_eq!(jit_test_path("/repo/"), "/repo/js/src/jit-test/jit_test.py");
    assert_eq!(
        shell_args_arg(),
        "--args \"--no-wasm-simd --shared-memory=off --wasm-compiler=cranelift\""
    );
    assert_eq!(default_test_suite(), "wasm");
}
