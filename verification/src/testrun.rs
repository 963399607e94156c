use vstd::prelude::*;

verus! {

/// The flags handed to the engine shell so the tests exercise the
/// vendored compiler backend.
pub fn cranelift_shell_args() -> (r: String)
    ensures
        r@ == "--no-wasm-simd --shared-memory=off --wasm-compiler=cranelift"@,
{
    String::from_str("--no-wasm-simd --shared-memory=off --wasm-compiler=cranelift")
}

/// The shell-selection argument handed to the test harness, quoting the
/// fixed backend flags.
pub fn shell_args_arg() -> (r: String)
    ensures
        r@ == "--args \""@ + "--no-wasm-simd --shared-memory=off --wasm-compiler=cranelift"@
            + "\""@,
{
    let mut s = String::from_str("--args \"");
    s.append(cranelift_shell_args().as_str());
    s.append("\"");
    s
}

/// The compiled shell under a build directory; the directory path must
/// already carry its trailing slash.
pub fn shell_path(build_dir: &str) -> (r: String)
    ensures
        r@ == build_dir@ + "dist/bin/js"@,
{
    let mut s = String::from_str(build_dir);
    s.append("dist/bin/js");
    s
}

/// The test-harness entry point under a repository; the directory path
/// must already carry its trailing slash.
pub fn jit_test_path(repo_dir: &str) -> (r: String)
    ensures
        r@ == repo_dir@ + "js/src/jit-test/jit_test.py"@,
{
    let mut s = String::from_str(repo_dir);
    s.append("js/src/jit-test/jit_test.py");
    s
}

/// The test category run when the caller names none.
pub fn default_test_suite() -> (r: String)
    ensures
        r@ == "wasm"@,
{
    String::from_str("wasm")
}

} // verus!
