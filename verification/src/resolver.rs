use vstd::prelude::*;

use crate::BumpError;

verus! {

/// The newest published version named by a registry metadata response:
/// the string under the response's crate object, when the body parses
/// as a JSON document that carries one. A function of the body alone.
pub uninterp spec fn registry_newest_version(body: Seq<char>) -> Option<Seq<char>>;

/// The commit identifier named by a history-host response: the string
/// under the response's sha field, when the body parses as a JSON
/// document that carries one. A function of the body alone.
pub uninterp spec fn history_commit_sha(body: Seq<char>) -> Option<Seq<char>>;

/// Relies on json::parse, JsonValue's Index<&str> impl and
/// JsonValue::as_str, all deterministic in the body: yields the string
/// under crate.newest_version, and nothing when the body is malformed
/// or the field is missing or not a string.
#[verifier::external_body]
fn registry_newest_version_raw(body: &str) -> (r: Option<String>)
    ensures
        r is Some <==> registry_newest_version(body@) is Some,
        r is Some ==> r->0@ == registry_newest_version(body@)->0,
{
    match json::parse(body) {
        Ok(v) => v["crate"]["newest_version"].as_str().map(|s| s.to_owned()),
        Err(_) => None,
    }
}

/// Relies on json::parse, JsonValue's Index<&str> impl and
/// JsonValue::as_str, all deterministic in the body: yields the string
/// under the sha field, and nothing when the body is malformed or the
/// field is missing or not a string.
#[verifier::external_body]
fn history_commit_sha_raw(body: &str) -> (r: Option<String>)
    ensures
        r is Some <==> history_commit_sha(body@) is Some,
        r is Some ==> r->0@ == history_commit_sha(body@)->0,
{
    match json::parse(body) {
        Ok(v) => v["sha"].as_str().map(|s| s.to_owned()),
        Err(_) => None,
    }
}

/// The registry metadata endpoint of the tracked dependency.
pub fn registry_url() -> (r: String)
    ensures
        r@ == "https://crates.io/api/v1/crates/cranelift-codegen"@,
{
    String::from_str("https://crates.io/api/v1/crates/cranelift-codegen")
}

/// The source-history endpoint of the tracked dependency's upstream
/// default branch head.
pub fn history_url() -> (r: String)
    ensures
        r@ == "https://api.github.com/repos/bytecodealliance/wasmtime/commits/HEAD"@,
{
    String::from_str("https://api.github.com/repos/bytecodealliance/wasmtime/commits/HEAD")
}

/// The newest published version named by the registry's metadata
/// response, exactly when [`registry_newest_version`] names one; a
/// malformed document or a missing or non-string field is a network
/// error.
pub fn extract_newest_version(body: &str) -> (r: Result<String, BumpError>)
    ensures
        r is Ok <==> registry_newest_version(body@) is Some,
        r is Ok ==> r->Ok_0@ == registry_newest_version(body@)->0,
        r is Err ==> r->Err_0 is Network,
{
    match registry_newest_version_raw(body) {
        Option::Some(version) => Result::Ok(version),
        Option::None => Result::Err(
            BumpError::Network(
                String::from_str(
                    "registry response is malformed or lacks a newest_version field",
                ),
            ),
        ),
    }
}

/// The commit identifier named by the history host's response for the
/// upstream default branch head, exactly when [`history_commit_sha`]
/// names one; a malformed document or a missing or non-string field is
/// a network error.
pub fn extract_commit_sha(body: &str) -> (r: Result<String, BumpError>)
    ensures
        r is Ok <==> history_commit_sha(body@) is Some,
        r is Ok ==> r->Ok_0@ == history_commit_sha(body@)->0,
        r is Err ==> r->Err_0 is Network,
{
    match history_commit_sha_raw(body) {
        Option::Some(sha) => Result::Ok(sha),
        Option::None => Result::Err(
            BumpError::Network(
                String::from_str("history response is malformed or lacks a sha field"),
            ),
        ),
    }
}

} // verus!
