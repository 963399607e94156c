use cranelift_bump::resolver::{
    extract_commit_sha, extract_newest_version, history_url, registry_url,
};
use cranelift_bump::BumpError;

#[test]
fn newest_version_is_read_from_the_registry_response() {
    let body = "{\"crate\":{\"id\":\"cranelift-codegen\",\"newest_version\":\"0.61.0\"}}";
    assert_eq!(extract_newest_version(body).unwrap(), "0.61.0");
}

#[test]
fn malformed_registry_response_is_a_network_error() {
    let err = extract_newest_version("not json at all {").unwrap_err();
    assert!(matches!(err, BumpError::Network(_)));
}

#[test]
fn registry_response_without_the_field_is_a_network_error() {
    let err = extract_newest_version("{\"crate\":{}}").unwrap_err();
    assert!(matches!(err, BumpError::Network(_)));
    let err = extract_newest_version("{}").unwrap_err();
    assert!(matches!(err, BumpError::Network(_)));
}

#[test]
fn non_string_version_field_is_a_network_error() {
    let err = extract_newest_version("{\"crate\":{\"newest_version\":3}}").unwrap_err();
    assert!(matches!(err, BumpError::Network(_)));
}

#[test]
fn commit_sha_is_read_from_the_history_response() {
    let body = "{\"sha\":\"1234567deadbeef\",\"commit\":{}}";
    assert_eq!(extract_commit_sha(body).unwrap(), "1234567deadbeef");
}

#[test]
fn history_response_without_a_sha_is_a_network_error() {
    let err = extract_commit_sha("{\"commit\":{}}").unwrap_err();
    assert!(matches!(err, BumpError::Network(_)));
    let err = extract_commit_sha("[1,2]").unwrap_err();
    assert!(matches!(err, BumpError::Network(_)));
}

#[test]
fn endpoints() {
    assert_eq!(registry_url(), "https://crates.io/api/v1/crates/cranelift-codegen");
    assert_eq!(
        history_url(),
        "https://api.github.com/repos/bytecodealliance/wasmtime/commits/HEAD"
    );
}
