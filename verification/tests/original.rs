use dsh_desktop::http::http_response_is_success;
use dsh_desktop::redact::redact_secret;
use dsh_desktop::validation::validate_api_key;

#[test]
fn validates_key_shape_without_requiring_prefix() {
    assert!(validate_api_key("sk-test-key").is_ok());
    assert!(validate_api_key("other-provider-token").is_ok());
    assert!(validate_api_key("").is_err());
    assert!(validate_api_key("has space").is_err());
}

#[test]
fn redact_does_not_echo_key() {
    assert_eq!(redact_secret("hello sk-secret", "sk-secret"), "hello ***");
}

#[test]
fn only_accepts_successful_http_boot_response() {
    assert!(http_response_is_success(b"HTTP/1.1 200 OK\r\n"));
    assert!(http_response_is_success(b"HTTP/1.1 204 No Content\r\n"));
    assert!(!http_response_is_success(b"HTTP/1.1 404 Not Found\r\n"));
    assert!(!http_response_is_success(b"not an http response"));
}
