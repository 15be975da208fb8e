//! Key-source decoding and the text operations under it.

use cynnycty_auth::errors::AuthError;
use cynnycty_auth::source_key::decode_key_source;
use cynnycty_auth::source_key::jwks_url;
use cynnycty_auth::text::contains_str;
use cynnycty_auth::text::split_str;
use cynnycty_auth::text::trim_end_str;

#[test]
fn decodes_publishable_identifier_to_domain() {
    // aGVsbG8td29ybGQk is standard base64 of `hello-world$`; the trailing
    // `$` of the identifier and of the decoded domain are both stripped.
    let r = decode_key_source("pk_test_aGVsbG8td29ybGQk$");
    assert_eq!(r, Ok("hello-world".to_string()));
}

#[test]
fn too_few_segments_is_invalid_format() {
    assert_eq!(decode_key_source("pk"), Err(AuthError::InvalidIdentifierFormat));
    assert_eq!(decode_key_source("pk_test"), Err(AuthError::InvalidIdentifierFormat));
    assert_eq!(decode_key_source(""), Err(AuthError::InvalidIdentifierFormat));
}

#[test]
fn bad_base64_is_encoding_error() {
    assert_eq!(decode_key_source("pk_test_!!!"), Err(AuthError::EncodingError));
}

#[test]
fn non_utf8_decoding_is_encoding_error() {
    // `/w` is standard base64 of the single byte 0xFF, which is not UTF-8.
    assert_eq!(decode_key_source("pk_test_/w"), Err(AuthError::EncodingError));
}

#[test]
fn extra_segments_use_the_third() {
    // The third `_`-delimited segment is the payload; later segments are
    // not part of it.
    let r = decode_key_source("pk_live_aGVsbG8td29ybGQk_ZXh0cmE");
    assert_eq!(r, Ok("hello-world".to_string()));
}

#[test]
fn discovery_url_for_domain() {
    assert_eq!(
        jwks_url("hello-world"),
        "https://hello-world/.well-known/jwks.json".to_string()
    );
}

#[test]
fn split_on_delimiter() {
    let pieces = split_str("a_b_c", '_');
    assert_eq!(pieces, vec!["a".to_string(), "b".to_string(), "c".to_string()]);
}

#[test]
fn split_keeps_empty_pieces() {
    let pieces = split_str("a__b", '_');
    assert_eq!(pieces, vec!["a".to_string(), "".to_string(), "b".to_string()]);
    let pieces = split_str("", '_');
    assert_eq!(pieces, vec!["".to_string()]);
}

#[test]
fn trim_trailing_delimiters() {
    assert_eq!(trim_end_str("ab$$", '$'), "ab".to_string());
    assert_eq!(trim_end_str("ab", '$'), "ab".to_string());
    assert_eq!(trim_end_str("$$", '$'), "".to_string());
}

#[test]
fn substring_search() {
    assert!(contains_str("Type 'Profile' already exists", "already exists"));
    assert!(!contains_str("connection refused", "already exists"));
    assert!(contains_str("abc", ""));
    assert!(!contains_str("ab", "abc"));
}
