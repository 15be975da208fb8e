//! Key-source decoding: from the opaque publishable identifier of the form
//! `prefix_environment_payload` to the domain of the key-discovery endpoint.
//!
//! The identifier is split on `_`; the third segment, with trailing `$`
//! delimiters stripped, is decoded as standard base64 without padding into a
//! domain name, which itself has trailing `$` delimiters stripped.

use vstd::prelude::*;
use vstd::string::StrSliceExecFns;
use vstd::string::StringExecFns;
use vstd::utf8::decode_utf8;
use vstd::utf8::valid_utf8;
use base64::Engine;
use crate::errors::AuthError;
use crate::text::split_chars;
use crate::text::split_str;
use crate::text::trim_end_chars;
use crate::text::trim_end_str;

verus! {

/// What base64 decoding with the standard alphabet and no padding yields
/// for `s`: the decoded bytes, or nothing where `s` is not valid base64.
pub uninterp spec fn b64_standard_decoded(s: Seq<char>) -> Option<Seq<u8>>;

/// Relies on the base64 crate's `STANDARD_NO_PAD` engine: decoding is a
/// function of the input characters alone, succeeds exactly on valid
/// unpadded standard base64, and yields the decoded bytes.
#[verifier::external_body]
fn b64_standard_decode(s: &str) -> (r: Option<Vec<u8>>)
    ensures
        r is Some <==> b64_standard_decoded(s@) is Some,
        r is Some ==> r.unwrap()@ == b64_standard_decoded(s@).unwrap(),
{
    base64::engine::general_purpose::STANDARD_NO_PAD.decode(s).ok()
}

/// Relies on `String::from_utf8`: it succeeds exactly on valid UTF-8 and
/// yields its decoding.
#[verifier::external_body]
fn string_from_utf8(v: Vec<u8>) -> (r: Option<String>)
    ensures
        r is Some <==> valid_utf8(v@),
        r is Some ==> r.unwrap()@ == decode_utf8(v@),
{
    String::from_utf8(v).ok()
}

/// The domain a publishable identifier decodes to, or the exact error:
/// `InvalidIdentifierFormat` where fewer than three `_`-delimited segments
/// exist, `EncodingError` where the payload segment is not valid base64 or
/// its decoding is not valid UTF-8.
pub open spec fn decoded_domain(key: Seq<char>) -> Result<Seq<char>, AuthError> {
    let parts = split_chars(key, '_');
    if parts.len() < 3 {
        Err(AuthError::InvalidIdentifierFormat)
    } else {
        match b64_standard_decoded(trim_end_chars(parts[2], '$')) {
            Option::None => Err(AuthError::EncodingError),
            Option::Some(bytes) => if valid_utf8(bytes) {
                Ok(trim_end_chars(decode_utf8(bytes), '$'))
            } else {
                Err(AuthError::EncodingError)
            },
        }
    }
}

/// Decode a publishable identifier to the key-discovery domain.
pub fn decode_key_source(publishable_key: &str) -> (r: Result<String, AuthError>)
    ensures
        r is Ok <==> decoded_domain(publishable_key@) is Ok,
        r is Ok ==> r->Ok_0@ == decoded_domain(publishable_key@)->Ok_0,
        r is Err ==> r->Err_0 == decoded_domain(publishable_key@)->Err_0,
{
    let parts = split_str(publishable_key, '_');
    proof {
        assert(parts@.map_values(|p: String| p@).len() == parts@.len());
    }
    if parts.len() < 3 {
        return Err(AuthError::InvalidIdentifierFormat);
    }
    proof {
        assert(parts@.map_values(|p: String| p@)[2] == parts@[2]@);
    }
    let encoded = trim_end_str(parts[2].as_str(), '$');
    match b64_standard_decode(encoded.as_str()) {
        Option::None => Err(AuthError::EncodingError),
        Option::Some(bytes) => {
            match string_from_utf8(bytes) {
                Option::None => Err(AuthError::EncodingError),
                Option::Some(decoded) => Ok(trim_end_str(decoded.as_str(), '$')),
            }
        },
    }
}

/// The key-discovery URL for a domain.
pub fn jwks_url(domain: &str) -> (r: String)
    ensures
        r@ == "https://"@ + domain@ + "/.well-known/jwks.json"@,
{
    let mut url = "https://".to_owned();
    url.append(domain);
    url.append("/.well-known/jwks.json");
    url
}

/// A decode never fails with any error other than `InvalidIdentifierFormat`
/// or `EncodingError`, and fails with `InvalidIdentifierFormat` exactly
/// where the identifier has fewer than three delimited segments.
pub proof fn lemma_decoded_domain_errors(key: Seq<char>)
    ensures
        decoded_domain(key) is Err ==> decoded_domain(key)->Err_0
            == AuthError::InvalidIdentifierFormat || decoded_domain(key)->Err_0
            == AuthError::EncodingError,
        decoded_domain(key) is Err && decoded_domain(key)->Err_0
            == AuthError::InvalidIdentifierFormat <==> split_chars(key, '_').len() < 3,
{
}

/// Trimming trailing `c` characters leaves the empty sequence exactly where
/// the sequence holds no other character.
pub proof fn lemma_trim_end_empty(s: Seq<char>, c: char)
    ensures
        trim_end_chars(s, c).len() == 0 <==> (forall|i: int| 0 <= i < s.len() ==> s[i] == c),
    decreases s.len(),
{
    if s.len() > 0 {
        if s.last() == c {
            lemma_trim_end_empty(s.drop_last(), c);
            assert(forall|i: int| 0 <= i < s.len() - 1 ==> s.drop_last()[i] == s[i]);
        } else {
            assert(s[s.len() - 1] != c);
        }
    }
}

/// Where the identifier has at least three delimited segments, the payload
/// decodes as base64 to valid UTF-8, and the decoding holds some character
/// other than the `$` delimiter, the decoder yields a non-empty domain.
pub proof fn lemma_decoded_domain_nonempty(key: Seq<char>)
    requires
        split_chars(key, '_').len() >= 3,
        b64_standard_decoded(trim_end_chars(split_chars(key, '_')[2], '$')) is Some,
        valid_utf8(b64_standard_decoded(trim_end_chars(split_chars(key, '_')[2], '$')).unwrap()),
        exists|i: int|
            0 <= i < decode_utf8(
                b64_standard_decoded(trim_end_chars(split_chars(key, '_')[2], '$')).unwrap(),
            ).len() && decode_utf8(
                b64_standard_decoded(trim_end_chars(split_chars(key, '_')[2], '$')).unwrap(),
            )[i] != '$',
    ensures
        decoded_domain(key) is Ok,
        decoded_domain(key)->Ok_0.len() > 0,
{
    let bytes = b64_standard_decoded(trim_end_chars(split_chars(key, '_')[2], '$')).unwrap();
    lemma_trim_end_empty(decode_utf8(bytes), '$');
}

} // verus!
