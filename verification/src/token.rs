//! Token verification: from a presented compact token to verified claims.
//!
//! A token is three `.`-separated base64url segments.  Verification parses
//! the header without trusting it, resolves the named key in the ring,
//! accepts exactly the RSA-SHA256 algorithm, checks the signature over the
//! first two segments, validates expiry against the supplied current time,
//! and only then reads the remaining claims.  The whole pipeline is a pure
//! function of the token, the ring and the current time.

use vstd::prelude::*;
use vstd::string::StringExecFns;
use base64::Engine;
use crate::errors::AuthError;
use crate::keyring::ClerkJwks;
use crate::keyring::VerificationKey;
use crate::keyring::ring_lookup;
use crate::text::split_chars;
use crate::text::split_str;

verus! {

/// The claims a verified token yields.  `sub` is the external subject id;
/// the audience claim is deliberately not validated, since the issuer's
/// token format does not populate a conventional one.
#[derive(Debug, Clone)]
pub struct ClerkClaims {
    /// External subject id.
    pub sub: String,
    /// Expiry, seconds since the epoch.
    pub exp: u64,
    /// Issued-at, seconds since the epoch.
    pub iat: u64,
    /// Issuer.
    pub iss: String,
    /// Authorized party.
    pub azp: String,
    /// Email, where the token carries one.
    pub email: Option<String>,
    /// Whether the email was verified by the issuer.
    pub email_verified: Option<bool>,
    /// Display name, where the token carries one.
    pub name: Option<String>,
    /// Given name, where the token carries one.
    pub given_name: Option<String>,
    /// Family name, where the token carries one.
    pub family_name: Option<String>,
}

/// What base64url decoding without padding yields for `s`: the decoded
/// bytes, or nothing where `s` is not valid base64url.
pub uninterp spec fn b64_url_decoded(s: Seq<char>) -> Option<Seq<u8>>;

/// The string field `key` of the JSON document `doc`: its characters, or
/// nothing where `doc` is not a JSON object or holds no string under `key`.
pub uninterp spec fn json_str_field_of(doc: Seq<u8>, key: Seq<char>) -> Option<Seq<char>>;

/// The unsigned-integer field `key` of the JSON document `doc`, or nothing
/// where `doc` is not a JSON object or holds no such number under `key`.
pub uninterp spec fn json_uint_field_of(doc: Seq<u8>, key: Seq<char>) -> Option<u64>;

/// The boolean field `key` of the JSON document `doc`, or nothing where
/// `doc` is not a JSON object or holds no boolean under `key`.
pub uninterp spec fn json_bool_field_of(doc: Seq<u8>, key: Seq<char>) -> Option<bool>;

/// Whether `signature` is a valid RSA-SHA256 signature over `message` under
/// the key with the given components; a function of its arguments alone.
pub uninterp spec fn rs256_sig_ok(
    message: Seq<char>,
    signature: Seq<char>,
    modulus: Seq<char>,
    exponent: Seq<char>,
) -> bool;

/// Relies on the base64 crate's `URL_SAFE_NO_PAD` engine: decoding is a
/// function of the input characters alone, succeeds exactly on valid
/// unpadded base64url, and yields the decoded bytes.
#[verifier::external_body]
fn b64_url_decode(s: &str) -> (r: Option<Vec<u8>>)
    ensures
        r is Some <==> b64_url_decoded(s@) is Some,
        r is Some ==> r.unwrap()@ == b64_url_decoded(s@).unwrap(),
{
    base64::engine::general_purpose::URL_SAFE_NO_PAD.decode(s).ok()
}

/// Relies on serde_json's `from_slice`, `Value::get` and `Value::as_str`:
/// what a JSON document holds under a key is a function of the document and
/// the key alone.
#[verifier::external_body]
fn json_str_field(doc: &[u8], key: &str) -> (r: Option<String>)
    ensures
        r is Some <==> json_str_field_of(doc@, key@) is Some,
        r is Some ==> r.unwrap()@ == json_str_field_of(doc@, key@).unwrap(),
{
    let v: serde_json::Value = serde_json::from_slice(doc).ok()?;
    Some(v.get(key)?.as_str()?.to_string())
}

/// Relies on serde_json's `from_slice`, `Value::get` and `Value::as_u64`:
/// what a JSON document holds under a key is a function of the document and
/// the key alone.
#[verifier::external_body]
fn json_uint_field(doc: &[u8], key: &str) -> (r: Option<u64>)
    ensures
        r == json_uint_field_of(doc@, key@),
{
    let v: serde_json::Value = serde_json::from_slice(doc).ok()?;
    v.get(key)?.as_u64()
}

/// Relies on serde_json's `from_slice`, `Value::get` and `Value::as_bool`:
/// what a JSON document holds under a key is a function of the document and
/// the key alone.
#[verifier::external_body]
fn json_bool_field(doc: &[u8], key: &str) -> (r: Option<bool>)
    ensures
        r == json_bool_field_of(doc@, key@),
{
    let v: serde_json::Value = serde_json::from_slice(doc).ok()?;
    v.get(key)?.as_bool()
}

/// Relies on jsonwebtoken's `DecodingKey::from_rsa_components` and
/// `crypto::verify` with `Algorithm::RS256`: RSA-SHA256 verification is a
/// function of the message, the signature and the key components alone.
#[verifier::external_body]
fn rs256_verify(message: &str, signature: &str, modulus: &str, exponent: &str) -> (r: bool)
    ensures
        r == rs256_sig_ok(message@, signature@, modulus@, exponent@),
{
    match jsonwebtoken::DecodingKey::from_rsa_components(modulus, exponent) {
        Ok(key) => jsonwebtoken::crypto::verify(
            signature,
            message.as_bytes(),
            &key,
            jsonwebtoken::Algorithm::RS256,
        ).unwrap_or(false),
        Err(_) => false,
    }
}

/// The signing input of a token: its first two segments joined by `.`.
pub open spec fn signing_input(token: Seq<char>) -> Seq<char> {
    split_chars(token, '.')[0] + seq!['.'] + split_chars(token, '.')[1]
}

/// The decoded payload segment of a token.
pub open spec fn payload_doc(token: Seq<char>) -> Option<Seq<u8>> {
    b64_url_decoded(split_chars(token, '.')[1])
}

/// Whether `c` is exactly what the payload document `doc` holds: each
/// required claim field equal, each optional field present exactly where
/// the document holds it.
pub open spec fn claims_match_doc(c: ClerkClaims, doc: Seq<u8>) -> bool {
    &&& json_str_field_of(doc, "sub"@) == Some(c.sub@)
    &&& json_uint_field_of(doc, "exp"@) == Some(c.exp)
    &&& json_uint_field_of(doc, "iat"@) == Some(c.iat)
    &&& json_str_field_of(doc, "iss"@) == Some(c.iss@)
    &&& json_str_field_of(doc, "azp"@) == Some(c.azp@)
    &&& match c.email {
        Some(s) => json_str_field_of(doc, "email"@) == Some(s@),
        None => json_str_field_of(doc, "email"@) is None,
    }
    &&& json_bool_field_of(doc, "email_verified"@) == c.email_verified
    &&& match c.name {
        Some(s) => json_str_field_of(doc, "name"@) == Some(s@),
        None => json_str_field_of(doc, "name"@) is None,
    }
    &&& match c.given_name {
        Some(s) => json_str_field_of(doc, "given_name"@) == Some(s@),
        None => json_str_field_of(doc, "given_name"@) is None,
    }
    &&& match c.family_name {
        Some(s) => json_str_field_of(doc, "family_name"@) == Some(s@),
        None => json_str_field_of(doc, "family_name"@) is None,
    }
}

/// The error a verification of `token` against `ring` at time `now` stops
/// with, or nothing where verification succeeds.  The stages in order:
/// token shape and header parse (`MalformedToken`), key id presence
/// (`MissingKeyId`), key resolution (`UnknownKeyId`), algorithm and
/// signature (`SignatureInvalid`), expiry (`TokenExpired`), and the shape
/// of the remaining claims (`ClaimDecodeError`).
pub open spec fn verify_outcome(
    ring: Seq<VerificationKey>,
    token: Seq<char>,
    now: u64,
) -> Option<AuthError> {
    let segs = split_chars(token, '.');
    if segs.len() != 3 {
        Some(AuthError::MalformedToken)
    } else {
        match b64_url_decoded(segs[0]) {
            Option::None => Some(AuthError::MalformedToken),
            Option::Some(header) => {
                if json_str_field_of(header, "alg"@) is None {
                    Some(AuthError::MalformedToken)
                } else {
                    match json_str_field_of(header, "kid"@) {
                        Option::None => Some(AuthError::MissingKeyId),
                        Option::Some(kid) => match ring_lookup(ring, kid) {
                            Option::None => Some(AuthError::UnknownKeyId),
                            Option::Some(key) => {
                                if json_str_field_of(header, "alg"@) != Some("RS256"@) {
                                    Some(AuthError::SignatureInvalid)
                                } else if !rs256_sig_ok(
                                    signing_input(token),
                                    segs[2],
                                    key.modulus@,
                                    key.exponent@,
                                ) {
                                    Some(AuthError::SignatureInvalid)
                                } else {
                                    match b64_url_decoded(segs[1]) {
                                        Option::None => Some(AuthError::ClaimDecodeError),
                                        Option::Some(payload) => match json_uint_field_of(
                                            payload,
                                            "exp"@,
                                        ) {
                                            Option::None => Some(AuthError::ClaimDecodeError),
                                            Option::Some(exp) => if exp < now {
                                                Some(AuthError::TokenExpired)
                                            } else if json_str_field_of(payload, "sub"@) is None
                                                || json_uint_field_of(payload, "iat"@) is None
                                                || json_str_field_of(payload, "iss"@) is None
                                                || json_str_field_of(payload, "azp"@) is None {
                                                Some(AuthError::ClaimDecodeError)
                                            } else {
                                                None
                                            },
                                        },
                                    }
                                }
                            },
                        },
                    }
                }
            },
        }
    }
}

/// The decoded header segment of a token.
pub open spec fn header_doc(token: Seq<char>) -> Option<Seq<u8>> {
    b64_url_decoded(split_chars(token, '.')[0])
}

/// A token whose header names a key the ring does not hold fails with
/// `UnknownKeyId`, whatever its payload or signature.
pub proof fn lemma_unknown_key_rejected(ring: Seq<VerificationKey>, token: Seq<char>, now: u64)
    requires
        split_chars(token, '.').len() == 3,
        header_doc(token) is Some,
        json_str_field_of(header_doc(token).unwrap(), "alg"@) is Some,
        json_str_field_of(header_doc(token).unwrap(), "kid"@) is Some,
        ring_lookup(ring, json_str_field_of(header_doc(token).unwrap(), "kid"@).unwrap()) is None,
    ensures
        verify_outcome(ring, token, now) == Some(AuthError::UnknownKeyId),
{
}

/// A token whose header claims any algorithm other than RSA-SHA256 is
/// rejected as `SignatureInvalid`, whatever its payload holds.
pub proof fn lemma_algorithm_confusion_rejected(
    ring: Seq<VerificationKey>,
    token: Seq<char>,
    now: u64,
)
    requires
        split_chars(token, '.').len() == 3,
        header_doc(token) is Some,
        json_str_field_of(header_doc(token).unwrap(), "alg"@) is Some,
        json_str_field_of(header_doc(token).unwrap(), "alg"@) != Some("RS256"@),
        json_str_field_of(header_doc(token).unwrap(), "kid"@) is Some,
        ring_lookup(ring, json_str_field_of(header_doc(token).unwrap(), "kid"@).unwrap()) is Some,
    ensures
        verify_outcome(ring, token, now) == Some(AuthError::SignatureInvalid),
{
}

/// A token past its expiry fails with `TokenExpired`, even where its
/// signature is valid under the named key.
pub proof fn lemma_expired_rejected(ring: Seq<VerificationKey>, token: Seq<char>, now: u64)
    requires
        split_chars(token, '.').len() == 3,
        header_doc(token) is Some,
        json_str_field_of(header_doc(token).unwrap(), "alg"@) == Some("RS256"@),
        json_str_field_of(header_doc(token).unwrap(), "kid"@) is Some,
        ring_lookup(ring, json_str_field_of(header_doc(token).unwrap(), "kid"@).unwrap()) is Some,
        rs256_sig_ok(
            signing_input(token),
            split_chars(token, '.')[2],
            ring_lookup(
                ring,
                json_str_field_of(header_doc(token).unwrap(), "kid"@).unwrap(),
            ).unwrap().modulus@,
            ring_lookup(
                ring,
                json_str_field_of(header_doc(token).unwrap(), "kid"@).unwrap(),
            ).unwrap().exponent@,
        ),
        payload_doc(token) is Some,
        json_uint_field_of(payload_doc(token).unwrap(), "exp"@) is Some,
        json_uint_field_of(payload_doc(token).unwrap(), "exp"@).unwrap() < now,
    ensures
        verify_outcome(ring, token, now) == Some(AuthError::TokenExpired),
{
}

impl ClerkJwks {
    /// Verify a presented token against the ring at time `now` and extract
    /// its claims.  Pure: the result is a function of the token, the ring
    /// and `now`.
    pub fn verify_token(&self, token: &str, now: u64) -> (r: Result<ClerkClaims, AuthError>)
        ensures
            r is Err <==> verify_outcome(self.ring(), token@, now) is Some,
            r is Err ==> Some(r->Err_0) == verify_outcome(self.ring(), token@, now),
            r is Ok ==> payload_doc(token@) is Some && claims_match_doc(
                r->Ok_0,
                payload_doc(token@).unwrap(),
            ),
    {
        let parts = split_str(token, '.');
        proof {
            assert(parts@.map_values(|p: String| p@).len() == parts@.len());
            assert(forall|i: int|
                0 <= i < parts@.len() ==> parts@.map_values(|p: String| p@)[i] == parts@[i]@);
        }
        if parts.len() != 3 {
            return Err(AuthError::MalformedToken);
        }
        let header_bytes = match b64_url_decode(parts[0].as_str()) {
            Option::Some(b) => b,
            Option::None => {
                return Err(AuthError::MalformedToken);
            },
        };
        let alg = match json_str_field(header_bytes.as_slice(), "alg") {
            Option::Some(a) => a,
            Option::None => {
                return Err(AuthError::MalformedToken);
            },
        };
        let kid = match json_str_field(header_bytes.as_slice(), "kid") {
            Option::Some(k) => k,
            Option::None => {
                return Err(AuthError::MissingKeyId);
            },
        };
        let key = match self.lookup(&kid) {
            Option::Some(k) => k,
            Option::None => {
                return Err(AuthError::UnknownKeyId);
            },
        };
        if !(alg == "RS256".to_owned()) {
            return Err(AuthError::SignatureInvalid);
        }
        let mut message = parts[0].clone();
        message.append(".");
        message.append(parts[1].as_str());
        proof {
            reveal_strlit(".");
            assert("."@ =~= seq!['.']);
            assert(message@ =~= signing_input(token@));
        }
        if !rs256_verify(
            message.as_str(),
            parts[2].as_str(),
            key.modulus.as_str(),
            key.exponent.as_str(),
        ) {
            return Err(AuthError::SignatureInvalid);
        }
        let payload = match b64_url_decode(parts[1].as_str()) {
            Option::Some(b) => b,
            Option::None => {
                return Err(AuthError::ClaimDecodeError);
            },
        };
        let exp = match json_uint_field(payload.as_slice(), "exp") {
            Option::Some(e) => e,
            Option::None => {
                return Err(AuthError::ClaimDecodeError);
            },
        };
        if exp < now {
            return Err(AuthError::TokenExpired);
        }
        let sub = match json_str_field(payload.as_slice(), "sub") {
            Option::Some(s) => s,
            Option::None => {
                return Err(AuthError::ClaimDecodeError);
            },
        };
        let iat = match json_uint_field(payload.as_slice(), "iat") {
            Option::Some(v) => v,
            Option::None => {
                return Err(AuthError::ClaimDecodeError);
            },
        };
        let iss = match json_str_field(payload.as_slice(), "iss") {
            Option::Some(s) => s,
            Option::None => {
                return Err(AuthError::ClaimDecodeError);
            },
        };
        let azp = match json_str_field(payload.as_slice(), "azp") {
            Option::Some(s) => s,
            Option::None => {
                return Err(AuthError::ClaimDecodeError);
            },
        };
        let email = json_str_field(payload.as_slice(), "email");
        let email_verified = json_bool_field(payload.as_slice(), "email_verified");
        let name = json_str_field(payload.as_slice(), "name");
        let given_name = json_str_field(payload.as_slice(), "given_name");
        let family_name = json_str_field(payload.as_slice(), "family_name");
        Ok(
            ClerkClaims {
                sub,
                exp,
                iat,
                iss,
                azp,
                email,
                email_verified,
                name,
                given_name,
                family_name,
            },
        )
    }
}

} // verus!
