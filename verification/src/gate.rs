//! The request gate: the pipeline stage that sequences header extraction,
//! token verification and identity resolution, and either attaches the
//! resolved identity to the request or rejects it.
//!
//! `AuthGate` handling walks `Unauthenticated → HeaderExtracted → TokenVerified →
//! IdentityResolved → Authorized`, with `Rejected` reachable from every
//! non-terminal state.  Header extraction and token verification are pure;
//! identity resolution happens outside (it talks to the profile store), and
//! its outcome is fed back in.  Every verification failure is reported
//! uniformly as an unauthorized rejection, so that a caller cannot tell
//! which step failed; profile-store failures surface as an internal error.

use vstd::prelude::*;
use vstd::string::StrSliceExecFns;
use crate::errors::Rejection;
use crate::keyring::ClerkJwks;
use crate::token::ClerkClaims;
use crate::token::claims_match_doc;
use crate::token::payload_doc;
use crate::token::verify_outcome;
use crate::user::AuthUser;

verus! {

/// The authenticated user, as attached to the request context.
#[derive(Debug, Clone)]
pub struct AuthExtension(pub AuthUser);

/// Where handling of one request stands.
#[derive(Debug)]
pub enum GateState {
    /// Nothing examined yet.
    Unauthenticated,
    /// A bearer token was extracted from the `Authorization` header.
    HeaderExtracted { token: String },
    /// The token verified; its claims are held.
    TokenVerified { claims: ClerkClaims },
    /// The claims resolved to a local identity.
    IdentityResolved { user: AuthUser },
    /// The identity is attached; the request may proceed.
    Authorized { user: AuthUser },
    /// The request is turned away.
    Rejected { rejection: Rejection },
}

/// The token of an `Authorization` header of the literal form
/// `Bearer <token>`, or nothing where the header is absent or malformed.
pub open spec fn bearer_token_chars(header: Seq<char>) -> Option<Seq<char>> {
    if header.len() >= 7 && header.take(7) == "Bearer "@ {
        Some(header.skip(7))
    } else {
        None
    }
}

/// Strip the `Bearer ` prefix from an `Authorization` header.
pub fn strip_bearer(header: &str) -> (r: Option<String>)
    ensures
        r is Some <==> bearer_token_chars(header@) is Some,
        r is Some ==> r.unwrap()@ == bearer_token_chars(header@).unwrap(),
{
    let n = header.unicode_len();
    if n < 7 {
        return None;
    }
    let prefix = header.substring_char(0, 7).to_owned();
    if prefix == "Bearer ".to_owned() {
        Some(header.substring_char(7, n).to_owned())
    } else {
        None
    }
}

impl GateState {
    /// The starting state for a fresh request.
    pub fn start() -> (r: Self)
        ensures
            r is Unauthenticated,
    {
        GateState::Unauthenticated
    }

    /// Examine the `Authorization` header, if the request carries one.
    /// Handling advances exactly where the header has the literal form
    /// `Bearer <token>`; otherwise it rejects the request as unauthorized.
    pub fn on_header(self, header: Option<&str>) -> (r: Self)
        requires
            self is Unauthenticated,
        ensures
            match header {
                Some(h) => {
                    &&& bearer_token_chars(h@) is Some ==> r is HeaderExtracted
                        && r->HeaderExtracted_token@ == bearer_token_chars(h@).unwrap()
                    &&& bearer_token_chars(h@) is None ==> r is Rejected && r->rejection
                        == Rejection::Unauthorized
                },
                None => r is Rejected && r->rejection == Rejection::Unauthorized,
            },
    {
        match header {
            Some(h) => match strip_bearer(h) {
                Some(token) => GateState::HeaderExtracted { token },
                None => GateState::Rejected { rejection: Rejection::Unauthorized },
            },
            None => GateState::Rejected { rejection: Rejection::Unauthorized },
        }
    }

    /// Verify the extracted token against the ring at time `now`.  Any
    /// verifier failure rejects the request as unauthorized — which step
    /// failed is not exposed.
    pub fn on_verification(self, ring: &ClerkJwks, now: u64) -> (r: Self)
        requires
            self is HeaderExtracted,
        ensures
            verify_outcome(ring.ring(), self->HeaderExtracted_token@, now) is Some ==> r
                is Rejected && r->rejection == Rejection::Unauthorized,
            verify_outcome(ring.ring(), self->HeaderExtracted_token@, now) is None ==> r
                is TokenVerified && payload_doc(self->HeaderExtracted_token@) is Some
                && claims_match_doc(
                r->TokenVerified_claims,
                payload_doc(self->HeaderExtracted_token@).unwrap(),
            ),
    {
        match self {
            GateState::HeaderExtracted { token } => {
                match ring.verify_token(token.as_str(), now) {
                    Ok(claims) => GateState::TokenVerified { claims },
                    Err(_) => GateState::Rejected { rejection: Rejection::Unauthorized },
                }
            },
            _ => GateState::Rejected { rejection: Rejection::Unauthorized },
        }
    }

    /// Take the outcome of identity resolution in.  Success advances the
    /// gate; a profile-store failure rejects the request as an internal
    /// error, never as unauthorized.
    pub fn on_resolution(self, resolved: Result<AuthUser, crate::errors::AuthError>) -> (r: Self)
        requires
            self is TokenVerified,
        ensures
            resolved is Ok ==> r is IdentityResolved && r->IdentityResolved_user
                == resolved->Ok_0,
            resolved is Err ==> r is Rejected && r->rejection == Rejection::InternalError,
    {
        match resolved {
            Ok(user) => GateState::IdentityResolved { user },
            Err(_) => GateState::Rejected { rejection: Rejection::InternalError },
        }
    }

    /// Authorize the request: attach the resolved identity.  An authorized
    /// gate always carries the identity it resolved — by this transition,
    /// the only way to reach `Authorized`.
    pub fn authorize(self) -> (r: Self)
        requires
            self is IdentityResolved,
        ensures
            r is Authorized,
            r->Authorized_user == self->IdentityResolved_user,
    {
        match self {
            GateState::IdentityResolved { user } => GateState::Authorized { user },
            _ => GateState::Rejected { rejection: Rejection::Unauthorized },
        }
    }

    /// The attachment handed to downstream handlers.
    pub fn attachment(self) -> (r: AuthExtension)
        requires
            self is Authorized,
        ensures
            r.0 == self->Authorized_user,
    {
        match self {
            GateState::Authorized { user } => AuthExtension(user),
            _ => AuthExtension(
                AuthUser::new(String::new(), String::new()),
            ),
        }
    }
}

/// The pure prefix of request authentication in one call: extract the bearer token and
/// verify it.  The claims are answered exactly where the header is well
/// formed and the token verifies; every failure of either is the uniform
/// unauthorized rejection.
pub fn authenticate_request(header: Option<&str>, ring: &ClerkJwks, now: u64) -> (r: Result<
    ClerkClaims,
    Rejection,
>)
    ensures
        r is Ok <==> (header is Some && bearer_token_chars(header.unwrap()@) is Some
            && verify_outcome(
            ring.ring(),
            bearer_token_chars(header.unwrap()@).unwrap(),
            now,
        ) is None),
        r is Ok ==> claims_match_doc(
            r->Ok_0,
            payload_doc(bearer_token_chars(header.unwrap()@).unwrap()).unwrap(),
        ),
        r is Err ==> r->Err_0 == Rejection::Unauthorized,
    {
    let gate = GateState::start().on_header(header);
    match gate {
        GateState::HeaderExtracted { token } => {
            match ring.verify_token(token.as_str(), now) {
                Ok(claims) => Ok(claims),
                Err(_) => Err(Rejection::Unauthorized),
            }
        },
        _ => Err(Rejection::Unauthorized),
    }
}

} // verus!
