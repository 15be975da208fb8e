//! The authenticated user attached to a request once authorization succeeds.

use vstd::prelude::*;

verus! {

/// Authenticated user: the external subject id together with the internal
/// user id, plus authentication-time hints from the verified claims.
#[derive(Debug, Clone)]
pub struct AuthUser {
    /// External subject id issued by the token issuer.
    pub clerk_id: String,
    /// Internal user id from the profile store.
    pub user_id: String,
    /// Email hint from the verified claims.
    pub email: Option<String>,
    /// Display-name hint from the verified claims.
    pub display_name: Option<String>,
}

impl AuthUser {
    /// A user with the two ids and no hints attached yet.
    pub fn new(clerk_id: String, user_id: String) -> (r: Self)
        ensures
            r.clerk_id == clerk_id,
            r.user_id == user_id,
            r.email is None,
            r.display_name is None,
    {
        Self { clerk_id, user_id, email: None, display_name: None }
    }

    /// The same user with the email hint replaced.
    pub fn with_email(self, email: Option<String>) -> (r: Self)
        ensures
            r.clerk_id == self.clerk_id,
            r.user_id == self.user_id,
            r.email == email,
            r.display_name == self.display_name,
    {
        Self { email, ..self }
    }

    /// The same user with the display-name hint replaced.
    pub fn with_display_name(self, display_name: Option<String>) -> (r: Self)
        ensures
            r.clerk_id == self.clerk_id,
            r.user_id == self.user_id,
            r.email == self.email,
            r.display_name == display_name,
    {
        Self { display_name, ..self }
    }
}

} // verus!
