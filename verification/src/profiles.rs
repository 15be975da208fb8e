//! Profile endpoints' pure parts: shaping the current user's profile for a
//! response, and planning a field-level profile update.
//!
//! An update plan is a list of field assignments, kept as plain values so
//! that the caller can bind them as parameters of the store command — never
//! interpolated into the command text, which would be an injection hazard.

use vstd::prelude::*;
use crate::user::AuthUser;

verus! {

/// The current user's profile, as answered to the client.
#[derive(Debug, Clone)]
pub struct ProfileResponse {
    /// Internal user id.
    pub user_id: String,
    /// External subject id.
    pub clerk_id: String,
    /// Display name, where one is known.
    pub display_name: Option<String>,
    /// Email, where one is known.
    pub email: Option<String>,
}

/// A requested profile edit; absent fields are left untouched.
#[derive(Debug, Clone)]
pub struct UpdateProfileRequest {
    /// New display name, if requested.
    pub display_name: Option<String>,
    /// New about-me text, if requested.
    pub about_me: Option<String>,
    /// New avatar reference, if requested.
    pub avatar_url: Option<String>,
}

/// The answer to a profile edit.
#[derive(Debug, Clone)]
pub struct UpdateProfileResponse {
    /// Whether anything was updated.
    pub success: bool,
    /// A short account of what happened.
    pub message: String,
}

/// A profile field an update can touch.
#[derive(Debug, Clone, Copy, PartialEq, Eq, Structural)]
pub enum ProfileField {
    /// The display name.
    DisplayName,
    /// The about-me text.
    AboutMe,
    /// The avatar reference.
    AvatarUrl,
}

/// One planned assignment: a field and the value it is set to.
#[derive(Debug, Clone)]
pub struct FieldAssignment {
    /// The field to set.
    pub field: ProfileField,
    /// The value to bind as a command parameter.
    pub value: String,
}

/// The view of an optional string.
pub open spec fn opt_chars(o: Option<String>) -> Option<Seq<char>> {
    match o {
        Some(s) => Some(s@),
        None => None,
    }
}

/// The assignments an edit request asks for, in the fixed order display
/// name, about-me, avatar reference.
pub open spec fn planned_assignments(
    display_name: Option<Seq<char>>,
    about_me: Option<Seq<char>>,
    avatar_url: Option<Seq<char>>,
) -> Seq<(ProfileField, Seq<char>)> {
    (match display_name {
        Some(s) => seq![(ProfileField::DisplayName, s)],
        None => Seq::empty(),
    }) + (match about_me {
        Some(s) => seq![(ProfileField::AboutMe, s)],
        None => Seq::empty(),
    }) + (match avatar_url {
        Some(s) => seq![(ProfileField::AvatarUrl, s)],
        None => Seq::empty(),
    })
}

/// The profile response for an authenticated user: its fields, unchanged.
pub fn profile_response_of(user: AuthUser) -> (r: ProfileResponse)
    ensures
        r.user_id == user.user_id,
        r.clerk_id == user.clerk_id,
        r.display_name == user.display_name,
        r.email == user.email,
{
    ProfileResponse {
        user_id: user.user_id,
        clerk_id: user.clerk_id,
        display_name: user.display_name,
        email: user.email,
    }
}

/// Plan a profile edit: nothing where the request names no field, else the
/// exact list of assignments to bind as command parameters.
pub fn plan_profile_update(req: UpdateProfileRequest) -> (r: Option<Vec<FieldAssignment>>)
    ensures
        r is None <==> (req.display_name is None && req.about_me is None
            && req.avatar_url is None),
        r is Some ==> r.unwrap()@.map_values(|a: FieldAssignment| (a.field, a.value@))
            == planned_assignments(
            opt_chars(req.display_name),
            opt_chars(req.about_me),
            opt_chars(req.avatar_url),
        ),
{
    let mut assignments: Vec<FieldAssignment> = Vec::new();
    match req.display_name {
        Some(v) => {
            assignments.push(FieldAssignment { field: ProfileField::DisplayName, value: v });
        },
        None => {},
    }
    match req.about_me {
        Some(v) => {
            assignments.push(FieldAssignment { field: ProfileField::AboutMe, value: v });
        },
        None => {},
    }
    match req.avatar_url {
        Some(v) => {
            assignments.push(FieldAssignment { field: ProfileField::AvatarUrl, value: v });
        },
        None => {},
    }
    if assignments.len() == 0 {
        None
    } else {
        proof {
            assert(assignments@.map_values(|a: FieldAssignment| (a.field, a.value@))
                =~= planned_assignments(
                opt_chars(req.display_name),
                opt_chars(req.about_me),
                opt_chars(req.avatar_url),
            ));
        }
        Some(assignments)
    }
}

/// The answer to an edit that named no field.
pub fn update_nothing_response() -> (r: UpdateProfileResponse)
    ensures
        !r.success,
        r.message@ == "No fields to update"@,
{
    UpdateProfileResponse { success: false, message: "No fields to update".to_owned() }
}

/// The answer to an edit the store accepted.
pub fn update_done_response() -> (r: UpdateProfileResponse)
    ensures
        r.success,
        r.message@ == "Profile updated successfully"@,
{
    UpdateProfileResponse { success: true, message: "Profile updated successfully".to_owned() }
}

} // verus!
