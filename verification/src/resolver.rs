//! Identity resolution: from a verified external subject id to a local
//! identity, creating one on first contact.
//!
//! The resolver is a state machine over the profile store's answers.  It
//! looks the subject up, creates a record where none exists, and — the
//! central contract — converts a create that loses the store's uniqueness
//! race into a retried lookup, bounded to a small fixed number of attempts,
//! rather than a hard failure.  The store calls themselves happen outside:
//! a driver performs each requested action and feeds the answer back in.

use vstd::prelude::*;
use vstd::string::StringExecFns;
use crate::errors::AuthError;
use crate::user::AuthUser;

verus! {

/// How many times a create that lost the uniqueness race is answered with
/// a fresh lookup before the resolver gives up.
pub const MAX_DUPLICATE_RETRIES: u8 = 3;

/// A profile record as the store holds it, reduced to the fields the
/// resolver reads and writes.
#[derive(Debug, Clone)]
pub struct ProfileRecord {
    /// Internal user id; unique in the store.
    pub user_id: String,
    /// External subject id; unique in the store.
    pub clerk_id: String,
    /// Display name.
    pub display_name: String,
}

/// A store call the resolver asks its driver to perform.
#[derive(Debug)]
pub enum StoreAction {
    /// Query for the record whose external subject id equals `clerk_id`.
    Lookup { clerk_id: String },
    /// Insert `record`; the store's uniqueness constraint on the external
    /// subject id decides the race.
    Create { record: ProfileRecord },
}

/// The store's answer to the most recent action.
#[derive(Debug)]
pub enum StoreEvent {
    /// The lookup found this record.
    Found { record: ProfileRecord },
    /// The lookup found no record.
    Missing,
    /// The create persisted the record.
    Created,
    /// The create lost the uniqueness race: a record with the same
    /// external subject id already exists.
    Duplicate,
    /// The store failed for any other reason.
    Failure,
}

/// Where the resolver stands.
#[derive(Debug)]
pub enum ResolverPhase {
    /// A lookup has been requested; its answer is awaited.
    AwaitingLookup,
    /// A create has been requested; its answer is awaited.
    AwaitingCreate,
    /// Resolution succeeded.
    Complete { user: AuthUser },
    /// Resolution failed.
    Failed { error: AuthError },
}

/// The display name a first-contact record is created with: the hint from
/// the verified claims, or the fixed placeholder.
pub open spec fn hint_display_name(name: Option<String>) -> Seq<char> {
    match name {
        Some(n) => n@,
        None => "User"@,
    }
}

/// The state machine that maps one verified subject to a local identity.
#[derive(Debug)]
pub struct Resolver {
    /// External subject id being resolved.
    pub clerk_id: String,
    /// Email hint from the verified claims.
    pub email: Option<String>,
    /// Display-name hint from the verified claims.
    pub name: Option<String>,
    /// The internal id a first-contact record would be created with.
    pub fresh_id: String,
    /// How many creates have lost the uniqueness race so far.
    pub retries: u8,
    /// Where the resolver stands.
    pub phase: ResolverPhase,
}

impl Resolver {
    /// Start resolving `clerk_id`; the returned action is the first lookup.
    pub fn new(clerk_id: String, email: Option<String>, name: Option<String>, fresh_id: String)
        -> (r: (Resolver, StoreAction))
        ensures
            r.0.clerk_id == clerk_id,
            r.0.email == email,
            r.0.name == name,
            r.0.fresh_id == fresh_id,
            r.0.retries == 0,
            r.0.phase is AwaitingLookup,
            r.1 is Lookup && r.1->Lookup_clerk_id == clerk_id,
    {
        let action = StoreAction::Lookup { clerk_id: clerk_id.clone() };
        (
            Resolver {
                clerk_id,
                email,
                name,
                fresh_id,
                retries: 0,
                phase: ResolverPhase::AwaitingLookup,
            },
            action,
        )
    }

    /// Whether the resolver still awaits a store answer.
    pub fn in_progress(&self) -> (r: bool)
        ensures
            r == (self.phase is AwaitingLookup || self.phase is AwaitingCreate),
    {
        match self.phase {
            ResolverPhase::AwaitingLookup => true,
            ResolverPhase::AwaitingCreate => true,
            _ => false,
        }
    }

    /// Feed the store's answer to the pending action in, and receive the
    /// next action, if any remains.
    ///
    /// From a lookup: a found record completes resolution with that
    /// record's internal id, enriched with the claim hints; a miss requests
    /// a create carrying the fresh id and the hinted or placeholder display
    /// name.  From a create: success completes resolution with the fresh
    /// id; a lost uniqueness race is retried as a new lookup, up to the
    /// fixed bound, and then — like any other store failure — ends in
    /// `ProfileStoreError`.
    pub fn step(&mut self, event: StoreEvent) -> (action: Option<StoreAction>)
        requires
            old(self).phase is AwaitingLookup ==> (event is Found || event is Missing
                || event is Failure),
            old(self).phase is AwaitingCreate ==> (event is Created || event is Duplicate
                || event is Failure),
            old(self).phase is AwaitingLookup || old(self).phase is AwaitingCreate,
        ensures
            final(self).clerk_id == old(self).clerk_id,
            final(self).email == old(self).email,
            final(self).name == old(self).name,
            final(self).fresh_id == old(self).fresh_id,
            match event {
                StoreEvent::Found { record } => {
                    &&& final(self).phase is Complete
                    &&& final(self).phase->Complete_user.clerk_id == old(self).clerk_id
                    &&& final(self).phase->Complete_user.user_id == record.user_id
                    &&& final(self).phase->Complete_user.email == old(self).email
                    &&& final(self).phase->Complete_user.display_name == old(self).name
                    &&& action is None
                    &&& final(self).retries == old(self).retries
                },
                StoreEvent::Missing => {
                    &&& final(self).phase is AwaitingCreate
                    &&& action is Some
                    &&& action.unwrap() is Create
                    &&& action.unwrap()->Create_record.user_id == old(self).fresh_id
                    &&& action.unwrap()->Create_record.clerk_id == old(self).clerk_id
                    &&& action.unwrap()->Create_record.display_name@ == hint_display_name(
                        old(self).name,
                    )
                    &&& final(self).retries == old(self).retries
                },
                StoreEvent::Created => {
                    &&& final(self).phase is Complete
                    &&& final(self).phase->Complete_user.clerk_id == old(self).clerk_id
                    &&& final(self).phase->Complete_user.user_id == old(self).fresh_id
                    &&& final(self).phase->Complete_user.email == old(self).email
                    &&& final(self).phase->Complete_user.display_name is Some
                    &&& final(self).phase->Complete_user.display_name.unwrap()@
                        == hint_display_name(old(self).name)
                    &&& action is None
                    &&& final(self).retries == old(self).retries
                },
                StoreEvent::Duplicate => {
                    if old(self).retries < MAX_DUPLICATE_RETRIES {
                        &&& final(self).phase is AwaitingLookup
                        &&& final(self).retries == old(self).retries + 1
                        &&& action is Some
                        &&& action.unwrap() is Lookup
                        &&& action.unwrap()->Lookup_clerk_id == old(self).clerk_id
                    } else {
                        &&& final(self).phase is Failed
                        &&& final(self).phase->Failed_error == AuthError::ProfileStoreError
                        &&& action is None
                        &&& final(self).retries == old(self).retries
                    }
                },
                StoreEvent::Failure => {
                    &&& final(self).phase is Failed
                    &&& final(self).phase->Failed_error == AuthError::ProfileStoreError
                    &&& action is None
                    &&& final(self).retries == old(self).retries
                },
            },
    {
        match event {
            StoreEvent::Found { record } => {
                let user = AuthUser::new(self.clerk_id.clone(), record.user_id).with_email(
                    clone_opt_string(&self.email),
                ).with_display_name(clone_opt_string(&self.name));
                self.phase = ResolverPhase::Complete { user };
                None
            },
            StoreEvent::Missing => {
                let display_name = match &self.name {
                    Some(n) => n.clone(),
                    None => "User".to_owned(),
                };
                let record = ProfileRecord {
                    user_id: self.fresh_id.clone(),
                    clerk_id: self.clerk_id.clone(),
                    display_name,
                };
                self.phase = ResolverPhase::AwaitingCreate;
                Some(StoreAction::Create { record })
            },
            StoreEvent::Created => {
                let display_name = match &self.name {
                    Some(n) => n.clone(),
                    None => "User".to_owned(),
                };
                let user = AuthUser::new(self.clerk_id.clone(), self.fresh_id.clone()).with_email(
                    clone_opt_string(&self.email),
                ).with_display_name(Some(display_name));
                self.phase = ResolverPhase::Complete { user };
                None
            },
            StoreEvent::Duplicate => {
                if self.retries < MAX_DUPLICATE_RETRIES {
                    self.retries = self.retries + 1;
                    self.phase = ResolverPhase::AwaitingLookup;
                    Some(StoreAction::Lookup { clerk_id: self.clerk_id.clone() })
                } else {
                    self.phase = ResolverPhase::Failed { error: AuthError::ProfileStoreError };
                    None
                }
            },
            StoreEvent::Failure => {
                self.phase = ResolverPhase::Failed { error: AuthError::ProfileStoreError };
                None
            },
        }
    }

    /// The result of a finished resolution.
    pub fn outcome(self) -> (r: Result<AuthUser, AuthError>)
        requires
            self.phase is Complete || self.phase is Failed,
        ensures
            self.phase is Complete ==> r is Ok && r->Ok_0 == self.phase->Complete_user,
            self.phase is Failed ==> r is Err && r->Err_0 == self.phase->Failed_error,
    {
        match self.phase {
            ResolverPhase::Complete { user } => Ok(user),
            ResolverPhase::Failed { error } => Err(error),
            _ => Err(AuthError::ProfileStoreError),
        }
    }
}

/// A copy of an optional string, equal to the one given.
fn clone_opt_string(o: &Option<String>) -> (r: Option<String>)
    ensures
        r == *o,
{
    match o {
        Some(s) => Some(s.clone()),
        None => None,
    }
}

} // verus!
