//! Schema bootstrap decisions: the fixed statement list that defines the
//! profile type, and the rule that decides what a failed statement means.
//!
//! The statements themselves are executed outside; the decision — proceed,
//! skip a statement that failed only because its object already exists, or
//! abort — is pure and proved here.

use vstd::prelude::*;
use crate::text::contains_chars;
use crate::text::contains_str;

verus! {

/// What to do after one schema statement was executed.
#[derive(Debug, Clone, Copy, PartialEq, Eq, Structural)]
pub enum SchemaStepOutcome {
    /// The statement succeeded; go on.
    Proceed,
    /// The statement failed only because its object already exists; skip
    /// it and go on.
    SkipExisting,
    /// The statement failed for a real reason; stop the bootstrap.
    Abort,
}

/// Whether a store error text reports that the object already exists —
/// the one failure the bootstrap tolerates.
pub open spec fn benign_schema_error(text: Seq<char>) -> bool {
    contains_chars(text, "already exists"@) || contains_chars(text, "already defined"@)
}

/// Decide what one executed schema statement's result means.
pub fn schema_step_outcome(succeeded: bool, error_text: &str) -> (r: SchemaStepOutcome)
    ensures
        succeeded ==> r == SchemaStepOutcome::Proceed,
        !succeeded && benign_schema_error(error_text@) ==> r == SchemaStepOutcome::SkipExisting,
        !succeeded && !benign_schema_error(error_text@) ==> r == SchemaStepOutcome::Abort,
{
    if succeeded {
        SchemaStepOutcome::Proceed
    } else if contains_str(error_text, "already exists") || contains_str(
        error_text,
        "already defined",
    ) {
        SchemaStepOutcome::SkipExisting
    } else {
        SchemaStepOutcome::Abort
    }
}

/// The statements that define the profile schema, in execution order: the
/// document type, its properties, and the two unique indexes that back the
/// identity invariants.
pub fn schema_statements() -> (r: Vec<String>)
    ensures
        r@.len() == 10,
        r@[0]@ == "CREATE DOCUMENT TYPE Profile"@,
        r@[1]@ == "CREATE PROPERTY Profile.userId STRING"@,
        r@[2]@ == "CREATE PROPERTY Profile.clerkId STRING"@,
        r@[3]@ == "CREATE PROPERTY Profile.displayName STRING"@,
        r@[4]@ == "CREATE PROPERTY Profile.aboutMe STRING"@,
        r@[5]@ == "CREATE PROPERTY Profile.avatarUrl STRING"@,
        r@[6]@ == "CREATE PROPERTY Profile.createdAt DATETIME"@,
        r@[7]@ == "CREATE PROPERTY Profile.updatedAt DATETIME"@,
        r@[8]@ == "CREATE INDEX Profile_userId_idx ON Profile (userId) UNIQUE"@,
        r@[9]@ == "CREATE INDEX Profile_clerkId_idx ON Profile (clerkId) UNIQUE"@,
{
    let mut statements: Vec<String> = Vec::new();
    statements.push("CREATE DOCUMENT TYPE Profile".to_owned());
    statements.push("CREATE PROPERTY Profile.userId STRING".to_owned());
    statements.push("CREATE PROPERTY Profile.clerkId STRING".to_owned());
    statements.push("CREATE PROPERTY Profile.displayName STRING".to_owned());
    statements.push("CREATE PROPERTY Profile.aboutMe STRING".to_owned());
    statements.push("CREATE PROPERTY Profile.avatarUrl STRING".to_owned());
    statements.push("CREATE PROPERTY Profile.createdAt DATETIME".to_owned());
    statements.push("CREATE PROPERTY Profile.updatedAt DATETIME".to_owned());
    statements.push("CREATE INDEX Profile_userId_idx ON Profile (userId) UNIQUE".to_owned());
    statements.push("CREATE INDEX Profile_clerkId_idx ON Profile (clerkId) UNIQUE".to_owned());
    statements
}

/// The probe that asks the store whether the profile type exists.
pub fn schema_check_query() -> (r: String)
    ensures
        r@ == "SELECT FROM schema:types WHERE name = 'Profile'"@,
{
    "SELECT FROM schema:types WHERE name = 'Profile'".to_owned()
}

} // verus!
