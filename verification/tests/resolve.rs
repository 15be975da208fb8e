//! Identity resolution: the state machine, the model store, the race
//! between concurrent first contacts, and the remaining pure endpoints.

use cynnycty_auth::config::store_config_or_defaults;
use cynnycty_auth::errors::AuthError;
use cynnycty_auth::health::database_health_response;
use cynnycty_auth::health::health_response;
use cynnycty_auth::profiles::FieldAssignment;
use cynnycty_auth::profiles::ProfileField;
use cynnycty_auth::profiles::UpdateProfileRequest;
use cynnycty_auth::profiles::plan_profile_update;
use cynnycty_auth::profiles::profile_response_of;
use cynnycty_auth::profiles::update_done_response;
use cynnycty_auth::profiles::update_nothing_response;
use cynnycty_auth::resolver::Resolver;
use cynnycty_auth::resolver::StoreAction;
use cynnycty_auth::resolver::StoreEvent;
use cynnycty_auth::schema::SchemaStepOutcome;
use cynnycty_auth::schema::schema_check_query;
use cynnycty_auth::schema::schema_statements;
use cynnycty_auth::schema::schema_step_outcome;
use cynnycty_auth::store_model::StoreModel;
use cynnycty_auth::store_model::resolve_with_model;
use cynnycty_auth::user::AuthUser;

#[test]
fn first_contact_creates_then_second_returns_the_same_id() {
    let mut store = StoreModel::new();

    let first = resolve_with_model(
        &mut store,
        "ext-42".to_string(),
        Some("a@b.com".to_string()),
        Some("Alice".to_string()),
        "U1".to_string(),
    )
    .unwrap();
    assert_eq!(first.user_id, "U1");
    assert_eq!(first.clerk_id, "ext-42");
    assert_eq!(store.len(), 1);

    let second = resolve_with_model(
        &mut store,
        "ext-42".to_string(),
        None,
        None,
        "U2".to_string(),
    )
    .unwrap();
    assert_eq!(second.user_id, "U1");
    assert_eq!(store.len(), 1);
}

#[test]
fn distinct_subjects_get_distinct_records() {
    let mut store = StoreModel::new();
    let a = resolve_with_model(&mut store, "ext-1".to_string(), None, None, "U1".to_string())
        .unwrap();
    let b = resolve_with_model(&mut store, "ext-2".to_string(), None, None, "U2".to_string())
        .unwrap();
    assert_eq!(a.user_id, "U1");
    assert_eq!(b.user_id, "U2");
    assert_eq!(store.len(), 2);
}

#[test]
fn found_record_is_enriched_with_the_claim_hints() {
    let mut store = StoreModel::new();
    let _ = resolve_with_model(&mut store, "ext-7".to_string(), None, None, "U7".to_string());
    let again = resolve_with_model(
        &mut store,
        "ext-7".to_string(),
        Some("new@mail".to_string()),
        Some("New Name".to_string()),
        "U8".to_string(),
    )
    .unwrap();
    assert_eq!(again.user_id, "U7");
    assert_eq!(again.email, Some("new@mail".to_string()));
    assert_eq!(again.display_name, Some("New Name".to_string()));
}

#[test]
fn missing_name_hint_defaults_the_display_name() {
    let mut store = StoreModel::new();
    let user = resolve_with_model(&mut store, "ext-9".to_string(), None, None, "U9".to_string())
        .unwrap();
    assert_eq!(user.display_name, Some("User".to_string()));
}

/// Two racing first contacts: both look up, both miss, one create wins the
/// store's uniqueness constraint, the loser's create is answered with a
/// duplicate and retried as a lookup.  One record is persisted and both
/// callers end with its id.
#[test]
fn racing_first_contacts_converge_on_one_record() {
    let mut store = StoreModel::new();

    let (mut winner, _) = Resolver::new("ext-5".to_string(), None, None, "U-win".to_string());
    let (mut loser, _) = Resolver::new("ext-5".to_string(), None, None, "U-lose".to_string());

    // Both lookups run before either create: both miss.
    let winner_create = winner.step(StoreEvent::Missing).unwrap();
    let loser_create = loser.step(StoreEvent::Missing).unwrap();

    let winner_record = match winner_create {
        StoreAction::Create { record } => record,
        other => panic!("expected a create, got {:?}", other),
    };
    let loser_record = match loser_create {
        StoreAction::Create { record } => record,
        other => panic!("expected a create, got {:?}", other),
    };

    assert!(store.create(winner_record));
    let _ = winner.step(StoreEvent::Created);
    let winner_user = winner.outcome().unwrap();
    assert_eq!(winner_user.user_id, "U-win");

    // The loser's create hits the uniqueness constraint.
    assert!(!store.create(loser_record));
    let retry = loser.step(StoreEvent::Duplicate).unwrap();
    let clerk = match retry {
        StoreAction::Lookup { clerk_id } => clerk_id,
        other => panic!("expected a lookup, got {:?}", other),
    };
    let found = store.lookup(&clerk).unwrap();
    let _ = loser.step(StoreEvent::Found { record: found });
    let loser_user = loser.outcome().unwrap();

    assert_eq!(loser_user.user_id, "U-win");
    assert_eq!(store.len(), 1);
}

#[test]
fn duplicate_races_are_retried_a_bounded_number_of_times() {
    let (mut resolver, _) = Resolver::new("ext-3".to_string(), None, None, "U3".to_string());
    let mut duplicates: u32 = 0;
    loop {
        let action = resolver.step(StoreEvent::Missing);
        assert!(matches!(action, Some(StoreAction::Create { .. })));
        duplicates += 1;
        if resolver.step(StoreEvent::Duplicate).is_none() {
            break;
        }
    }
    assert_eq!(duplicates, 4);
    assert_eq!(resolver.outcome().unwrap_err(), AuthError::ProfileStoreError);
}

#[test]
fn store_failure_fails_resolution() {
    let (mut resolver, _) = Resolver::new("ext-4".to_string(), None, None, "U4".to_string());
    assert!(resolver.step(StoreEvent::Failure).is_none());
    assert_eq!(resolver.outcome().unwrap_err(), AuthError::ProfileStoreError);
}

#[test]
fn profile_response_mirrors_the_user() {
    let user = AuthUser::new("ext-1".to_string(), "U1".to_string())
        .with_email(Some("a@b.com".to_string()))
        .with_display_name(Some("Alice".to_string()));
    let resp = profile_response_of(user);
    assert_eq!(resp.user_id, "U1");
    assert_eq!(resp.clerk_id, "ext-1");
    assert_eq!(resp.display_name, Some("Alice".to_string()));
    assert_eq!(resp.email, Some("a@b.com".to_string()));
}

#[test]
fn empty_update_plans_nothing() {
    let req = UpdateProfileRequest { display_name: None, about_me: None, avatar_url: None };
    assert!(plan_profile_update(req).is_none());
    let resp = update_nothing_response();
    assert!(!resp.success);
    assert_eq!(resp.message, "No fields to update");
}

#[test]
fn update_plan_lists_named_fields_in_order() {
    let req = UpdateProfileRequest {
        display_name: Some("Alice".to_string()),
        about_me: None,
        avatar_url: Some("https://img.example/a.png".to_string()),
    };
    let plan: Vec<FieldAssignment> = plan_profile_update(req).unwrap();
    assert_eq!(plan.len(), 2);
    assert_eq!(plan[0].field, ProfileField::DisplayName);
    assert_eq!(plan[0].value, "Alice");
    assert_eq!(plan[1].field, ProfileField::AvatarUrl);
    assert_eq!(plan[1].value, "https://img.example/a.png");
    let resp = update_done_response();
    assert!(resp.success);
    assert_eq!(resp.message, "Profile updated successfully");
}

#[test]
fn health_answers_are_fixed() {
    let h = health_response();
    assert_eq!(h.status, "ok");
    assert_eq!(h.message, "Cynnycty backend is running");
    let d = database_health_response("cynnycty".to_string());
    assert_eq!(d.status, "ok");
    assert_eq!(d.database, "cynnycty");
    assert!(d.connected);
    assert_eq!(d.message, "Database connection is healthy");
}

#[test]
fn schema_bootstrap_decisions() {
    assert_eq!(schema_step_outcome(true, ""), SchemaStepOutcome::Proceed);
    assert_eq!(
        schema_step_outcome(false, "Type 'Profile' already exists"),
        SchemaStepOutcome::SkipExisting
    );
    assert_eq!(
        schema_step_outcome(false, "index already defined"),
        SchemaStepOutcome::SkipExisting
    );
    assert_eq!(schema_step_outcome(false, "connection refused"), SchemaStepOutcome::Abort);
}

#[test]
fn schema_statements_define_the_profile_type() {
    let statements = schema_statements();
    assert_eq!(statements.len(), 10);
    assert_eq!(statements[0], "CREATE DOCUMENT TYPE Profile");
    assert_eq!(statements[8], "CREATE INDEX Profile_userId_idx ON Profile (userId) UNIQUE");
    assert_eq!(statements[9], "CREATE INDEX Profile_clerkId_idx ON Profile (clerkId) UNIQUE");
    assert_eq!(schema_check_query(), "SELECT FROM schema:types WHERE name = 'Profile'");
}

#[test]
fn store_config_defaults() {
    let c = store_config_or_defaults(None, None, None, None, None);
    assert_eq!(c.host, "localhost");
    assert_eq!(c.port, 2480);
    assert_eq!(c.username, "root");
    assert_eq!(c.password, "");
    assert_eq!(c.database_name, "cynnycty");

    let c = store_config_or_defaults(
        Some("db.example".to_string()),
        Some(9999),
        Some("svc".to_string()),
        Some("pw".to_string()),
        Some("mydb".to_string()),
    );
    assert_eq!(c.host, "db.example");
    assert_eq!(c.port, 9999);
    assert_eq!(c.username, "svc");
    assert_eq!(c.password, "pw");
    assert_eq!(c.database_name, "mydb");
}
