use user_registration::bus::{build_event, EventKind, EventPayload, InMemoryEventPublisher, PublishError};
use user_registration::models::{CreateUserCommand, Timestamp};
use user_registration::saga::{
    build_user, create_user, on_inserted, on_published, outcome, run_create_user, CreateUserError,
    SagaState,
};
use user_registration::store::{does_user_exist, InMemoryUserStore, StoreError};

fn mk_cmd(user_id: &str, username: &str, email: &str) -> CreateUserCommand {
    CreateUserCommand {
        user_id: user_id.to_string(),
        username: username.to_string(),
        email: email.to_string(),
    }
}

#[test]
fn creates_new_user_then_existence_check_is_true() {
    let mut store = InMemoryUserStore::new();
    let mut bus = InMemoryEventPublisher::new();
    let r = run_create_user(
        &mut store,
        &mut bus,
        mk_cmd("u1", "alice", "a@x.com"),
        EventKind::Creation,
        1000,
    );
    let user = r.expect("a new identity must be created");
    assert_eq!(user.user_id, "u1");
    assert_eq!(user.username, "alice");
    assert_eq!(user.email, "a@x.com");
    assert_eq!(user.password, "DEPRECATED");
    assert_eq!(user.created_at, Timestamp { seconds: 1000, nanos: 0 });
    assert_eq!(user.updated_at, Timestamp { seconds: 1000, nanos: 0 });
    let seen = does_user_exist(&store, &"u1".to_string());
    assert_eq!(seen, Ok(true));
}

#[test]
fn duplicate_create_reports_conflict_and_writes_nothing() {
    let mut store = InMemoryUserStore::new();
    let mut bus = InMemoryEventPublisher::new();
    let first = run_create_user(
        &mut store,
        &mut bus,
        mk_cmd("u1", "alice", "a@x.com"),
        EventKind::Creation,
        1000,
    );
    assert!(first.is_ok());
    assert_eq!(store.user_count(), 1);
    assert_eq!(bus.published.len(), 1);
    let second = run_create_user(
        &mut store,
        &mut bus,
        mk_cmd("u1", "bob", "b@x.com"),
        EventKind::Creation,
        2000,
    );
    assert_eq!(second, Err(CreateUserError::Conflict));
    assert_eq!(store.user_count(), 1);
    assert_eq!(bus.published.len(), 1);
}

#[test]
fn racing_creates_for_one_identity_have_one_winner() {
    // Both runs pass the existence check before either inserts: the race the
    // check cannot prevent, resolved by the store's uniqueness enforcement.
    let mut store = InMemoryUserStore::new();
    let id = "u1".to_string();
    assert_eq!(does_user_exist(&store, &id), Ok(false));
    assert_eq!(does_user_exist(&store, &id), Ok(false));
    let winner = build_user(mk_cmd("u1", "alice", "a@x.com"), 1000);
    let loser = build_user(mk_cmd("u1", "bob", "b@x.com"), 1001);
    let first = store.insert_if_absent(&winner);
    let second = store.insert_if_absent(&loser);
    assert_eq!(first, Ok(()));
    assert_eq!(second, Err(StoreError::AlreadyExists));
    assert_eq!(store.user_count(), 1);
    let winner_state = on_inserted(winner, first);
    let mut bus = InMemoryEventPublisher::new();
    let winner_outcome = match winner_state {
        SagaState::Publishing(user) => {
            let envelope = build_event(EventKind::Creation, &user);
            let sent = bus.publish(envelope);
            outcome(on_published(user, sent))
        }
        other => panic!("winner must reach the publish step: {:?}", other),
    };
    let winner_user = winner_outcome.expect("exactly one create must succeed");
    assert_eq!(winner_user.user_id, "u1");
    assert_eq!(winner_user.username, "alice");
    assert_eq!(bus.published.len(), 1);
    let loser_state = on_inserted(loser, second);
    assert!(matches!(loser_state, SagaState::RejectedConflict));
    assert_eq!(outcome(loser_state), Err(CreateUserError::Conflict));
    // A loser that checked after the winner's insert leaves at the check.
    assert_eq!(does_user_exist(&store, &id), Ok(true));
}

#[test]
fn publish_failure_reports_error_but_user_is_persisted() {
    let mut store = InMemoryUserStore::new();
    let mut bus = InMemoryEventPublisher::new();
    bus.available = false;
    let r = run_create_user(
        &mut store,
        &mut bus,
        mk_cmd("u1", "alice", "a@x.com"),
        EventKind::Creation,
        1000,
    );
    assert_eq!(r, Err(CreateUserError::PublishFailed));
    assert_eq!(does_user_exist(&store, &"u1".to_string()), Ok(true));
    assert_eq!(store.user_count(), 1);
    assert_eq!(bus.published.len(), 0);
}

#[test]
fn store_fault_prevents_insert_and_publish() {
    let mut store = InMemoryUserStore::new();
    store.available = false;
    let mut bus = InMemoryEventPublisher::new();
    let r = run_create_user(
        &mut store,
        &mut bus,
        mk_cmd("u1", "alice", "a@x.com"),
        EventKind::Creation,
        1000,
    );
    assert_eq!(r, Err(CreateUserError::StoreUnavailable));
    assert_eq!(store.user_count(), 0);
    assert_eq!(bus.published.len(), 0);
}

#[test]
fn existence_check_on_unreachable_store_is_a_fault_not_false() {
    let mut store = InMemoryUserStore::new();
    store.available = false;
    assert_eq!(
        does_user_exist(&store, &"u1".to_string()),
        Err(StoreError::Unavailable)
    );
}

#[test]
fn scenario_create_then_resubmit_identical_command() {
    let mut store = InMemoryUserStore::new();
    let mut bus = InMemoryEventPublisher::new();
    let r = run_create_user(
        &mut store,
        &mut bus,
        mk_cmd("u1", "alice", "a@x.com"),
        EventKind::Creation,
        7,
    );
    let user = r.expect("empty store must accept u1");
    assert_eq!(user.user_id, "u1");
    assert_eq!(bus.published.len(), 1);
    let envelope = &bus.published[0];
    assert_eq!(envelope.event_type, "UserCreationEvent");
    assert_eq!(envelope.attributes.message_type, "UserCreationEvent");
    assert_eq!(envelope.attributes.content_type, "application/json");
    match &envelope.payload {
        EventPayload::Creation(ev) => assert_eq!(ev.user_id, "u1"),
        other => panic!("wrong payload kind: {:?}", other),
    }
    let again = run_create_user(
        &mut store,
        &mut bus,
        mk_cmd("u1", "alice", "a@x.com"),
        EventKind::Creation,
        8,
    );
    assert_eq!(again, Err(CreateUserError::Conflict));
    assert_eq!(store.user_count(), 1);
    assert_eq!(bus.published.len(), 1);
}

#[test]
fn created_kind_announces_the_full_user() {
    let mut store = InMemoryUserStore::new();
    let mut bus = InMemoryEventPublisher::new();
    let r = run_create_user(
        &mut store,
        &mut bus,
        mk_cmd("u2", "bob", "b@x.com"),
        EventKind::Created,
        50,
    );
    let user = r.expect("a new identity must be created");
    assert_eq!(bus.published.len(), 1);
    let envelope = &bus.published[0];
    assert_eq!(envelope.event_type, "UserCreatedEvent");
    assert_eq!(envelope.attributes.message_type, "UserCreatedEvent");
    match &envelope.payload {
        EventPayload::Created(ev) => assert_eq!(ev.user, user),
        other => panic!("wrong payload kind: {:?}", other),
    }
}

#[test]
fn build_event_does_not_echo_its_input_unchanged() {
    let user = build_user(mk_cmd("u3", "carol", "c@x.com"), 3);
    let envelope = build_event(EventKind::Creation, &user);
    assert_eq!(envelope.event_type, "UserCreationEvent");
    match envelope.payload {
        EventPayload::Creation(ev) => assert_eq!(ev.user_id, "u3"),
        other => panic!("wrong payload kind: {:?}", other),
    }
}

#[test]
fn refused_publish_maps_to_publish_failed() {
    let user = build_user(mk_cmd("u4", "dan", "d@x.com"), 4);
    let state = on_published(user, Err(PublishError::Failed));
    assert_eq!(outcome(state), Err(CreateUserError::PublishFailed));
}

#[test]
fn clock_entry_point_assigns_matching_timestamps() {
    let mut store = InMemoryUserStore::new();
    let mut bus = InMemoryEventPublisher::new();
    let r = create_user(&mut store, &mut bus, mk_cmd("u5", "erin", "e@x.com"));
    let user = r.expect("a new identity must be created");
    assert_eq!(user.password, "DEPRECATED");
    assert_eq!(user.created_at, user.updated_at);
    assert_eq!(user.created_at.nanos, 0);
    assert_eq!(does_user_exist(&store, &"u5".to_string()), Ok(true));
    assert_eq!(bus.published.len(), 1);
}
