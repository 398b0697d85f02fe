//! The create-user saga: the ordered, partially-atomic sequence of
//! existence check, document insert, and event publish, with its failure
//! and idempotency semantics.
//!
//! A run walks `Validating`, `CheckingExistence`, `Inserting`, `Publishing`
//! and ends in `Succeeded`, or leaves early for `RejectedConflict` (an
//! expected business outcome, not a fault) or `Failed` (a fault).  Each
//! transition is a function of the previous state and the result of one
//! outside call, so a caller that talks to a real store and bus can drive
//! the same machine step by step; `run_create_user` drives it against the
//! in-memory doubles.

use vstd::prelude::*;

use crate::bus::build_event;
use crate::bus::envelope_is;
use crate::bus::EventKind;
use crate::bus::InMemoryEventPublisher;
use crate::bus::PublishError;
use crate::models::CreateUserCommand;
use crate::models::DatastoreErrors;
use crate::models::Timestamp;
use crate::models::User;
use crate::store::does_user_exist;
use crate::store::insert_result;
use crate::store::InMemoryUserStore;
use crate::store::StoreError;
use crate::validate::cmd_valid;
use crate::validate::validate_command;
use crate::validate::validation_error_for;

verus! {

/// Why a run failed: a caller error caught by validation, a store fault, or
/// a bus fault after the durable write.
#[derive(PartialEq, Eq, Debug)]
pub enum SagaFailure {
    Validation(DatastoreErrors),
    StoreUnavailable,
    PublishFailed,
}

/// The typed outcome a caller sees when a run does not hand back the
/// created user.
#[derive(PartialEq, Eq, Debug)]
pub enum CreateUserError {
    ValidationError(DatastoreErrors),
    Conflict,
    StoreUnavailable,
    PublishFailed,
}

/// The saga's states.  `Validating` holds the raw command;
/// `CheckingExistence` a validated one; `Inserting` and `Publishing` the
/// record built for the insert; `Succeeded`, `RejectedConflict` and
/// `Failed` are terminal.
#[derive(PartialEq, Eq, Debug)]
pub enum SagaState {
    Validating(CreateUserCommand),
    CheckingExistence(CreateUserCommand),
    Inserting(User),
    Publishing(User),
    Succeeded(User),
    RejectedConflict,
    Failed(SagaFailure),
}

/// A state no further step leaves.
pub open spec fn is_terminal(s: SagaState) -> bool {
    match s {
        SagaState::Succeeded(_) => true,
        SagaState::RejectedConflict => true,
        SagaState::Failed(_) => true,
        _ => false,
    }
}

/// The record a run for `cmd` persists at time `now`: the caller's fields,
/// the deprecated password sentinel, and both timestamps assigned by the
/// saga, never by the caller.
pub open spec fn is_user_for(u: User, cmd: CreateUserCommand, now: i64) -> bool {
    &&& u.user_id == cmd.user_id
    &&& u.username == cmd.username
    &&& u.email == cmd.email
    &&& u.password@ == "DEPRECATED"@
    &&& u.created_at == (Timestamp { seconds: now, nanos: 0 })
    &&& u.updated_at == (Timestamp { seconds: now, nanos: 0 })
}

/// Builds the record a run for `cmd` persists at time `now`.
pub fn build_user(cmd: CreateUserCommand, now: i64) -> (u: User)
    ensures
        is_user_for(u, cmd, now),
{
    User {
        user_id: cmd.user_id,
        username: cmd.username,
        email: cmd.email,
        password: "DEPRECATED".to_owned(),
        created_at: Timestamp { seconds: now, nanos: 0 },
        updated_at: Timestamp { seconds: now, nanos: 0 },
    }
}

/// The validating step: a valid command moves on to the existence check, an
/// invalid one fails with the caller's error before any outside call.
pub fn begin(cmd: CreateUserCommand, kind: EventKind) -> (s: SagaState)
    ensures
        cmd_valid(cmd) ==> s == SagaState::CheckingExistence(cmd),
        !cmd_valid(cmd) ==> (s matches SagaState::Failed(SagaFailure::Validation(e))
            && validation_error_for(e, cmd, kind)),
{
    match validate_command(&cmd, kind) {
        Ok(()) => SagaState::CheckingExistence(cmd),
        Err(e) => SagaState::Failed(SagaFailure::Validation(e)),
    }
}

/// The step after the existence check: a free identity moves on to the
/// insert with the record built at `now`; a taken one is the expected
/// conflict, not an error; a store fault ends the run with no write done.
pub fn on_existence_checked(cmd: CreateUserCommand, checked: Result<bool, StoreError>, now: i64) -> (s:
    SagaState)
    ensures
        checked == Ok::<bool, StoreError>(false) ==> (s matches SagaState::Inserting(u)
            && is_user_for(u, cmd, now)),
        checked == Ok::<bool, StoreError>(true) ==> s == SagaState::RejectedConflict,
        checked is Err ==> s == SagaState::Failed(SagaFailure::StoreUnavailable),
{
    match checked {
        Ok(false) => SagaState::Inserting(build_user(cmd, now)),
        Ok(true) => SagaState::RejectedConflict,
        Err(_) => SagaState::Failed(SagaFailure::StoreUnavailable),
    }
}

/// The step after the insert: success moves on to the publish; the store's
/// own uniqueness enforcement reporting `AlreadyExists` is the race the
/// existence check could not prevent, treated exactly as the conflict (the
/// end state, one document, is correct); any other store fault ends the run.
pub fn on_inserted(user: User, written: Result<(), StoreError>) -> (s: SagaState)
    ensures
        written == Ok::<(), StoreError>(()) ==> s == SagaState::Publishing(user),
        written == Err::<(), StoreError>(StoreError::AlreadyExists) ==> s
            == SagaState::RejectedConflict,
        written == Err::<(), StoreError>(StoreError::Unavailable) ==> s == SagaState::Failed(
            SagaFailure::StoreUnavailable,
        ),
{
    match written {
        Ok(()) => SagaState::Publishing(user),
        Err(StoreError::AlreadyExists) => SagaState::RejectedConflict,
        Err(StoreError::Unavailable) => SagaState::Failed(SagaFailure::StoreUnavailable),
    }
}

/// The step after the publish: acceptance ends the run with the persisted
/// user; a refused publish ends it as failed even though the document
/// already exists — the documented partial failure, with no rollback.
pub fn on_published(user: User, sent: Result<(), PublishError>) -> (s: SagaState)
    ensures
        sent == Ok::<(), PublishError>(()) ==> s == SagaState::Succeeded(user),
        sent is Err ==> s == SagaState::Failed(SagaFailure::PublishFailed),
{
    match sent {
        Ok(()) => SagaState::Succeeded(user),
        Err(_) => SagaState::Failed(SagaFailure::PublishFailed),
    }
}

/// Maps a terminal state to what the caller is told: every terminal state
/// to exactly one reported outcome, nothing swallowed.
pub fn outcome(state: SagaState) -> (r: Result<User, CreateUserError>)
    requires
        is_terminal(state),
    ensures
        state matches SagaState::Succeeded(u) ==> r == Ok::<User, CreateUserError>(u),
        state == SagaState::RejectedConflict ==> r == Err::<User, CreateUserError>(
            CreateUserError::Conflict,
        ),
        state matches SagaState::Failed(SagaFailure::Validation(e)) ==> r == Err::<
            User,
            CreateUserError,
        >(CreateUserError::ValidationError(e)),
        state == SagaState::Failed(SagaFailure::StoreUnavailable) ==> r == Err::<
            User,
            CreateUserError,
        >(CreateUserError::StoreUnavailable),
        state == SagaState::Failed(SagaFailure::PublishFailed) ==> r == Err::<
            User,
            CreateUserError,
        >(CreateUserError::PublishFailed),
{
    match state {
        SagaState::Succeeded(u) => Ok(u),
        SagaState::RejectedConflict => Err(CreateUserError::Conflict),
        SagaState::Failed(SagaFailure::Validation(e)) => Err(CreateUserError::ValidationError(e)),
        SagaState::Failed(SagaFailure::StoreUnavailable) => Err(CreateUserError::StoreUnavailable),
        SagaState::Failed(SagaFailure::PublishFailed) => Err(CreateUserError::PublishFailed),
        _ => vstd::pervasive::unreached(),
    }
}

/// One full run against the in-memory doubles, for the announcement `kind`,
/// with `now` as the server-assigned time in Unix seconds.
///
/// The contract pins every branch of the saga: an invalid command changes
/// nothing; a store fault changes nothing; a taken identity is the conflict
/// and changes nothing; a free identity is durably inserted exactly once,
/// and then either the announcement is on the bus and the persisted user
/// comes back, or the publish fault is reported while the insert stands —
/// the documented partial failure.
pub fn run_create_user(
    store: &mut InMemoryUserStore,
    bus: &mut InMemoryEventPublisher,
    cmd: CreateUserCommand,
    kind: EventKind,
    now: i64,
) -> (r: Result<User, CreateUserError>)
    requires
        old(store).wf(),
    ensures
        final(store).wf(),
        final(store).is_available() == old(store).is_available(),
        final(bus).available == old(bus).available,
        !cmd_valid(cmd) ==> final(store)@ == old(store)@ && final(bus)@ == old(bus)@ && (
        r matches Err(CreateUserError::ValidationError(e)) && validation_error_for(e, cmd, kind)),
        cmd_valid(cmd) && !old(store).is_available() ==> r == Err::<User, CreateUserError>(
            CreateUserError::StoreUnavailable,
        ) && final(store)@ == old(store)@ && final(bus)@ == old(bus)@,
        cmd_valid(cmd) && old(store).is_available() && old(store)@.contains_key(cmd.user_id@) ==> r
            == Err::<User, CreateUserError>(CreateUserError::Conflict) && final(store)@ == old(
            store,
        )@ && final(bus)@ == old(bus)@,
        cmd_valid(cmd) && old(store).is_available() && !old(store)@.contains_key(cmd.user_id@)
            ==> final(store)@.contains_key(cmd.user_id@) && is_user_for(
            final(store)@[cmd.user_id@],
            cmd,
            now,
        ) && final(store)@ == old(store)@.insert(cmd.user_id@, final(store)@[cmd.user_id@]),
        cmd_valid(cmd) && old(store).is_available() && !old(store)@.contains_key(cmd.user_id@)
            && old(bus).available ==> (r matches Ok(u) && u == final(store)@[cmd.user_id@] && final(
        bus)@ == old(bus)@.push(final(bus)@.last()) && envelope_is(final(bus)@.last(), kind, u)),
        cmd_valid(cmd) && old(store).is_available() && !old(store)@.contains_key(cmd.user_id@)
            && !old(bus).available ==> r == Err::<User, CreateUserError>(
            CreateUserError::PublishFailed,
        ) && final(bus)@ == old(bus)@,
{
    let state = SagaState::Validating(cmd);
    let state = match state {
        SagaState::Validating(c) => begin(c, kind),
        other => other,
    };
    let state = match state {
        SagaState::CheckingExistence(c) => {
            let checked = does_user_exist(store, &c.user_id);
            on_existence_checked(c, checked, now)
        },
        other => other,
    };
    let state = match state {
        SagaState::Inserting(u) => {
            let written = store.insert_if_absent(&u);
            on_inserted(u, written)
        },
        other => other,
    };
    let state = match state {
        SagaState::Publishing(u) => {
            let envelope = build_event(kind, &u);
            let sent = bus.publish(envelope);
            on_published(u, sent)
        },
        other => other,
    };
    outcome(state)
}

/// Relies on chrono::Utc::now, read once per run as whole Unix seconds.
/// The reading depends on the clock, so nothing is promised of the value;
/// `run_create_user` is verified for every value of it.
#[verifier::external_body]
fn current_unix_seconds() -> (r: i64) {
    chrono::Utc::now().timestamp()
}

/// The record a create call persists, with the timestamps the saga assigned
/// at insert time: both equal, whole seconds only.
pub open spec fn is_fresh_user_for(u: User, cmd: CreateUserCommand) -> bool {
    &&& u.user_id == cmd.user_id
    &&& u.username == cmd.username
    &&& u.email == cmd.email
    &&& u.password@ == "DEPRECATED"@
    &&& u.created_at.nanos == 0
    &&& u.updated_at == u.created_at
}

/// The command-shaped entry point: one full run announcing a
/// `UserCreationEvent`, with the insert time read from the clock.  The
/// contract is that of `run_create_user` at some clock reading: which
/// second the clock answered is all it leaves open.
pub fn create_user(
    store: &mut InMemoryUserStore,
    bus: &mut InMemoryEventPublisher,
    cmd: CreateUserCommand,
) -> (r: Result<User, CreateUserError>)
    requires
        old(store).wf(),
    ensures
        final(store).wf(),
        final(store).is_available() == old(store).is_available(),
        final(bus).available == old(bus).available,
        !cmd_valid(cmd) ==> final(store)@ == old(store)@ && final(bus)@ == old(bus)@ && (
        r matches Err(CreateUserError::ValidationError(e)) && validation_error_for(
            e,
            cmd,
            EventKind::Creation,
        )),
        cmd_valid(cmd) && !old(store).is_available() ==> r == Err::<User, CreateUserError>(
            CreateUserError::StoreUnavailable,
        ) && final(store)@ == old(store)@ && final(bus)@ == old(bus)@,
        cmd_valid(cmd) && old(store).is_available() && old(store)@.contains_key(cmd.user_id@) ==> r
            == Err::<User, CreateUserError>(CreateUserError::Conflict) && final(store)@ == old(
            store,
        )@ && final(bus)@ == old(bus)@,
        cmd_valid(cmd) && old(store).is_available() && !old(store)@.contains_key(cmd.user_id@)
            ==> final(store)@.contains_key(cmd.user_id@) && is_fresh_user_for(
            final(store)@[cmd.user_id@],
            cmd,
        ) && final(store)@ == old(store)@.insert(cmd.user_id@, final(store)@[cmd.user_id@]),
        cmd_valid(cmd) && old(store).is_available() && !old(store)@.contains_key(cmd.user_id@)
            && old(bus).available ==> (r matches Ok(u) && u == final(store)@[cmd.user_id@] && final(
        bus)@ == old(bus)@.push(final(bus)@.last()) && envelope_is(
            final(bus)@.last(),
            EventKind::Creation,
            u,
        )),
        cmd_valid(cmd) && old(store).is_available() && !old(store)@.contains_key(cmd.user_id@)
            && !old(bus).available ==> r == Err::<User, CreateUserError>(
            CreateUserError::PublishFailed,
        ) && final(bus)@ == old(bus)@,
{
    let now = current_unix_seconds();
    run_create_user(store, bus, cmd, EventKind::Creation, now)
}

/// A successful create is durable and visible: contents that held no record
/// for the identity accept the insert, and afterwards report the identity
/// as present — so the existence check that follows a successful run
/// answers true, and looking the identity up yields the inserted record.
pub proof fn lemma_created_identity_visible(m: Map<Seq<char>, User>, u: User)
    requires
        !m.contains_key(u.user_id@),
    ensures
        insert_result(m, u).1 == Ok::<(), StoreError>(()),
        insert_result(m, u).0.contains_key(u.user_id@),
        insert_result(m, u).0[u.user_id@] == u,
{
}

/// Two runs race for one new identity: both existence checks may answer
/// "absent", yet the store's uniqueness enforcement lets exactly one insert
/// through.  The first insert persists its record; the second reports
/// `AlreadyExists` — which `on_inserted` turns into the conflict outcome,
/// never a fault — and the contents keep exactly the first record.  Had the
/// loser's existence check run after the winner's insert instead, it would
/// already have answered "present" and the run would have left at the
/// check; either way one record stands and one event is owed.
pub proof fn lemma_create_race(m: Map<Seq<char>, User>, u1: User, u2: User)
    requires
        u1.user_id@ == u2.user_id@,
        !m.contains_key(u1.user_id@),
    ensures
        insert_result(m, u1).1 == Ok::<(), StoreError>(()),
        insert_result(m, u1).0 == m.insert(u1.user_id@, u1),
        insert_result(m, u1).0.contains_key(u2.user_id@),
        insert_result(insert_result(m, u1).0, u2).1 == Err::<(), StoreError>(
            StoreError::AlreadyExists,
        ),
        insert_result(insert_result(m, u1).0, u2).0 == insert_result(m, u1).0,
{
}

} // verus!
