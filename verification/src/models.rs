//! The data the saga works on: commands, user records, events, and the
//! error type for malformed inbound data.

use vstd::prelude::*;
use vstd::string::StringExecFns;

verus! {

/// A wire timestamp: whole seconds since the Unix epoch and a nanosecond
/// part.  The saga always writes a zero nanosecond part.
#[derive(Clone, Copy, PartialEq, Eq, Structural, Debug)]
pub struct Timestamp {
    pub seconds: i64,
    pub nanos: i32,
}

/// A persisted user record.  `user_id` is the caller-supplied identity and
/// keys the record in the store; `created_at` and `updated_at` are assigned
/// by the saga at insert time, never by the caller.  `password` is a
/// deprecated field that is always set to a sentinel and never used.
#[derive(PartialEq, Eq, Debug)]
pub struct User {
    pub user_id: String,
    pub username: String,
    pub email: String,
    pub password: String,
    pub created_at: Timestamp,
    pub updated_at: Timestamp,
}

impl Clone for User {
    fn clone(&self) -> (res: Self)
        ensures
            res == *self,
    {
        User {
            user_id: self.user_id.clone(),
            username: self.username.clone(),
            email: self.email.clone(),
            password: self.password.clone(),
            created_at: self.created_at,
            updated_at: self.updated_at,
        }
    }
}

/// The caller's intent: create a user with this identity, name and email.
/// Consumed once by a saga run, never persisted itself.
#[derive(PartialEq, Eq, Debug)]
pub struct CreateUserCommand {
    pub user_id: String,
    pub username: String,
    pub email: String,
}

impl Clone for CreateUserCommand {
    fn clone(&self) -> (res: Self)
        ensures
            res == *self,
    {
        CreateUserCommand {
            user_id: self.user_id.clone(),
            username: self.username.clone(),
            email: self.email.clone(),
        }
    }
}

/// The lightweight creation announcement: carries only the new identity.
#[derive(PartialEq, Eq, Debug)]
pub struct UserCreationEvent {
    pub user_id: String,
}

/// The state-carrying creation announcement: carries the full new record.
#[derive(PartialEq, Eq, Debug)]
pub struct UserCreatedEvent {
    pub user: User,
}

/// Errors for inbound data that fails validation: one variant for the
/// command-shaped entry point, one for the event-shaped (webhook) entry
/// point.  Each carries a human-readable description.
#[derive(PartialEq, Eq, Debug)]
pub enum DatastoreErrors {
    /// Failed to parse request data
    InvalidWebhookRequestData(String),
    InvalidRequestData(String),
}

impl DatastoreErrors {
    /// The description shown to callers, with the offending detail appended.
    pub fn message(&self) -> (r: String)
        ensures
            (match self {
                DatastoreErrors::InvalidWebhookRequestData(e) => r@ == "Invalid webhook request data: "@ + e@,
                DatastoreErrors::InvalidRequestData(e) => r@ == "Invalid request data: "@ + e@,
            }),
    {
        match self {
            DatastoreErrors::InvalidWebhookRequestData(e) => {
                let mut m = "Invalid webhook request data: ".to_owned();
                m.append(e.as_str());
                m
            },
            DatastoreErrors::InvalidRequestData(e) => {
                let mut m = "Invalid request data: ".to_owned();
                m.append(e.as_str());
                m
            },
        }
    }
}

} // verus!
