//! The event-publisher side of the saga: which announcement a run emits,
//! the envelope it is wrapped in, and an in-memory publisher double that
//! records every accepted envelope.

use vstd::prelude::*;

use crate::models::User;
use crate::models::UserCreatedEvent;
use crate::models::UserCreationEvent;

verus! {

/// Which announcement a saga run emits: the lightweight `UserCreationEvent`
/// or the state-carrying `UserCreatedEvent`.
#[derive(Clone, Copy, PartialEq, Eq, Structural, Debug)]
pub enum EventKind {
    Creation,
    Created,
}

/// The one way a publish call fails: the bus did not acknowledge acceptance.
#[derive(Clone, Copy, PartialEq, Eq, Structural, Debug)]
pub enum PublishError {
    Failed,
}

/// Routing metadata carried beside the payload, so that subscribers can
/// filter without reading the payload itself.
#[derive(PartialEq, Eq, Debug)]
pub struct EventAttributes {
    pub message_type: String,
    pub content_type: String,
}

/// The typed payload of an envelope, one variant per event kind.
#[derive(PartialEq, Eq, Debug)]
pub enum EventPayload {
    Creation(UserCreationEvent),
    Created(UserCreatedEvent),
}

/// What one publish call hands to the bus: the event's name, its payload,
/// and the routing attributes.
#[derive(PartialEq, Eq, Debug)]
pub struct EventEnvelope {
    pub event_type: String,
    pub payload: EventPayload,
    pub attributes: EventAttributes,
}

/// The name an event kind is announced under, which is also the value of
/// the `messageType` routing attribute.
pub open spec fn event_type_name(kind: EventKind) -> Seq<char> {
    match kind {
        EventKind::Creation => "UserCreationEvent"@,
        EventKind::Created => "UserCreatedEvent"@,
    }
}

/// The payload a run for `kind` builds from the persisted user `u`.
pub open spec fn expected_payload(kind: EventKind, u: User) -> EventPayload {
    match kind {
        EventKind::Creation => EventPayload::Creation(UserCreationEvent { user_id: u.user_id }),
        EventKind::Created => EventPayload::Created(UserCreatedEvent { user: u }),
    }
}

/// The envelope `e` is exactly the announcement of `u` under `kind`: right
/// event name, right payload, `messageType` set to the event name and a
/// JSON content-type hint.
pub open spec fn envelope_is(e: EventEnvelope, kind: EventKind, u: User) -> bool {
    &&& e.event_type@ == event_type_name(kind)
    &&& e.payload == expected_payload(kind, u)
    &&& e.attributes.message_type@ == event_type_name(kind)
    &&& e.attributes.content_type@ == "application/json"@
}

/// Builds the announcement of the persisted user `user` under `kind`.
pub fn build_event(kind: EventKind, user: &User) -> (e: EventEnvelope)
    ensures
        envelope_is(e, kind, *user),
{
    match kind {
        EventKind::Creation => EventEnvelope {
            event_type: "UserCreationEvent".to_owned(),
            payload: EventPayload::Creation(UserCreationEvent { user_id: user.user_id.clone() }),
            attributes: EventAttributes {
                message_type: "UserCreationEvent".to_owned(),
                content_type: "application/json".to_owned(),
            },
        },
        EventKind::Created => EventEnvelope {
            event_type: "UserCreatedEvent".to_owned(),
            payload: EventPayload::Created(UserCreatedEvent { user: user.clone() }),
            attributes: EventAttributes {
                message_type: "UserCreatedEvent".to_owned(),
                content_type: "application/json".to_owned(),
            },
        },
    }
}

/// An in-memory event publisher: the double for the asynchronous bus.  It
/// records every envelope it accepted, in order; when `available` is false
/// it refuses every publish, which models a bus that fails deterministically.
#[derive(Debug)]
pub struct InMemoryEventPublisher {
    pub published: Vec<EventEnvelope>,
    pub available: bool,
}

impl View for InMemoryEventPublisher {
    type V = Seq<EventEnvelope>;

    open spec fn view(&self) -> Seq<EventEnvelope> {
        self.published@
    }
}

impl InMemoryEventPublisher {
    /// A fresh publisher: nothing recorded, accepting publishes.
    pub fn new() -> (p: Self)
        ensures
            p@ == Seq::<EventEnvelope>::empty(),
            p.available,
    {
        InMemoryEventPublisher { published: Vec::new(), available: true }
    }

    /// Accepts `env` and appends it to the record, or refuses it when the
    /// bus is unavailable; the record never changes on failure.
    pub fn publish(&mut self, env: EventEnvelope) -> (r: Result<(), PublishError>)
        ensures
            final(self).available == old(self).available,
            old(self).available ==> r == Ok::<(), PublishError>(())
                && final(self)@ == old(self)@.push(env),
            !old(self).available ==> r == Err::<(), PublishError>(PublishError::Failed)
                && final(self)@ == old(self)@,
    {
        if !self.available {
            return Err(PublishError::Failed);
        }
        self.published.push(env);
        Ok(())
    }
}

} // verus!
