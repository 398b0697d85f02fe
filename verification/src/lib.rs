//! A user-registration core: the create-user saga.
//!
//! A caller hands in a `CreateUserCommand`; the saga validates it, asks the
//! user store whether the identity is already taken, inserts the new user
//! record, and announces the creation on an event bus.  The saga's states,
//! its failure taxonomy, and the in-memory doubles for the store and the bus
//! live here, each with a contract; the surrounding transport and the real
//! store and bus clients stay outside this crate.

pub mod bus;
pub mod models;
pub mod saga;
pub mod store;
pub mod validate;
