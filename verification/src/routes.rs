//! What the service answers to the forms it receives.

pub mod subscriptions;
