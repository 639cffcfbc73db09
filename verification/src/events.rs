//! Notification values describing committed changes. They are handed to
//! the caller for outside observers (indexers, user interfaces) and
//! carry no feedback into the core's own state.

use vstd::prelude::*;

use crate::reputation::ReputationReason;

verus! {

/// Emitted when a new agent is registered.
#[derive(Debug, PartialEq, Eq)]
pub struct AgentRegisteredEvent {
    /// The new agent's identity key.
    pub agent_id: u64,
    /// The new agent's display name.
    pub name: String,
    /// When the registration was committed.
    pub timestamp: i64,
}

/// Emitted when an agent's reputation score changes.
#[derive(Debug, PartialEq, Eq)]
pub struct ReputationChangedEvent {
    /// The agent whose score changed.
    pub agent_id: u64,
    /// The score after the change, already clamped.
    pub new_score: u64,
    /// The signed delta that was applied.
    pub change: i64,
    /// The cause of the change.
    pub reason: ReputationReason,
    /// The transaction the change refers to, if any.
    pub service_id: Option<u64>,
    /// When the change was committed.
    pub timestamp: i64,
}

/// Emitted when an agent updates its own metadata.
#[derive(Debug, PartialEq, Eq)]
pub struct AgentMetadataUpdatedEvent {
    /// The agent whose record was updated.
    pub agent_id: u64,
    /// When the update was committed.
    pub timestamp: i64,
}

/// Emitted when a new service listing is created.
#[derive(Debug, PartialEq, Eq)]
pub struct ListingCreatedEvent {
    /// The new listing's identity key.
    pub listing_id: u64,
    /// The providing agent's identity key.
    pub provider_id: u64,
    /// The listing's primary service type code.
    pub service_type: u8,
    /// The listing's title.
    pub title: String,
    /// The listing's price.
    pub price: u64,
    /// When the listing was created.
    pub timestamp: i64,
}

/// Emitted when a service listing is updated.
#[derive(Debug, PartialEq, Eq)]
pub struct ListingUpdatedEvent {
    /// The updated listing's identity key.
    pub listing_id: u64,
    /// The providing agent's identity key.
    pub provider_id: u64,
    /// When the update was committed.
    pub timestamp: i64,
}

/// Emitted when a service listing is deactivated.
#[derive(Debug, PartialEq, Eq)]
pub struct ListingDeactivatedEvent {
    /// The deactivated listing's identity key.
    pub listing_id: u64,
    /// The providing agent's identity key.
    pub provider_id: u64,
    /// When the deactivation was committed.
    pub timestamp: i64,
}

} // verus!
