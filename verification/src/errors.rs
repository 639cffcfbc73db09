use vstd::prelude::*;

verus! {

/// Why an operation on the agent record store or the reputation ledger
/// was refused. Every failure leaves the store untouched.
#[derive(Clone, Copy, Debug, PartialEq, Eq, Structural)]
pub enum AgentRegistryError {
    /// The name has more than the allowed number of characters.
    NameTooLong,
    /// The name is empty.
    NameEmpty,
    /// More capability entries than a record may hold.
    TooManyCapabilities,
    /// A capability entry has more than the allowed number of characters.
    CapabilityTooLong,
    /// A capability entry is empty.
    CapabilityEmpty,
    /// More service type entries than a record may hold.
    TooManyServiceTypes,
    /// The service type list is empty.
    ServiceTypesEmpty,
    /// A record for this identity already exists.
    AgentAlreadyRegistered,
    /// No record exists for this identity.
    AgentNotFound,
    /// The caller lacks the required relationship to the record.
    Unauthorized,
}

impl AgentRegistryError {
    /// A human-readable reason for the failure.
    pub fn message(&self) -> (m: &'static str)
        ensures
            m@.len() > 0,
    {
        match self {
            AgentRegistryError::NameTooLong => {
                proof { reveal_strlit("agent name exceeds the maximum length"); }
                "agent name exceeds the maximum length"
            },
            AgentRegistryError::NameEmpty => {
                proof { reveal_strlit("agent name cannot be empty"); }
                "agent name cannot be empty"
            },
            AgentRegistryError::TooManyCapabilities => {
                proof { reveal_strlit("too many capabilities"); }
                "too many capabilities"
            },
            AgentRegistryError::CapabilityTooLong => {
                proof { reveal_strlit("capability exceeds the maximum length"); }
                "capability exceeds the maximum length"
            },
            AgentRegistryError::CapabilityEmpty => {
                proof { reveal_strlit("capability cannot be empty"); }
                "capability cannot be empty"
            },
            AgentRegistryError::TooManyServiceTypes => {
                proof { reveal_strlit("too many service types"); }
                "too many service types"
            },
            AgentRegistryError::ServiceTypesEmpty => {
                proof { reveal_strlit("service type list cannot be empty"); }
                "service type list cannot be empty"
            },
            AgentRegistryError::AgentAlreadyRegistered => {
                proof { reveal_strlit("agent is already registered"); }
                "agent is already registered"
            },
            AgentRegistryError::AgentNotFound => {
                proof { reveal_strlit("agent not found"); }
                "agent not found"
            },
            AgentRegistryError::Unauthorized => {
                proof { reveal_strlit("caller is not authorized"); }
                "caller is not authorized"
            },
        }
    }
}

/// Why an operation on a service listing was refused. Every failure
/// leaves the listing untouched.
#[derive(Clone, Copy, Debug, PartialEq, Eq, Structural)]
pub enum ServiceMarketplaceError {
    /// The title has more than the allowed number of characters.
    TitleTooLong,
    /// The title is empty.
    TitleEmpty,
    /// The description has more than the allowed number of characters.
    DescriptionTooLong,
    /// The description is empty.
    DescriptionEmpty,
    /// The requirements text has more than the allowed number of characters.
    RequirementsTooLong,
    /// The service type is not one of the known type codes.
    InvalidServiceType,
    /// The price must be greater than zero.
    InvalidPrice,
    /// The delivery time must be greater than zero.
    InvalidDeliveryTime,
    /// The provider is not an active registered agent.
    AgentNotRegistered,
    /// The caller is not the listing's provider.
    Unauthorized,
}

impl ServiceMarketplaceError {
    /// A human-readable reason for the failure.
    pub fn message(&self) -> (m: &'static str)
        ensures
            m@.len() > 0,
    {
        match self {
            ServiceMarketplaceError::TitleTooLong => {
                proof { reveal_strlit("title exceeds the maximum length"); }
                "title exceeds the maximum length"
            },
            ServiceMarketplaceError::TitleEmpty => {
                proof { reveal_strlit("title cannot be empty"); }
                "title cannot be empty"
            },
            ServiceMarketplaceError::DescriptionTooLong => {
                proof { reveal_strlit("description exceeds the maximum length"); }
                "description exceeds the maximum length"
            },
            ServiceMarketplaceError::DescriptionEmpty => {
                proof { reveal_strlit("description cannot be empty"); }
                "description cannot be empty"
            },
            ServiceMarketplaceError::RequirementsTooLong => {
                proof { reveal_strlit("requirements exceed the maximum length"); }
                "requirements exceed the maximum length"
            },
            ServiceMarketplaceError::InvalidServiceType => {
                proof { reveal_strlit("invalid service type"); }
                "invalid service type"
            },
            ServiceMarketplaceError::InvalidPrice => {
                proof { reveal_strlit("price must be greater than zero"); }
                "price must be greater than zero"
            },
            ServiceMarketplaceError::InvalidDeliveryTime => {
                proof { reveal_strlit("delivery time must be greater than zero"); }
                "delivery time must be greater than zero"
            },
            ServiceMarketplaceError::AgentNotRegistered => {
                proof { reveal_strlit("agent is not registered"); }
                "agent is not registered"
            },
            ServiceMarketplaceError::Unauthorized => {
                proof { reveal_strlit("caller is not the listing owner"); }
                "caller is not the listing owner"
            },
        }
    }
}

} // verus!
