//! Service listings offered by registered agents: field-validated
//! records created, updated, and deactivated by their provider. The
//! core consumes from the record store only the fact that the provider
//! is active; listings are never scored here.

use vstd::prelude::*;

use crate::errors::ServiceMarketplaceError;
use crate::events::{ListingCreatedEvent, ListingDeactivatedEvent, ListingUpdatedEvent};

verus! {

/// Service type code: yield optimization strategies.
pub const SERVICE_TYPE_YIELD_OPTIMIZATION: u8 = 1;

/// Service type code: risk analysis and assessment.
pub const SERVICE_TYPE_RISK_ANALYSIS: u8 = 2;

/// Service type code: market prediction and forecasting.
pub const SERVICE_TYPE_MARKET_PREDICTION: u8 = 3;

/// Service type code: strategy development and planning.
pub const SERVICE_TYPE_STRATEGY_DEVELOPMENT: u8 = 4;

/// Service type code: data analysis and insights.
pub const SERVICE_TYPE_DATA_ANALYSIS: u8 = 5;

/// Service type code: smart contract auditing.
pub const SERVICE_TYPE_SMART_CONTRACT_AUDIT: u8 = 6;

/// Service type code: liquidity provision services.
pub const SERVICE_TYPE_LIQUIDITY_PROVISION: u8 = 7;

/// Service type code: arbitrage detection and execution.
pub const SERVICE_TYPE_ARBITRAGE_DETECTION: u8 = 8;

/// Service type code: portfolio management.
pub const SERVICE_TYPE_PORTFOLIO_MANAGEMENT: u8 = 9;

/// Service type code: custom services.
pub const SERVICE_TYPE_CUSTOM: u8 = 255;

/// Longest allowed listing title, in characters.
pub const MAX_TITLE_LENGTH: usize = 100;

/// Longest allowed listing description, in characters.
pub const MAX_DESCRIPTION_LENGTH: usize = 500;

/// Longest allowed requirements text, in characters.
pub const MAX_REQUIREMENTS_LENGTH: usize = 500;

/// One service listing offered by a providing agent.
#[derive(Debug)]
pub struct ServiceListing {
    /// The listing's identity key; immutable.
    pub listing_id: u64,
    /// The providing agent's identity key; immutable.
    pub provider_id: u64,
    /// The primary service type code.
    pub service_type: u8,
    /// Title, 1 to `MAX_TITLE_LENGTH` characters.
    pub title: String,
    /// Description, 1 to `MAX_DESCRIPTION_LENGTH` characters.
    pub description: String,
    /// Price in tokens, greater than zero.
    pub price: u64,
    /// Expected delivery time in seconds, greater than zero.
    pub delivery_time: u32,
    /// Free-form requirements text, at most `MAX_REQUIREMENTS_LENGTH`
    /// characters.
    pub requirements: String,
    /// Whether the listing can be purchased.
    pub is_active: bool,
    /// When the listing was created; immutable.
    pub created_at: i64,
    /// When the listing last changed.
    pub updated_at: i64,
    /// Total number of purchases; preserved by updates.
    pub total_purchases: u64,
    /// Aggregate rating counter; preserved by updates.
    pub average_rating: u16,
}

/// The known service type codes.
pub open spec fn spec_valid_service_type(t: u8) -> bool {
    ||| t == SERVICE_TYPE_YIELD_OPTIMIZATION
    ||| t == SERVICE_TYPE_RISK_ANALYSIS
    ||| t == SERVICE_TYPE_MARKET_PREDICTION
    ||| t == SERVICE_TYPE_STRATEGY_DEVELOPMENT
    ||| t == SERVICE_TYPE_DATA_ANALYSIS
    ||| t == SERVICE_TYPE_SMART_CONTRACT_AUDIT
    ||| t == SERVICE_TYPE_LIQUIDITY_PROVISION
    ||| t == SERVICE_TYPE_ARBITRAGE_DETECTION
    ||| t == SERVICE_TYPE_PORTFOLIO_MANAGEMENT
    ||| t == SERVICE_TYPE_CUSTOM
}

/// Decides whether a service type code is one of the known codes.
pub fn is_valid_service_type(service_type: u8) -> (r: bool)
    ensures
        r == spec_valid_service_type(service_type),
{
    service_type == SERVICE_TYPE_YIELD_OPTIMIZATION || service_type == SERVICE_TYPE_RISK_ANALYSIS
        || service_type == SERVICE_TYPE_MARKET_PREDICTION
        || service_type == SERVICE_TYPE_STRATEGY_DEVELOPMENT
        || service_type == SERVICE_TYPE_DATA_ANALYSIS
        || service_type == SERVICE_TYPE_SMART_CONTRACT_AUDIT
        || service_type == SERVICE_TYPE_LIQUIDITY_PROVISION
        || service_type == SERVICE_TYPE_ARBITRAGE_DETECTION
        || service_type == SERVICE_TYPE_PORTFOLIO_MANAGEMENT
        || service_type == SERVICE_TYPE_CUSTOM
}

/// The error a title draws: emptiness is checked before length.
pub open spec fn title_error(title: Seq<char>) -> Option<ServiceMarketplaceError> {
    if title.len() == 0 {
        Some(ServiceMarketplaceError::TitleEmpty)
    } else if title.len() > MAX_TITLE_LENGTH {
        Some(ServiceMarketplaceError::TitleTooLong)
    } else {
        None
    }
}

/// The error a description draws: emptiness is checked before length.
pub open spec fn description_error(description: Seq<char>) -> Option<ServiceMarketplaceError> {
    if description.len() == 0 {
        Some(ServiceMarketplaceError::DescriptionEmpty)
    } else if description.len() > MAX_DESCRIPTION_LENGTH {
        Some(ServiceMarketplaceError::DescriptionTooLong)
    } else {
        None
    }
}

/// The error a requirements text draws; it may be empty.
pub open spec fn requirements_error(requirements: Seq<char>) -> Option<ServiceMarketplaceError> {
    if requirements.len() > MAX_REQUIREMENTS_LENGTH {
        Some(ServiceMarketplaceError::RequirementsTooLong)
    } else {
        None
    }
}

/// The error a listing creation draws, checked in the order the fields
/// are validated: title, description, requirements, service type,
/// price, delivery time, then the provider's registration.
pub open spec fn create_error(
    title: Seq<char>,
    description: Seq<char>,
    requirements: Seq<char>,
    service_type: u8,
    price: u64,
    delivery_time: u32,
    provider_active: bool,
) -> Option<ServiceMarketplaceError> {
    if title_error(title) is Some {
        title_error(title)
    } else if description_error(description) is Some {
        description_error(description)
    } else if requirements_error(requirements) is Some {
        requirements_error(requirements)
    } else if !spec_valid_service_type(service_type) {
        Some(ServiceMarketplaceError::InvalidServiceType)
    } else if price == 0 {
        Some(ServiceMarketplaceError::InvalidPrice)
    } else if delivery_time == 0 {
        Some(ServiceMarketplaceError::InvalidDeliveryTime)
    } else if !provider_active {
        Some(ServiceMarketplaceError::AgentNotRegistered)
    } else {
        None
    }
}

/// The listing a successful creation produces: active, with zero
/// purchase and rating counters and both timestamps set to now.
pub open spec fn fresh_listing(
    listing_id: u64,
    provider_id: u64,
    service_type: u8,
    title: String,
    description: String,
    price: u64,
    delivery_time: u32,
    requirements: String,
    now: i64,
) -> ServiceListing {
    ServiceListing {
        listing_id,
        provider_id,
        service_type,
        title,
        description,
        price,
        delivery_time,
        requirements,
        is_active: true,
        created_at: now,
        updated_at: now,
        total_purchases: 0,
        average_rating: 0,
    }
}

/// Checks a title against the listing rules.
fn validate_title(title: &String) -> (r: Option<ServiceMarketplaceError>)
    ensures
        r == title_error(title@),
{
    if title.as_str().is_empty() {
        Some(ServiceMarketplaceError::TitleEmpty)
    } else if title.as_str().unicode_len() > MAX_TITLE_LENGTH {
        Some(ServiceMarketplaceError::TitleTooLong)
    } else {
        None
    }
}

/// Checks a description against the listing rules.
fn validate_description(description: &String) -> (r: Option<ServiceMarketplaceError>)
    ensures
        r == description_error(description@),
{
    if description.as_str().is_empty() {
        Some(ServiceMarketplaceError::DescriptionEmpty)
    } else if description.as_str().unicode_len() > MAX_DESCRIPTION_LENGTH {
        Some(ServiceMarketplaceError::DescriptionTooLong)
    } else {
        None
    }
}

/// Creates a new listing for an active provider. Succeeds exactly when
/// every field is valid and the provider is an active registered agent;
/// the result pairs the created listing with its notification. The
/// caller supplies the provider's activity flag read from the record
/// store.
pub fn create_listing(
    listing_id: u64,
    provider_id: u64,
    provider_active: bool,
    service_type: u8,
    title: String,
    description: String,
    price: u64,
    delivery_time: u32,
    requirements: String,
    now: i64,
) -> (r: Result<(ServiceListing, ListingCreatedEvent), ServiceMarketplaceError>)
    ensures
        match r {
            Ok(out) => {
                &&& create_error(
                    title@,
                    description@,
                    requirements@,
                    service_type,
                    price,
                    delivery_time,
                    provider_active,
                ) is None
                &&& out.0 == fresh_listing(
                    listing_id,
                    provider_id,
                    service_type,
                    title,
                    description,
                    price,
                    delivery_time,
                    requirements,
                    now,
                )
                &&& out.1 == (ListingCreatedEvent {
                    listing_id,
                    provider_id,
                    service_type,
                    title,
                    price,
                    timestamp: now,
                })
            },
            Err(e) => Some(e) == create_error(
                title@,
                description@,
                requirements@,
                service_type,
                price,
                delivery_time,
                provider_active,
            ),
        },
{
    if let Some(e) = validate_title(&title) {
        return Err(e);
    }
    if let Some(e) = validate_description(&description) {
        return Err(e);
    }
    if requirements.as_str().unicode_len() > MAX_REQUIREMENTS_LENGTH {
        return Err(ServiceMarketplaceError::RequirementsTooLong);
    }
    if !is_valid_service_type(service_type) {
        return Err(ServiceMarketplaceError::InvalidServiceType);
    }
    if price == 0 {
        return Err(ServiceMarketplaceError::InvalidPrice);
    }
    if delivery_time == 0 {
        return Err(ServiceMarketplaceError::InvalidDeliveryTime);
    }
    if !provider_active {
        return Err(ServiceMarketplaceError::AgentNotRegistered);
    }
    let note_title = title.clone();
    let listing = ServiceListing {
        listing_id,
        provider_id,
        service_type,
        title,
        description,
        price,
        delivery_time,
        requirements,
        is_active: true,
        created_at: now,
        updated_at: now,
        total_purchases: 0,
        average_rating: 0,
    };
    let note = ListingCreatedEvent {
        listing_id,
        provider_id,
        service_type,
        title: note_title,
        price,
        timestamp: now,
    };
    Ok((listing, note))
}

/// The error a listing update draws, checked in order: an alien caller,
/// then each provided field under the same rules as creation.
pub open spec fn update_error(
    listing: ServiceListing,
    caller: u64,
    title: Option<String>,
    description: Option<String>,
    price: Option<u64>,
    delivery_time: Option<u32>,
) -> Option<ServiceMarketplaceError> {
    if caller != listing.provider_id {
        Some(ServiceMarketplaceError::Unauthorized)
    } else {
        let te = match title {
            Some(t) => title_error(t@),
            None => None,
        };
        let de = match description {
            Some(d) => description_error(d@),
            None => None,
        };
        if te is Some {
            te
        } else if de is Some {
            de
        } else if price == Some(0u64) {
            Some(ServiceMarketplaceError::InvalidPrice)
        } else if delivery_time == Some(0u32) {
            Some(ServiceMarketplaceError::InvalidDeliveryTime)
        } else {
            None
        }
    }
}

/// The new value of an optional field: the provided value, or the
/// stored one when none was provided.
pub open spec fn field_or<T>(provided: Option<T>, current: T) -> T {
    match provided {
        Some(v) => v,
        None => current,
    }
}

/// The listing after an update: each provided field replaces the stored
/// value, the update timestamp moves to now, and everything else —
/// identity, creation time, purchase history — stays untouched.
pub open spec fn updated_listing(
    l: ServiceListing,
    title: Option<String>,
    description: Option<String>,
    price: Option<u64>,
    delivery_time: Option<u32>,
    now: i64,
) -> ServiceListing {
    ServiceListing {
        listing_id: l.listing_id,
        provider_id: l.provider_id,
        service_type: l.service_type,
        title: field_or(title, l.title),
        description: field_or(description, l.description),
        price: field_or(price, l.price),
        delivery_time: field_or(delivery_time, l.delivery_time),
        requirements: l.requirements,
        is_active: l.is_active,
        created_at: l.created_at,
        updated_at: now,
        total_purchases: l.total_purchases,
        average_rating: l.average_rating,
    }
}

/// Replaces the provided fields of the caller's own listing,
/// re-validated under the same rules as creation. Succeeds exactly when
/// the caller is the provider and every provided field is valid; on
/// failure the listing is untouched.
pub fn update_listing(
    listing: &mut ServiceListing,
    caller: u64,
    title: Option<String>,
    description: Option<String>,
    price: Option<u64>,
    delivery_time: Option<u32>,
    now: i64,
) -> (r: Result<ListingUpdatedEvent, ServiceMarketplaceError>)
    ensures
        match r {
            Ok(note) => {
                &&& update_error(*old(listing), caller, title, description, price, delivery_time)
                    is None
                &&& *final(listing) == updated_listing(
                    *old(listing),
                    title,
                    description,
                    price,
                    delivery_time,
                    now,
                )
                &&& note == (ListingUpdatedEvent {
                    listing_id: old(listing).listing_id,
                    provider_id: old(listing).provider_id,
                    timestamp: now,
                })
            },
            Err(e) => {
                &&& *final(listing) == *old(listing)
                &&& Some(e) == update_error(
                    *old(listing),
                    caller,
                    title,
                    description,
                    price,
                    delivery_time,
                )
            },
        },
{
    if caller != listing.provider_id {
        return Err(ServiceMarketplaceError::Unauthorized);
    }
    if let Some(t) = &title {
        if let Some(e) = validate_title(t) {
            return Err(e);
        }
    }
    if let Some(d) = &description {
        if let Some(e) = validate_description(d) {
            return Err(e);
        }
    }
    if let Some(p) = &price {
        if *p == 0 {
            return Err(ServiceMarketplaceError::InvalidPrice);
        }
    }
    if let Some(dt) = &delivery_time {
        if *dt == 0 {
            return Err(ServiceMarketplaceError::InvalidDeliveryTime);
        }
    }
    if let Some(t) = title {
        listing.title = t;
    }
    if let Some(d) = description {
        listing.description = d;
    }
    if let Some(p) = price {
        listing.price = p;
    }
    if let Some(dt) = delivery_time {
        listing.delivery_time = dt;
    }
    listing.updated_at = now;
    Ok(ListingUpdatedEvent {
        listing_id: listing.listing_id,
        provider_id: listing.provider_id,
        timestamp: now,
    })
}

/// The listing after a deactivation: only the active flag falls and the
/// update timestamp moves; all data and history are preserved.
pub open spec fn deactivated_listing(l: ServiceListing, now: i64) -> ServiceListing {
    ServiceListing {
        listing_id: l.listing_id,
        provider_id: l.provider_id,
        service_type: l.service_type,
        title: l.title,
        description: l.description,
        price: l.price,
        delivery_time: l.delivery_time,
        requirements: l.requirements,
        is_active: false,
        created_at: l.created_at,
        updated_at: now,
        total_purchases: l.total_purchases,
        average_rating: l.average_rating,
    }
}

/// Marks the caller's own listing inactive, preserving all data and
/// history. Succeeds exactly when the caller is the provider; on
/// failure the listing is untouched.
pub fn deactivate_listing(listing: &mut ServiceListing, caller: u64, now: i64) -> (r: Result<
    ListingDeactivatedEvent,
    ServiceMarketplaceError,
>)
    ensures
        match r {
            Ok(note) => {
                &&& caller == old(listing).provider_id
                &&& *final(listing) == deactivated_listing(*old(listing), now)
                &&& note == (ListingDeactivatedEvent {
                    listing_id: old(listing).listing_id,
                    provider_id: old(listing).provider_id,
                    timestamp: now,
                })
            },
            Err(e) => {
                &&& caller != old(listing).provider_id
                &&& e == ServiceMarketplaceError::Unauthorized
                &&& *final(listing) == *old(listing)
            },
        },
{
    if caller != listing.provider_id {
        return Err(ServiceMarketplaceError::Unauthorized);
    }
    listing.is_active = false;
    listing.updated_at = now;
    Ok(ListingDeactivatedEvent {
        listing_id: listing.listing_id,
        provider_id: listing.provider_id,
        timestamp: now,
    })
}

} // verus!
