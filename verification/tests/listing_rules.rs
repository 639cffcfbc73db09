use agent_marketplace::errors::ServiceMarketplaceError;
use agent_marketplace::listings;
use agent_marketplace::listings::ServiceListing;
use agent_marketplace::registry::AgentRegistry;

const PROVIDER: u64 = 10;
const STRANGER: u64 = 11;

fn valid_listing() -> ServiceListing {
    let (listing, _) = listings::create_listing(
        501,
        PROVIDER,
        true,
        2,
        "Risk report".to_string(),
        "A thorough portfolio risk report".to_string(),
        250,
        3600,
        "{}".to_string(),
        1000,
    )
    .unwrap();
    listing
}

#[test]
fn create_listing_fills_every_field() {
    let (listing, note) = listings::create_listing(
        501,
        PROVIDER,
        true,
        2,
        "Risk report".to_string(),
        "A thorough portfolio risk report".to_string(),
        250,
        3600,
        "{}".to_string(),
        1000,
    )
    .unwrap();
    assert_eq!(listing.listing_id, 501);
    assert_eq!(listing.provider_id, PROVIDER);
    assert_eq!(listing.service_type, 2);
    assert_eq!(listing.title, "Risk report".to_string());
    assert_eq!(listing.description, "A thorough portfolio risk report".to_string());
    assert_eq!(listing.price, 250);
    assert_eq!(listing.delivery_time, 3600);
    assert_eq!(listing.requirements, "{}".to_string());
    assert!(listing.is_active);
    assert_eq!(listing.created_at, 1000);
    assert_eq!(listing.updated_at, 1000);
    assert_eq!(listing.total_purchases, 0);
    assert_eq!(listing.average_rating, 0);
    assert_eq!(note.listing_id, 501);
    assert_eq!(note.provider_id, PROVIDER);
    assert_eq!(note.service_type, 2);
    assert_eq!(note.title, "Risk report".to_string());
    assert_eq!(note.price, 250);
    assert_eq!(note.timestamp, 1000);
}

fn create_with(
    title: &str,
    description: &str,
    requirements: &str,
    service_type: u8,
    price: u64,
    delivery_time: u32,
    provider_active: bool,
) -> Result<ServiceListing, ServiceMarketplaceError> {
    listings::create_listing(
        501,
        PROVIDER,
        provider_active,
        service_type,
        title.to_string(),
        description.to_string(),
        price,
        delivery_time,
        requirements.to_string(),
        1000,
    )
    .map(|(listing, _)| listing)
}

#[test]
fn create_listing_rejects_each_invalid_field() {
    let long_title = "t".repeat(101);
    let long_desc = "d".repeat(501);
    let long_reqs = "r".repeat(501);
    assert_eq!(
        create_with("", "desc", "", 2, 1, 1, true).unwrap_err(),
        ServiceMarketplaceError::TitleEmpty,
    );
    assert_eq!(
        create_with(&long_title, "desc", "", 2, 1, 1, true).unwrap_err(),
        ServiceMarketplaceError::TitleTooLong,
    );
    assert_eq!(
        create_with("title", "", "", 2, 1, 1, true).unwrap_err(),
        ServiceMarketplaceError::DescriptionEmpty,
    );
    assert_eq!(
        create_with("title", &long_desc, "", 2, 1, 1, true).unwrap_err(),
        ServiceMarketplaceError::DescriptionTooLong,
    );
    assert_eq!(
        create_with("title", "desc", &long_reqs, 2, 1, 1, true).unwrap_err(),
        ServiceMarketplaceError::RequirementsTooLong,
    );
    assert_eq!(
        create_with("title", "desc", "", 0, 1, 1, true).unwrap_err(),
        ServiceMarketplaceError::InvalidServiceType,
    );
    assert_eq!(
        create_with("title", "desc", "", 2, 0, 1, true).unwrap_err(),
        ServiceMarketplaceError::InvalidPrice,
    );
    assert_eq!(
        create_with("title", "desc", "", 2, 1, 0, true).unwrap_err(),
        ServiceMarketplaceError::InvalidDeliveryTime,
    );
    assert_eq!(
        create_with("title", "desc", "", 2, 1, 1, false).unwrap_err(),
        ServiceMarketplaceError::AgentNotRegistered,
    );
}

#[test]
fn create_listing_accepts_boundary_lengths() {
    let title = "t".repeat(100);
    let desc = "d".repeat(500);
    let reqs = "r".repeat(500);
    assert!(create_with(&title, &desc, &reqs, 2, 1, 1, true).is_ok());
}

#[test]
fn service_type_codes_match_the_known_set() {
    for t in 1..=9u8 {
        assert!(listings::is_valid_service_type(t));
    }
    assert!(listings::is_valid_service_type(255));
    assert!(!listings::is_valid_service_type(0));
    assert!(!listings::is_valid_service_type(10));
    assert!(!listings::is_valid_service_type(254));
}

#[test]
fn owner_updates_only_provided_listing_fields() {
    let mut listing = valid_listing();
    let note = listings::update_listing(
        &mut listing,
        PROVIDER,
        Some("Deep risk report".to_string()),
        None,
        Some(400),
        None,
        2000,
    )
    .unwrap();
    assert_eq!(note.listing_id, 501);
    assert_eq!(note.provider_id, PROVIDER);
    assert_eq!(note.timestamp, 2000);
    assert_eq!(listing.title, "Deep risk report".to_string());
    assert_eq!(listing.description, "A thorough portfolio risk report".to_string());
    assert_eq!(listing.price, 400);
    assert_eq!(listing.delivery_time, 3600);
    assert_eq!(listing.created_at, 1000);
    assert_eq!(listing.updated_at, 2000);
    assert_eq!(listing.total_purchases, 0);
}

#[test]
fn update_listing_from_other_identity_is_unauthorized() {
    let mut listing = valid_listing();
    let r = listings::update_listing(
        &mut listing,
        STRANGER,
        Some("Hijack".to_string()),
        None,
        None,
        None,
        2000,
    );
    assert_eq!(r.unwrap_err(), ServiceMarketplaceError::Unauthorized);
    assert_eq!(listing.title, "Risk report".to_string());
    assert_eq!(listing.updated_at, 1000);
}

#[test]
fn update_listing_rejects_invalid_field_and_changes_nothing() {
    let mut listing = valid_listing();
    let r = listings::update_listing(
        &mut listing,
        PROVIDER,
        Some("New title".to_string()),
        None,
        Some(0),
        None,
        2000,
    );
    assert_eq!(r.unwrap_err(), ServiceMarketplaceError::InvalidPrice);
    assert_eq!(listing.title, "Risk report".to_string());
    assert_eq!(listing.price, 250);
    assert_eq!(listing.updated_at, 1000);

    let r = listings::update_listing(&mut listing, PROVIDER, None, None, None, Some(0), 2000);
    assert_eq!(r.unwrap_err(), ServiceMarketplaceError::InvalidDeliveryTime);

    let r = listings::update_listing(
        &mut listing,
        PROVIDER,
        Some(String::new()),
        None,
        None,
        None,
        2000,
    );
    assert_eq!(r.unwrap_err(), ServiceMarketplaceError::TitleEmpty);

    let r = listings::update_listing(
        &mut listing,
        PROVIDER,
        None,
        Some(String::new()),
        None,
        None,
        2000,
    );
    assert_eq!(r.unwrap_err(), ServiceMarketplaceError::DescriptionEmpty);
}

#[test]
fn deactivation_preserves_data_and_history() {
    let mut listing = valid_listing();
    let note = listings::deactivate_listing(&mut listing, PROVIDER, 3000).unwrap();
    assert_eq!(note.listing_id, 501);
    assert_eq!(note.timestamp, 3000);
    assert!(!listing.is_active);
    assert_eq!(listing.title, "Risk report".to_string());
    assert_eq!(listing.price, 250);
    assert_eq!(listing.created_at, 1000);
    assert_eq!(listing.updated_at, 3000);
}

#[test]
fn deactivation_from_other_identity_is_unauthorized() {
    let mut listing = valid_listing();
    let r = listings::deactivate_listing(&mut listing, STRANGER, 3000);
    assert_eq!(r.unwrap_err(), ServiceMarketplaceError::Unauthorized);
    assert!(listing.is_active);
}

#[test]
fn listing_gate_consumes_the_activity_flag_from_the_record_store() {
    let mut reg = AgentRegistry::new(900);
    reg.register_agent(PROVIDER, "Provider".to_string(), vec![], vec![2], 1000).unwrap();
    let active = reg.get_agent(PROVIDER).map(|r| r.is_active).unwrap_or(false);
    assert!(listings::create_listing(
        502,
        PROVIDER,
        active,
        2,
        "Audit".to_string(),
        "Smart contract audit".to_string(),
        90,
        60,
        String::new(),
        1100,
    )
    .is_ok());
    let unknown_active = reg.get_agent(STRANGER).map(|r| r.is_active).unwrap_or(false);
    assert_eq!(
        listings::create_listing(
            503,
            STRANGER,
            unknown_active,
            2,
            "Audit".to_string(),
            "Smart contract audit".to_string(),
            90,
            60,
            String::new(),
            1100,
        )
        .unwrap_err(),
        ServiceMarketplaceError::AgentNotRegistered,
    );
}

#[test]
fn listing_error_messages_are_not_empty() {
    let errors = [
        ServiceMarketplaceError::TitleTooLong,
        ServiceMarketplaceError::TitleEmpty,
        ServiceMarketplaceError::DescriptionTooLong,
        ServiceMarketplaceError::DescriptionEmpty,
        ServiceMarketplaceError::RequirementsTooLong,
        ServiceMarketplaceError::InvalidServiceType,
        ServiceMarketplaceError::InvalidPrice,
        ServiceMarketplaceError::InvalidDeliveryTime,
        ServiceMarketplaceError::AgentNotRegistered,
        ServiceMarketplaceError::Unauthorized,
    ];
    for e in errors.iter() {
        assert!(!e.message().is_empty());
    }
}
