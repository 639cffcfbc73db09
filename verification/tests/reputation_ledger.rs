use agent_marketplace::errors::AgentRegistryError;
use agent_marketplace::registry::AgentRegistry;
use agent_marketplace::reputation::ReputationReason;

const AUTHORITY: u64 = 900;
const ALICE: u64 = 1;
const BOB: u64 = 2;

fn registered(authority: u64) -> AgentRegistry {
    let mut reg = AgentRegistry::new(authority);
    let r = reg.register_agent(
        ALICE,
        "Alice".to_string(),
        vec!["risk-analysis".to_string()],
        vec![2],
        1000,
    );
    assert!(r.is_ok());
    reg
}

#[test]
fn full_lifecycle_scenario() {
    let mut reg = registered(AUTHORITY);
    let rec = reg.get_agent(ALICE).unwrap();
    assert_eq!(rec.reputation_score, 0);
    assert_eq!(rec.total_services, 0);

    let note = reg
        .update_reputation(AUTHORITY, ALICE, 500, ReputationReason::ServiceCompleted, None, 1100)
        .unwrap();
    assert_eq!(note.new_score, 500);
    assert_eq!(reg.get_agent(ALICE).unwrap().reputation_score, 500);
    assert_eq!(reg.get_reputation_history(ALICE).len(), 1);

    let note = reg
        .update_reputation(AUTHORITY, ALICE, -11000, ReputationReason::DisputePenalty, None, 1200)
        .unwrap();
    assert_eq!(note.new_score, 0);
    assert_eq!(reg.get_agent(ALICE).unwrap().reputation_score, 0);

    let r = reg.update_agent_metadata(BOB, ALICE, Some("Mallory".to_string()), None, None, 1300);
    assert_eq!(r.unwrap_err(), AgentRegistryError::Unauthorized);
}

#[test]
fn score_saturates_at_upper_bound() {
    let mut reg = registered(AUTHORITY);
    let note = reg
        .update_reputation(AUTHORITY, ALICE, 20000, ReputationReason::PositiveReview, None, 1100)
        .unwrap();
    assert_eq!(note.new_score, 10000);
    let note = reg
        .update_reputation(AUTHORITY, ALICE, 5, ReputationReason::PositiveReview, None, 1200)
        .unwrap();
    assert_eq!(note.new_score, 10000);
}

#[test]
fn score_saturates_at_zero() {
    let mut reg = registered(AUTHORITY);
    let note = reg
        .update_reputation(AUTHORITY, ALICE, -5, ReputationReason::NegativeReview, None, 1100)
        .unwrap();
    assert_eq!(note.new_score, 0);
}

#[test]
fn score_stays_in_bounds_over_wild_sequences() {
    let mut reg = registered(AUTHORITY);
    let deltas: [i64; 8] = [i64::MAX, -3, i64::MIN, 700, -100000, 10000, 1, -1];
    let mut t: i64 = 1100;
    for d in deltas.iter() {
        let note = reg
            .update_reputation(AUTHORITY, ALICE, *d, ReputationReason::DisputeResolved, None, t)
            .unwrap();
        assert!(note.new_score <= 10000);
        assert_eq!(note.new_score, reg.get_agent(ALICE).unwrap().reputation_score);
        t += 1;
    }
}

#[test]
fn exact_accumulation_below_the_bounds() {
    let mut reg = registered(AUTHORITY);
    reg.update_reputation(AUTHORITY, ALICE, 300, ReputationReason::ServiceCompleted, None, 1100)
        .unwrap();
    reg.update_reputation(AUTHORITY, ALICE, -120, ReputationReason::NegativeReview, None, 1200)
        .unwrap();
    let note = reg
        .update_reputation(AUTHORITY, ALICE, 40, ReputationReason::PositiveReview, None, 1300)
        .unwrap();
    assert_eq!(note.new_score, 220);
}

#[test]
fn agent_itself_may_not_change_its_score() {
    let mut reg = registered(AUTHORITY);
    let r = reg.update_reputation(ALICE, ALICE, 500, ReputationReason::PositiveReview, None, 1100);
    assert_eq!(r.unwrap_err(), AgentRegistryError::Unauthorized);
    assert_eq!(reg.get_agent(ALICE).unwrap().reputation_score, 0);
    assert!(reg.get_reputation_history(ALICE).is_empty());
}

#[test]
fn reputation_change_for_unknown_agent_is_not_found() {
    let mut reg = registered(AUTHORITY);
    let r = reg.update_reputation(AUTHORITY, BOB, 500, ReputationReason::PositiveReview, None, 1100);
    assert_eq!(r.unwrap_err(), AgentRegistryError::AgentNotFound);
}

#[test]
fn history_is_empty_before_any_change() {
    let reg = registered(AUTHORITY);
    assert!(reg.get_reputation_history(ALICE).is_empty());
}

#[test]
fn history_keeps_events_oldest_first() {
    let mut reg = registered(AUTHORITY);
    reg.update_reputation(AUTHORITY, ALICE, 10, ReputationReason::ServiceCompleted, Some(71), 1100)
        .unwrap();
    reg.update_reputation(AUTHORITY, ALICE, -4, ReputationReason::NegativeReview, None, 1200)
        .unwrap();
    reg.update_reputation(AUTHORITY, ALICE, 9, ReputationReason::DisputeResolved, Some(72), 1300)
        .unwrap();
    let events = reg.get_reputation_history(ALICE);
    assert_eq!(events.len(), 3);
    assert_eq!(events[0].timestamp, 1100);
    assert_eq!(events[0].change, 10);
    assert_eq!(events[0].reason, ReputationReason::ServiceCompleted);
    assert_eq!(events[0].service_id, Some(71));
    assert_eq!(events[1].timestamp, 1200);
    assert_eq!(events[1].change, -4);
    assert_eq!(events[1].reason, ReputationReason::NegativeReview);
    assert_eq!(events[1].service_id, None);
    assert_eq!(events[2].timestamp, 1300);
    assert_eq!(events[2].change, 9);
    assert_eq!(events[2].reason, ReputationReason::DisputeResolved);
    assert_eq!(events[2].service_id, Some(72));
}

#[test]
fn ledger_caps_at_one_hundred_and_evicts_the_oldest() {
    let mut reg = registered(AUTHORITY);
    for i in 0..100i64 {
        reg.update_reputation(AUTHORITY, ALICE, i, ReputationReason::PositiveReview, None, 1000 + i)
            .unwrap();
    }
    let events = reg.get_reputation_history(ALICE);
    assert_eq!(events.len(), 100);
    assert_eq!(events[0].change, 0);

    // The 101st append keeps the length at 100; the new oldest entry is
    // the one that was previously second.
    reg.update_reputation(AUTHORITY, ALICE, 100, ReputationReason::PositiveReview, None, 1100)
        .unwrap();
    let events = reg.get_reputation_history(ALICE);
    assert_eq!(events.len(), 100);
    assert_eq!(events[0].change, 1);
    assert_eq!(events[0].timestamp, 1001);
    assert_eq!(events[99].change, 100);
    assert_eq!(events[99].timestamp, 1100);
}

#[test]
fn ledgers_of_different_agents_are_independent() {
    let mut reg = registered(AUTHORITY);
    reg.register_agent(BOB, "Bob".to_string(), vec![], vec![3], 1001).unwrap();
    reg.update_reputation(AUTHORITY, ALICE, 7, ReputationReason::PositiveReview, None, 1100)
        .unwrap();
    assert!(reg.get_reputation_history(BOB).is_empty());
    assert_eq!(reg.get_agent(BOB).unwrap().reputation_score, 0);
}
