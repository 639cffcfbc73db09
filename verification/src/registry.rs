//! The agent record store and its reputation ledgers: one record per
//! registered identity, one bounded event log per identity, and the
//! authorization gate in front of every mutation. The agent owns its
//! profile; a single trusted authority, injected at construction, owns
//! score mutation. Each operation commits fully or leaves the store
//! untouched.

use std::collections::HashMap;
use vstd::prelude::*;
use vstd::std_specs::hash::group_hash_axioms;

use crate::errors::AgentRegistryError;
use crate::events::{AgentMetadataUpdatedEvent, AgentRegisteredEvent, ReputationChangedEvent};
use crate::reputation::{
    apply_score_change, clamped_score, ledger_append, push_event, ReputationEvent,
    ReputationHistory, ReputationReason, MAX_REPUTATION_EVENTS, MAX_REPUTATION_SCORE,
};
use crate::validate::{
    capabilities_error, name_error, service_types_error, valid_capabilities, valid_name,
    valid_service_types, validate_capabilities, validate_name, validate_service_types,
};

verus! {

broadcast use group_hash_axioms;

/// One registered agent's profile, counters, and current score.
#[derive(Debug)]
pub struct AgentAccount {
    /// The identity key that registered the record; immutable.
    pub agent_id: u64,
    /// Display name, 1 to `MAX_NAME_LENGTH` characters.
    pub name: String,
    /// Capability entries, at most `MAX_CAPABILITIES`, each 1 to
    /// `MAX_CAPABILITY_LENGTH` characters.
    pub capabilities: Vec<String>,
    /// Supported service type codes, 1 to `MAX_SERVICE_TYPES` entries.
    pub service_types: Vec<u8>,
    /// Current trust score, always in `[0, MAX_REPUTATION_SCORE]`.
    pub reputation_score: u64,
    /// Total number of services taken on.
    pub total_services: u64,
    /// Number of services completed successfully.
    pub successful_services: u64,
    /// Total tokens earned.
    pub total_earned: u64,
    /// When the record was created; immutable.
    pub registration_time: i64,
    /// Whether the agent is active; deactivation is a flag, not removal.
    pub is_active: bool,
}

/// The field constraints every stored record satisfies.
pub open spec fn valid_record(r: AgentAccount) -> bool {
    &&& valid_name(r.name@)
    &&& valid_capabilities(r.capabilities@)
    &&& valid_service_types(r.service_types@)
    &&& r.reputation_score <= MAX_REPUTATION_SCORE
}

/// The record a successful registration creates: zero score, zero
/// counters, active.
pub open spec fn fresh_record(
    agent_id: u64,
    name: String,
    capabilities: Vec<String>,
    service_types: Vec<u8>,
    now: i64,
) -> AgentAccount {
    AgentAccount {
        agent_id,
        name,
        capabilities,
        service_types,
        reputation_score: 0,
        total_services: 0,
        successful_services: 0,
        total_earned: 0,
        registration_time: now,
        is_active: true,
    }
}

/// A registration every gate admits: a new identity with valid fields.
pub open spec fn registration_allowed(
    records: Map<u64, AgentAccount>,
    caller: u64,
    name: String,
    capabilities: Vec<String>,
    service_types: Vec<u8>,
) -> bool {
    &&& !records.contains_key(caller)
    &&& valid_name(name@)
    &&& valid_capabilities(capabilities@)
    &&& valid_service_types(service_types@)
}

/// The error a registration draws, checked in order: a duplicate
/// identity first, then the name, the capabilities, the service types.
pub open spec fn register_error(
    records: Map<u64, AgentAccount>,
    caller: u64,
    name: String,
    capabilities: Vec<String>,
    service_types: Vec<u8>,
) -> Option<AgentRegistryError> {
    if records.contains_key(caller) {
        Some(AgentRegistryError::AgentAlreadyRegistered)
    } else if name_error(name@) is Some {
        name_error(name@)
    } else if capabilities_error(capabilities@) is Some {
        capabilities_error(capabilities@)
    } else {
        service_types_error(service_types@)
    }
}

/// The new value of an optional field: the provided value, or the
/// stored one when none was provided.
pub open spec fn or_current<T>(provided: Option<T>, current: T) -> T {
    match provided {
        Some(v) => v,
        None => current,
    }
}

/// The record after a metadata update: each provided field replaces the
/// stored value, omitted fields and all counters stay untouched.
pub open spec fn updated_record(
    r: AgentAccount,
    name: Option<String>,
    capabilities: Option<Vec<String>>,
    service_types: Option<Vec<u8>>,
) -> AgentAccount {
    AgentAccount {
        agent_id: r.agent_id,
        name: or_current(name, r.name),
        capabilities: or_current(capabilities, r.capabilities),
        service_types: or_current(service_types, r.service_types),
        reputation_score: r.reputation_score,
        total_services: r.total_services,
        successful_services: r.successful_services,
        total_earned: r.total_earned,
        registration_time: r.registration_time,
        is_active: r.is_active,
    }
}

/// The error a metadata update draws, checked in order: an unknown
/// identity, an alien caller, then each provided field under the same
/// rules as registration.
pub open spec fn metadata_error(
    records: Map<u64, AgentAccount>,
    caller: u64,
    agent_id: u64,
    name: Option<String>,
    capabilities: Option<Vec<String>>,
    service_types: Option<Vec<u8>>,
) -> Option<AgentRegistryError> {
    if !records.contains_key(agent_id) {
        Some(AgentRegistryError::AgentNotFound)
    } else if caller != agent_id {
        Some(AgentRegistryError::Unauthorized)
    } else {
        let ne = match name {
            Some(n) => name_error(n@),
            None => None,
        };
        let ce = match capabilities {
            Some(c) => capabilities_error(c@),
            None => None,
        };
        let te = match service_types {
            Some(t) => service_types_error(t@),
            None => None,
        };
        if ne is Some {
            ne
        } else if ce is Some {
            ce
        } else {
            te
        }
    }
}

/// The error a reputation change draws, checked in order: a caller
/// other than the trusted authority, then an unknown identity.
pub open spec fn reputation_error(
    records: Map<u64, AgentAccount>,
    authority: u64,
    caller: u64,
    agent_id: u64,
) -> Option<AgentRegistryError> {
    if caller != authority {
        Some(AgentRegistryError::Unauthorized)
    } else if !records.contains_key(agent_id) {
        Some(AgentRegistryError::AgentNotFound)
    } else {
        None
    }
}

/// The record after one reputation change: only the score moves, and it
/// moves to the clamped sum.
pub open spec fn scored_record(r: AgentAccount, change: i64) -> AgentAccount {
    AgentAccount {
        agent_id: r.agent_id,
        name: r.name,
        capabilities: r.capabilities,
        service_types: r.service_types,
        reputation_score: clamped_score(r.reputation_score as int, change as int) as u64,
        total_services: r.total_services,
        successful_services: r.successful_services,
        total_earned: r.total_earned,
        registration_time: r.registration_time,
        is_active: r.is_active,
    }
}

/// Keyed storage for agent records and their reputation ledgers, with
/// the trusted authority for score mutation injected at construction.
pub struct AgentRegistry {
    authority: u64,
    records: HashMap<u64, AgentAccount>,
    ledgers: HashMap<u64, ReputationHistory>,
}

impl AgentRegistry {
    /// The identity allowed to apply reputation changes.
    pub closed spec fn spec_authority(&self) -> u64 {
        self.authority
    }

    /// The stored records, one per registered identity.
    pub closed spec fn spec_records(&self) -> Map<u64, AgentAccount> {
        self.records@
    }

    /// The stored ledgers, keyed by the identity they belong to.
    pub closed spec fn spec_ledgers(&self) -> Map<u64, ReputationHistory> {
        self.ledgers@
    }

    /// The event log of one identity, oldest first; empty while no
    /// change was ever recorded for it.
    pub open spec fn spec_history(&self, agent_id: u64) -> Seq<ReputationEvent> {
        if self.spec_ledgers().contains_key(agent_id) {
            self.spec_ledgers()[agent_id].events@
        } else {
            Seq::empty()
        }
    }

    /// The store's invariant: every record sits under its own identity
    /// and satisfies the field constraints; every ledger sits under its
    /// own identity, stays within the cap, and belongs to a registered
    /// identity.
    pub open spec fn wf(&self) -> bool {
        &&& forall|id: u64| #[trigger] self.spec_records().contains_key(id) ==> {
            &&& self.spec_records()[id].agent_id == id
            &&& valid_record(self.spec_records()[id])
        }
        &&& forall|id: u64| #[trigger] self.spec_ledgers().contains_key(id) ==> {
            &&& self.spec_ledgers()[id].agent_id == id
            &&& self.spec_ledgers()[id].events@.len() <= MAX_REPUTATION_EVENTS
            &&& self.spec_records().contains_key(id)
        }
    }

    /// An empty store that trusts `authority` with score mutation.
    pub fn new(authority: u64) -> (r: AgentRegistry)
        ensures
            r.wf(),
            r.spec_authority() == authority,
            r.spec_records() == Map::<u64, AgentAccount>::empty(),
            r.spec_ledgers() == Map::<u64, ReputationHistory>::empty(),
    {
        AgentRegistry { authority, records: HashMap::new(), ledgers: HashMap::new() }
    }

    /// The identity trusted with score mutation.
    pub fn authority(&self) -> (a: u64)
        ensures
            a == self.spec_authority(),
    {
        self.authority
    }

    /// Registers a new agent under the caller's own identity. Succeeds
    /// exactly on a new identity with valid fields; the created record
    /// starts with zero score, zero counters, and the active flag set.
    /// On failure the store is untouched and the error names the first
    /// violated rule.
    pub fn register_agent(
        &mut self,
        caller: u64,
        name: String,
        capabilities: Vec<String>,
        service_types: Vec<u8>,
        now: i64,
    ) -> (r: Result<AgentRegisteredEvent, AgentRegistryError>)
        requires
            old(self).wf(),
        ensures
            final(self).wf(),
            final(self).spec_authority() == old(self).spec_authority(),
            final(self).spec_ledgers() == old(self).spec_ledgers(),
            r is Ok <==> registration_allowed(
                old(self).spec_records(),
                caller,
                name,
                capabilities,
                service_types,
            ),
            match r {
                Ok(note) => {
                    &&& final(self).spec_records() == old(self).spec_records().insert(
                        caller,
                        fresh_record(caller, name, capabilities, service_types, now),
                    )
                    &&& note == (AgentRegisteredEvent { agent_id: caller, name, timestamp: now })
                },
                Err(e) => {
                    &&& final(self).spec_records() == old(self).spec_records()
                    &&& Some(e) == register_error(
                        old(self).spec_records(),
                        caller,
                        name,
                        capabilities,
                        service_types,
                    )
                },
            },
    {
        if self.records.contains_key(&caller) {
            return Err(AgentRegistryError::AgentAlreadyRegistered);
        }
        if let Err(e) = validate_name(&name) {
            return Err(e);
        }
        if let Err(e) = validate_capabilities(&capabilities) {
            return Err(e);
        }
        if let Err(e) = validate_service_types(&service_types) {
            return Err(e);
        }
        let note_name = name.clone();
        let record = AgentAccount {
            agent_id: caller,
            name,
            capabilities,
            service_types,
            reputation_score: 0,
            total_services: 0,
            successful_services: 0,
            total_earned: 0,
            registration_time: now,
            is_active: true,
        };
        self.records.insert(caller, record);
        proof {
            assert forall|id: u64| #[trigger] self.spec_records().contains_key(id) implies {
                &&& self.spec_records()[id].agent_id == id
                &&& valid_record(self.spec_records()[id])
            } by {
                if id != caller {
                    assert(old(self).spec_records().contains_key(id));
                }
            }
            assert forall|id: u64| #[trigger] self.spec_ledgers().contains_key(id) implies {
                &&& self.spec_ledgers()[id].agent_id == id
                &&& self.spec_ledgers()[id].events@.len() <= MAX_REPUTATION_EVENTS
                &&& self.spec_records().contains_key(id)
            } by {
                assert(old(self).spec_ledgers().contains_key(id));
                assert(old(self).spec_records().contains_key(id));
            }
        }
        Ok(AgentRegisteredEvent { agent_id: caller, name: note_name, timestamp: now })
    }

    /// Replaces the provided metadata fields of the caller's own
    /// record, re-validated under the same rules as registration.
    /// Succeeds exactly when the record exists, the caller is its
    /// owner, and every provided field is valid; omitted fields, the
    /// score, and all counters stay untouched. On failure the store is
    /// untouched.
    pub fn update_agent_metadata(
        &mut self,
        caller: u64,
        agent_id: u64,
        name: Option<String>,
        capabilities: Option<Vec<String>>,
        service_types: Option<Vec<u8>>,
        now: i64,
    ) -> (r: Result<AgentMetadataUpdatedEvent, AgentRegistryError>)
        requires
            old(self).wf(),
        ensures
            final(self).wf(),
            final(self).spec_authority() == old(self).spec_authority(),
            final(self).spec_ledgers() == old(self).spec_ledgers(),
            match r {
                Ok(note) => {
                    &&& metadata_error(
                        old(self).spec_records(),
                        caller,
                        agent_id,
                        name,
                        capabilities,
                        service_types,
                    ) is None
                    &&& final(self).spec_records() == old(self).spec_records().insert(
                        agent_id,
                        updated_record(
                            old(self).spec_records()[agent_id],
                            name,
                            capabilities,
                            service_types,
                        ),
                    )
                    &&& note == (AgentMetadataUpdatedEvent { agent_id, timestamp: now })
                },
                Err(e) => {
                    &&& final(self).spec_records() == old(self).spec_records()
                    &&& Some(e) == metadata_error(
                        old(self).spec_records(),
                        caller,
                        agent_id,
                        name,
                        capabilities,
                        service_types,
                    )
                },
            },
    {
        if !self.records.contains_key(&agent_id) {
            return Err(AgentRegistryError::AgentNotFound);
        }
        if caller != agent_id {
            return Err(AgentRegistryError::Unauthorized);
        }
        if let Some(n) = &name {
            if let Err(e) = validate_name(n) {
                return Err(e);
            }
        }
        if let Some(c) = &capabilities {
            if let Err(e) = validate_capabilities(c) {
                return Err(e);
            }
        }
        if let Some(t) = &service_types {
            if let Err(e) = validate_service_types(t) {
                return Err(e);
            }
        }
        let mut record = match self.records.remove(&agent_id) {
            Some(rec) => rec,
            None => {
                return Err(AgentRegistryError::AgentNotFound);
            },
        };
        if let Some(n) = name {
            record.name = n;
        }
        if let Some(c) = capabilities {
            record.capabilities = c;
        }
        if let Some(t) = service_types {
            record.service_types = t;
        }
        self.records.insert(agent_id, record);
        proof {
            assert(self.records@ =~= old(self).records@.insert(
                agent_id,
                updated_record(
                    old(self).spec_records()[agent_id],
                    name,
                    capabilities,
                    service_types,
                ),
            ));
            assert forall|id: u64| #[trigger] self.spec_records().contains_key(id) implies {
                &&& self.spec_records()[id].agent_id == id
                &&& valid_record(self.spec_records()[id])
            } by {
                assert(old(self).spec_records().contains_key(id));
            }
            assert forall|id: u64| #[trigger] self.spec_ledgers().contains_key(id) implies {
                &&& self.spec_ledgers()[id].agent_id == id
                &&& self.spec_ledgers()[id].events@.len() <= MAX_REPUTATION_EVENTS
                &&& self.spec_records().contains_key(id)
            } by {
                assert(old(self).spec_ledgers().contains_key(id));
                assert(old(self).spec_records().contains_key(id));
            }
        }
        Ok(AgentMetadataUpdatedEvent { agent_id, timestamp: now })
    }

    /// Applies one signed score delta on behalf of the trusted
    /// authority: the stored score moves to the clamped sum, and one
    /// event is appended to the agent's ledger, evicting the oldest
    /// entry when the ledger is full. Succeeds exactly when the caller
    /// is the authority and the record exists; on failure the store is
    /// untouched.
    pub fn update_reputation(
        &mut self,
        caller: u64,
        agent_id: u64,
        change: i64,
        reason: ReputationReason,
        service_id: Option<u64>,
        now: i64,
    ) -> (r: Result<ReputationChangedEvent, AgentRegistryError>)
        requires
            old(self).wf(),
        ensures
            final(self).wf(),
            final(self).spec_authority() == old(self).spec_authority(),
            r is Ok <==> reputation_error(
                old(self).spec_records(),
                old(self).spec_authority(),
                caller,
                agent_id,
            ) is None,
            match r {
                Ok(note) => {
                    &&& final(self).spec_records() == old(self).spec_records().insert(
                        agent_id,
                        scored_record(old(self).spec_records()[agent_id], change),
                    )
                    &&& final(self).spec_ledgers().dom() == old(self).spec_ledgers().dom().insert(
                        agent_id,
                    )
                    &&& forall|k: u64|
                        k != agent_id && old(self).spec_ledgers().contains_key(k)
                            ==> final(self).spec_ledgers()[k] == old(self).spec_ledgers()[k]
                    &&& final(self).spec_history(agent_id) == ledger_append(
                        old(self).spec_history(agent_id),
                        (ReputationEvent { timestamp: now, change, reason, service_id }),
                    )
                    &&& note == (ReputationChangedEvent {
                        agent_id,
                        new_score: clamped_score(
                            old(self).spec_records()[agent_id].reputation_score as int,
                            change as int,
                        ) as u64,
                        change,
                        reason,
                        service_id,
                        timestamp: now,
                    })
                },
                Err(e) => {
                    &&& final(self).spec_records() == old(self).spec_records()
                    &&& final(self).spec_ledgers() == old(self).spec_ledgers()
                    &&& Some(e) == reputation_error(
                        old(self).spec_records(),
                        old(self).spec_authority(),
                        caller,
                        agent_id,
                    )
                },
            },
    {
        if caller != self.authority {
            return Err(AgentRegistryError::Unauthorized);
        }
        let mut record = match self.records.remove(&agent_id) {
            Some(rec) => rec,
            None => {
                proof {
                    assert(self.records@ =~= old(self).records@);
                    assert(self.spec_records() == old(self).spec_records());
                    assert(self.spec_ledgers() == old(self).spec_ledgers());
                    assert(self.wf());
                }
                return Err(AgentRegistryError::AgentNotFound);
            },
        };
        let new_score = apply_score_change(record.reputation_score, change);
        record.reputation_score = new_score;
        let event = ReputationEvent { timestamp: now, change, reason, service_id };
        let mut history = match self.ledgers.remove(&agent_id) {
            Some(h) => {
                proof {
                    assert(old(self).spec_ledgers().contains_key(agent_id));
                }
                h
            },
            None => ReputationHistory { agent_id, events: Vec::new() },
        };
        push_event(&mut history.events, event);
        self.ledgers.insert(agent_id, history);
        self.records.insert(agent_id, record);
        proof {
            assert(self.records@ =~= old(self).records@.insert(
                agent_id,
                scored_record(old(self).spec_records()[agent_id], change),
            ));
            assert(self.ledgers@.dom() =~= old(self).ledgers@.dom().insert(agent_id));
            assert forall|id: u64| #[trigger] self.spec_records().contains_key(id) implies {
                &&& self.spec_records()[id].agent_id == id
                &&& valid_record(self.spec_records()[id])
            } by {
                assert(old(self).spec_records().contains_key(id));
            }
            assert forall|id: u64| #[trigger] self.spec_ledgers().contains_key(id) implies {
                &&& self.spec_ledgers()[id].agent_id == id
                &&& self.spec_ledgers()[id].events@.len() <= MAX_REPUTATION_EVENTS
                &&& self.spec_records().contains_key(id)
            } by {
                if id != agent_id {
                    assert(old(self).spec_ledgers().contains_key(id));
                    assert(old(self).spec_records().contains_key(id));
                }
            }
        }
        Ok(ReputationChangedEvent {
            agent_id,
            new_score,
            change,
            reason,
            service_id,
            timestamp: now,
        })
    }

    /// Reads one record; `None` exactly when the identity is unknown.
    pub fn get_agent(&self, agent_id: u64) -> (r: Option<&AgentAccount>)
        ensures
            match r {
                Some(rec) => self.spec_records().contains_key(agent_id) && *rec
                    == self.spec_records()[agent_id],
                None => !self.spec_records().contains_key(agent_id),
            },
    {
        self.records.get(&agent_id)
    }

    /// Reads one identity's event log, oldest first; empty while no
    /// change was ever recorded for it.
    pub fn get_reputation_history(&self, agent_id: u64) -> (events: Vec<ReputationEvent>)
        ensures
            events@ == self.spec_history(agent_id),
    {
        let mut out: Vec<ReputationEvent> = Vec::new();
        match self.ledgers.get(&agent_id) {
            None => {},
            Some(history) => {
                let mut i: usize = 0;
                while i < history.events.len()
                    invariant
                        i <= history.events@.len(),
                        out@ =~= history.events@.take(i as int),
                    decreases history.events@.len() - i,
                {
                    out.push(history.events[i]);
                    i = i + 1;
                }
                proof {
                    assert(history.events@.take(history.events@.len() as int)
                        =~= history.events@);
                }
            },
        }
        out
    }
}

/// Idempotent rejection of duplicate registration: once an identity has
/// registered, no later registration under it is admitted, and the
/// record the first registration created still sits under the identity,
/// untouched.
pub proof fn lemma_register_idempotent_reject(
    records: Map<u64, AgentAccount>,
    caller: u64,
    name1: String,
    capabilities1: Vec<String>,
    service_types1: Vec<u8>,
    now1: i64,
    name2: String,
    capabilities2: Vec<String>,
    service_types2: Vec<u8>,
)
    requires
        registration_allowed(records, caller, name1, capabilities1, service_types1),
    ensures
        !registration_allowed(
            records.insert(caller, fresh_record(caller, name1, capabilities1, service_types1, now1)),
            caller,
            name2,
            capabilities2,
            service_types2,
        ),
        register_error(
            records.insert(caller, fresh_record(caller, name1, capabilities1, service_types1, now1)),
            caller,
            name2,
            capabilities2,
            service_types2,
        ) == Some(AgentRegistryError::AgentAlreadyRegistered),
        records.insert(caller, fresh_record(caller, name1, capabilities1, service_types1, now1))[
            caller] == fresh_record(caller, name1, capabilities1, service_types1, now1),
{
}

/// A registration every gate admits creates its record with zero score
/// and the active flag set.
pub proof fn lemma_registration_starts_neutral(
    agent_id: u64,
    name: String,
    capabilities: Vec<String>,
    service_types: Vec<u8>,
    now: i64,
)
    ensures
        fresh_record(agent_id, name, capabilities, service_types, now).reputation_score == 0,
        fresh_record(agent_id, name, capabilities, service_types, now).is_active,
{
}

} // verus!
