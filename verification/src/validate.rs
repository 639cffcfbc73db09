//! Field-level constraints applied before any mutation of the record
//! store commits. The predicates are pure; the executable validators
//! return exactly the error of the first violated rule, scanning in the
//! same order at registration and at update time.

use vstd::prelude::*;

use crate::errors::AgentRegistryError;

verus! {

/// Longest allowed agent name, in characters.
pub const MAX_NAME_LENGTH: usize = 50;

/// Most capability entries one record may hold.
pub const MAX_CAPABILITIES: usize = 10;

/// Longest allowed capability entry, in characters.
pub const MAX_CAPABILITY_LENGTH: usize = 30;

/// Most service type entries one record may hold.
pub const MAX_SERVICE_TYPES: usize = 10;

/// A name is non-empty and at most `MAX_NAME_LENGTH` characters.
pub open spec fn valid_name(name: Seq<char>) -> bool {
    1 <= name.len() <= MAX_NAME_LENGTH
}

/// A capability entry is non-empty and at most `MAX_CAPABILITY_LENGTH`
/// characters.
pub open spec fn valid_capability(c: Seq<char>) -> bool {
    1 <= c.len() <= MAX_CAPABILITY_LENGTH
}

/// At most `MAX_CAPABILITIES` entries, each one valid on its own.
pub open spec fn valid_capabilities(caps: Seq<String>) -> bool {
    &&& caps.len() <= MAX_CAPABILITIES
    &&& forall|i: int| 0 <= i < caps.len() ==> valid_capability(#[trigger] caps[i]@)
}

/// The service type list is non-empty and at most `MAX_SERVICE_TYPES`
/// entries long.
pub open spec fn valid_service_types(types: Seq<u8>) -> bool {
    1 <= types.len() <= MAX_SERVICE_TYPES
}

/// The error a name draws: emptiness is checked before length.
pub open spec fn name_error(name: Seq<char>) -> Option<AgentRegistryError> {
    if name.len() == 0 {
        Some(AgentRegistryError::NameEmpty)
    } else if name.len() > MAX_NAME_LENGTH {
        Some(AgentRegistryError::NameTooLong)
    } else {
        None
    }
}

/// The error one capability entry draws: emptiness is checked before
/// length.
pub open spec fn capability_error(c: Seq<char>) -> Option<AgentRegistryError> {
    if c.len() == 0 {
        Some(AgentRegistryError::CapabilityEmpty)
    } else if c.len() > MAX_CAPABILITY_LENGTH {
        Some(AgentRegistryError::CapabilityTooLong)
    } else {
        None
    }
}

/// The error of the first invalid capability entry, scanning oldest
/// first; `None` when every entry is valid.
pub open spec fn capabilities_scan(caps: Seq<String>) -> Option<AgentRegistryError>
    decreases caps.len(),
{
    if caps.len() == 0 {
        None
    } else if capability_error(caps[0]@) is Some {
        capability_error(caps[0]@)
    } else {
        capabilities_scan(caps.drop_first())
    }
}

/// The error a capability list draws: the count is checked before the
/// entries are scanned.
pub open spec fn capabilities_error(caps: Seq<String>) -> Option<AgentRegistryError> {
    if caps.len() > MAX_CAPABILITIES {
        Some(AgentRegistryError::TooManyCapabilities)
    } else {
        capabilities_scan(caps)
    }
}

/// The error a service type list draws: emptiness is checked before the
/// count.
pub open spec fn service_types_error(types: Seq<u8>) -> Option<AgentRegistryError> {
    if types.len() == 0 {
        Some(AgentRegistryError::ServiceTypesEmpty)
    } else if types.len() > MAX_SERVICE_TYPES {
        Some(AgentRegistryError::TooManyServiceTypes)
    } else {
        None
    }
}

/// Turns the outcome of an error scan into the result a validator hands
/// back.
pub open spec fn validation_result(e: Option<AgentRegistryError>) -> Result<
    (),
    AgentRegistryError,
> {
    match e {
        None => Ok(()),
        Some(err) => Err(err),
    }
}

/// The entry scan accepts a capability list exactly when every entry is
/// valid on its own.
pub proof fn lemma_capabilities_scan_none(caps: Seq<String>)
    ensures
        capabilities_scan(caps) is None <==> (forall|i: int|
            0 <= i < caps.len() ==> valid_capability(#[trigger] caps[i]@)),
    decreases caps.len(),
{
    if caps.len() == 0 {
    } else {
        lemma_capabilities_scan_none(caps.drop_first());
        assert(forall|i: int|
            1 <= i < caps.len() ==> caps.drop_first()[i - 1] == #[trigger] caps[i]);
        if capability_error(caps[0]@) is None && capabilities_scan(caps.drop_first()) is None {
            assert forall|i: int| 0 <= i < caps.len() implies valid_capability(
                #[trigger] caps[i]@,
            ) by {
                if i > 0 {
                    assert(caps.drop_first()[i - 1] == caps[i]);
                }
            }
        }
    }
}

/// Checks a name against the registration rules.
pub fn validate_name(name: &String) -> (r: Result<(), AgentRegistryError>)
    ensures
        r == validation_result(name_error(name@)),
        r is Ok <==> valid_name(name@),
{
    if name.as_str().is_empty() {
        Err(AgentRegistryError::NameEmpty)
    } else if name.as_str().unicode_len() > MAX_NAME_LENGTH {
        Err(AgentRegistryError::NameTooLong)
    } else {
        Ok(())
    }
}

/// Checks a capability list against the registration rules.
pub fn validate_capabilities(caps: &Vec<String>) -> (r: Result<(), AgentRegistryError>)
    ensures
        r == validation_result(capabilities_error(caps@)),
        r is Ok <==> valid_capabilities(caps@),
{
    if caps.len() > MAX_CAPABILITIES {
        return Err(AgentRegistryError::TooManyCapabilities);
    }
    let mut i: usize = 0;
    proof {
        assert(caps@.skip(0) =~= caps@);
    }
    while i < caps.len()
        invariant
            i <= caps@.len() <= MAX_CAPABILITIES,
            forall|j: int| 0 <= j < i ==> valid_capability(#[trigger] caps@[j]@),
            capabilities_scan(caps@) == capabilities_scan(caps@.skip(i as int)),
        decreases caps@.len() - i,
    {
        proof {
            assert(caps@.skip(i as int)[0] == caps@[i as int]);
        }
        let c = &caps[i];
        if c.as_str().is_empty() {
            return Err(AgentRegistryError::CapabilityEmpty);
        }
        if c.as_str().unicode_len() > MAX_CAPABILITY_LENGTH {
            return Err(AgentRegistryError::CapabilityTooLong);
        }
        proof {
            assert(caps@.skip(i as int).drop_first() =~= caps@.skip(i as int + 1));
        }
        i = i + 1;
    }
    proof {
        assert(caps@.skip(caps@.len() as int) =~= Seq::<String>::empty());
        lemma_capabilities_scan_none(caps@);
    }
    Ok(())
}

/// Checks a service type list against the registration rules.
pub fn validate_service_types(types: &Vec<u8>) -> (r: Result<(), AgentRegistryError>)
    ensures
        r == validation_result(service_types_error(types@)),
        r is Ok <==> valid_service_types(types@),
{
    if types.len() == 0 {
        Err(AgentRegistryError::ServiceTypesEmpty)
    } else if types.len() > MAX_SERVICE_TYPES {
        Err(AgentRegistryError::TooManyServiceTypes)
    } else {
        Ok(())
    }
}

} // verus!
