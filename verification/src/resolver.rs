//! Choosing the UART service and its two characteristics among what
//! discovery found on a connected peripheral.

use vstd::prelude::*;
use crate::error::SessionError;
use crate::first::{first_index, is_first, lemma_first_index, lemma_first_unique, none_of};
use crate::uuid::{
    is_nus_service, lemma_profile_uuids_distinct, same_uuid, uuid_matches, NUS_RX_UUID,
    NUS_SERVICE_UUID, NUS_TX_UUID,
};

verus! {

/// A service as discovery reported it.
#[derive(Clone, Debug, PartialEq, Eq)]
pub struct DiscoveredService {
    /// The identifier of the service.
    pub uuid: String,
    /// The identifiers of its characteristics, in discovery order.
    pub characteristics: Vec<String>,
}

/// The write target and the notify source of one service, as positions
/// in the list of its characteristics.
#[derive(Clone, Copy, Debug, PartialEq, Eq, Structural)]
pub struct CharacteristicPair {
    /// The characteristic the central writes to.
    pub rx: usize,
    /// The characteristic the peripheral notifies on.
    pub tx: usize,
}

/// A resolved profile: the position of the service among the services,
/// and of the two characteristics among those of that service.
#[derive(Clone, Copy, Debug, PartialEq, Eq, Structural)]
pub struct ResolvedProfile {
    pub service: usize,
    pub rx: usize,
    pub tx: usize,
}

/// The test for an identifier that matches `wanted`.
pub open spec fn has_uuid(wanted: Seq<char>) -> spec_fn(String) -> bool {
    |uuid: String| same_uuid(uuid@, wanted)
}

/// The test for a service that is the UART service.
pub open spec fn is_uart_service() -> spec_fn(DiscoveredService) -> bool {
    |service: DiscoveredService| same_uuid(service.uuid@, NUS_SERVICE_UUID@)
}

/// `i` is the position of the first identifier in `uuids` that matches `wanted`.
pub open spec fn is_first_uuid(uuids: Seq<String>, wanted: Seq<char>, i: int) -> bool {
    is_first(uuids, has_uuid(wanted), i)
}

/// No identifier in `uuids` matches `wanted`.
pub open spec fn lacks_uuid(uuids: Seq<String>, wanted: Seq<char>) -> bool {
    none_of(uuids, has_uuid(wanted))
}

/// The position of the first identifier in `uuids` that matches `wanted`.
pub open spec fn first_uuid(uuids: Seq<String>, wanted: Seq<char>) -> Option<int> {
    first_index(uuids, has_uuid(wanted))
}

/// `pair` names the first write target and the first notify source in `uuids`.
pub open spec fn is_pair_of(uuids: Seq<String>, pair: CharacteristicPair) -> bool {
    &&& is_first_uuid(uuids, NUS_RX_UUID@, pair.rx as int)
    &&& is_first_uuid(uuids, NUS_TX_UUID@, pair.tx as int)
}

/// `i` is the position of the first service in `profile` that is the UART service.
pub open spec fn is_first_service(profile: Seq<DiscoveredService>, i: int) -> bool {
    is_first(profile, is_uart_service(), i)
}

/// No service in `profile` is the UART service.
pub open spec fn lacks_service(profile: Seq<DiscoveredService>) -> bool {
    none_of(profile, is_uart_service())
}

/// `p` is the resolution of `profile`: the first UART service, and in it
/// the first write target and the first notify source.
pub open spec fn is_resolution(profile: Seq<DiscoveredService>, p: ResolvedProfile) -> bool {
    &&& is_first_service(profile, p.service as int)
    &&& is_pair_of(
        profile[p.service as int].characteristics@,
        CharacteristicPair { rx: p.rx, tx: p.tx },
    )
}

/// `profile` cannot be resolved: it has no UART service, or the first one
/// lacks the write target or the notify source.
pub open spec fn is_unsupported(profile: Seq<DiscoveredService>) -> bool {
    ||| lacks_service(profile)
    ||| exists|i: int|
        {
            &&& is_first_service(profile, i)
            &&& (lacks_uuid(profile[i].characteristics@, NUS_RX_UUID@) || lacks_uuid(
                profile[i].characteristics@,
                NUS_TX_UUID@,
            ))
        }
}

/// The service to use, given the identifiers of the discovered services.
pub open spec fn service_choice(services: Seq<String>) -> Result<usize, SessionError> {
    match first_uuid(services, NUS_SERVICE_UUID@) {
        Some(i) => Ok(i as usize),
        None => Err(SessionError::ProfileUnsupported),
    }
}

/// The two characteristics to use, given the identifiers of those that
/// the chosen service has.
pub open spec fn pair_choice(characteristics: Seq<String>) -> Result<
    CharacteristicPair,
    SessionError,
> {
    match (first_uuid(characteristics, NUS_RX_UUID@), first_uuid(characteristics, NUS_TX_UUID@)) {
        (Some(rx), Some(tx)) => Ok(CharacteristicPair { rx: rx as usize, tx: tx as usize }),
        _ => Err(SessionError::ProfileUnsupported),
    }
}

/// The resolution of a whole profile.
pub open spec fn resolution(profile: Seq<DiscoveredService>) -> Result<
    ResolvedProfile,
    SessionError,
> {
    match first_index(profile, is_uart_service()) {
        Some(i) => match pair_choice(profile[i].characteristics@) {
            Ok(pair) => Ok(ResolvedProfile { service: i as usize, rx: pair.rx, tx: pair.tx }),
            Err(e) => Err(e),
        },
        None => Err(SessionError::ProfileUnsupported),
    }
}

/// The position of the first identifier in `uuids` that matches `wanted`.
pub fn first_uuid_match(uuids: &Vec<String>, wanted: &str) -> (found: Option<usize>)
    ensures
        match found {
            Some(i) => is_first_uuid(uuids@, wanted@, i as int),
            None => lacks_uuid(uuids@, wanted@),
        },
        match found {
            Some(i) => first_uuid(uuids@, wanted@) == Some(i as int),
            None => first_uuid(uuids@, wanted@) is None,
        },
{
    let mut i: usize = 0;
    while i < uuids.len()
        invariant
            i <= uuids.len(),
            forall|j: int| 0 <= j < i ==> !has_uuid(wanted@)(#[trigger] uuids@[j]),
        decreases uuids.len() - i,
    {
        if uuid_matches(uuids[i].as_str(), wanted) {
            proof {
                lemma_first_index(uuids@, has_uuid(wanted@));
            }
            return Some(i);
        }
        i += 1;
    }
    None
}

/// Picks the UART service among the identifiers of the discovered
/// services: the first that matches, whatever follows it.
pub fn select_service(services: &Vec<String>) -> (picked: Result<usize, SessionError>)
    ensures
        picked == service_choice(services@),
        match picked {
            Ok(i) => is_first_uuid(services@, NUS_SERVICE_UUID@, i as int),
            Err(e) => e == SessionError::ProfileUnsupported && lacks_uuid(
                services@,
                NUS_SERVICE_UUID@,
            ),
        },
{
    match first_uuid_match(services, NUS_SERVICE_UUID) {
        Some(i) => Ok(i),
        None => Err(SessionError::ProfileUnsupported),
    }
}

/// Picks the write target and the notify source among the identifiers of
/// the characteristics of the chosen service. Both are needed: with either
/// one missing there is no pair.
pub fn select_characteristics(characteristics: &Vec<String>) -> (picked: Result<
    CharacteristicPair,
    SessionError,
>)
    ensures
        picked == pair_choice(characteristics@),
        match picked {
            Ok(pair) => is_pair_of(characteristics@, pair),
            Err(e) => {
                &&& e == SessionError::ProfileUnsupported
                &&& (lacks_uuid(characteristics@, NUS_RX_UUID@) || lacks_uuid(
                    characteristics@,
                    NUS_TX_UUID@,
                ))
            },
        },
{
    let rx = first_uuid_match(characteristics, NUS_RX_UUID);
    let tx = first_uuid_match(characteristics, NUS_TX_UUID);
    match (rx, tx) {
        (Some(rx), Some(tx)) => Ok(CharacteristicPair { rx, tx }),
        _ => Err(SessionError::ProfileUnsupported),
    }
}

/// Resolves a whole discovered profile: the service first, then its two
/// characteristics. Either all three are found or the profile is refused.
pub fn resolve(profile: &Vec<DiscoveredService>) -> (resolved: Result<
    ResolvedProfile,
    SessionError,
>)
    ensures
        resolved == resolution(profile@),
        match resolved {
            Ok(p) => is_resolution(profile@, p),
            Err(e) => e == SessionError::ProfileUnsupported && is_unsupported(profile@),
        },
{
    let mut i: usize = 0;
    while i < profile.len()
        invariant
            i <= profile.len(),
            forall|j: int| 0 <= j < i ==> !is_uart_service()(#[trigger] profile@[j]),
        decreases profile.len() - i,
    {
        if is_nus_service(profile[i].uuid.as_str()) {
            proof {
                lemma_first_index(profile@, is_uart_service());
            }
            assert(is_first_service(profile@, i as int));
            return match select_characteristics(&profile[i].characteristics) {
                Ok(pair) => Ok(ResolvedProfile { service: i, rx: pair.rx, tx: pair.tx }),
                Err(e) => Err(e),
            };
        }
        i += 1;
    }
    Err(SessionError::ProfileUnsupported)
}

/// The service the resolver picks is the first UART service among the
/// identifiers; it picks none only where there is none.
pub proof fn lemma_service_choice(services: Seq<String>)
    requires
        services.len() <= usize::MAX,
    ensures
        match service_choice(services) {
            Ok(i) => is_first_uuid(services, NUS_SERVICE_UUID@, i as int),
            Err(e) => e == SessionError::ProfileUnsupported && lacks_uuid(
                services,
                NUS_SERVICE_UUID@,
            ),
        },
{
    lemma_first_index(services, has_uuid(NUS_SERVICE_UUID@));
}

/// The pair the resolver picks is the first write target and the first
/// notify source, and the two differ; it picks none only where one of the
/// two is missing.
pub proof fn lemma_pair_choice(characteristics: Seq<String>)
    requires
        characteristics.len() <= usize::MAX,
    ensures
        match pair_choice(characteristics) {
            Ok(pair) => is_pair_of(characteristics, pair) && pair.rx != pair.tx,
            Err(e) => {
                &&& e == SessionError::ProfileUnsupported
                &&& (lacks_uuid(characteristics, NUS_RX_UUID@) || lacks_uuid(
                    characteristics,
                    NUS_TX_UUID@,
                ))
            },
        },
{
    lemma_first_index(characteristics, has_uuid(NUS_RX_UUID@));
    lemma_first_index(characteristics, has_uuid(NUS_TX_UUID@));
    if let Ok(pair) = pair_choice(characteristics) {
        lemma_rx_and_tx_differ(characteristics, pair);
    }
}

/// A profile is resolved or unsupported, never both, and a resolution is
/// the only one.
pub proof fn lemma_resolution_decided(profile: Seq<DiscoveredService>)
    requires
        profile.len() <= usize::MAX,
        forall|i: int|
            0 <= i < profile.len() ==> (#[trigger] profile[i]).characteristics@.len()
                <= usize::MAX,
    ensures
        match resolution(profile) {
            Ok(p) => is_resolution(profile, p) && !is_unsupported(profile),
            Err(e) => e == SessionError::ProfileUnsupported && is_unsupported(profile),
        },
        forall|p: ResolvedProfile| is_resolution(profile, p) ==> resolution(profile) == Ok::<ResolvedProfile, SessionError>(p),
{
    lemma_first_index(profile, is_uart_service());
    match first_index(profile, is_uart_service()) {
        Some(i) => {
            let chars = profile[i].characteristics@;
            lemma_first_index(chars, has_uuid(NUS_RX_UUID@));
            lemma_first_index(chars, has_uuid(NUS_TX_UUID@));
            assert(is_first_service(profile, i));
        },
        None => {},
    }
    assert forall|p: ResolvedProfile| is_resolution(profile, p) implies resolution(profile) == Ok::<
        ResolvedProfile,
        SessionError,
    >(p) by {
        let chars = profile[p.service as int].characteristics@;
        lemma_first_index(chars, has_uuid(NUS_RX_UUID@));
        lemma_first_index(chars, has_uuid(NUS_TX_UUID@));
    }
    if let Ok(p) = resolution(profile) {
        if is_unsupported(profile) {
            lemma_unsupported_has_no_resolution(profile, p);
        }
    }
}

/// A profile that lacks any one of the three identifiers has no
/// resolution: there is no session on part of a profile.
pub proof fn lemma_unsupported_has_no_resolution(
    profile: Seq<DiscoveredService>,
    p: ResolvedProfile,
)
    requires
        is_unsupported(profile),
    ensures
        !is_resolution(profile, p),
{
    if is_resolution(profile, p) {
        let s = p.service as int;
        assert(is_uart_service()(profile[s]));
        if !lacks_service(profile) {
            let i = choose|i: int|
                {
                    &&& is_first_service(profile, i)
                    &&& (lacks_uuid(profile[i].characteristics@, NUS_RX_UUID@) || lacks_uuid(
                        profile[i].characteristics@,
                        NUS_TX_UUID@,
                    ))
                };
            lemma_first_unique(profile, is_uart_service(), i, s);
            let chars = profile[s].characteristics@;
            assert(has_uuid(NUS_RX_UUID@)(chars[p.rx as int]));
            assert(has_uuid(NUS_TX_UUID@)(chars[p.tx as int]));
        }
    }
}

/// The write target and the notify source of a resolved profile are two
/// different characteristics, and neither can stand in for the other.
pub proof fn lemma_rx_and_tx_differ(uuids: Seq<String>, pair: CharacteristicPair)
    requires
        is_pair_of(uuids, pair),
    ensures
        pair.rx != pair.tx,
        !same_uuid(uuids[pair.rx as int]@, NUS_TX_UUID@),
        !same_uuid(uuids[pair.tx as int]@, NUS_RX_UUID@),
{
    lemma_profile_uuids_distinct(uuids[pair.rx as int]@);
    lemma_profile_uuids_distinct(uuids[pair.tx as int]@);
    assert(has_uuid(NUS_RX_UUID@)(uuids[pair.rx as int]));
    assert(has_uuid(NUS_TX_UUID@)(uuids[pair.tx as int]));
}

} // verus!
