//! The per-provider relay clients.
//!
//! A client owns a keep-alive HTTP transport and the endpoint chosen at
//! construction, either by explicit region or by latency race over the
//! provider's registry with a deterministic fallback to the first entry.
//! The network work itself — probing hosts, posting the payload, reading
//! the response — is the embedding application's; the choices, the tip
//! instruction list and the submission body are decided and proved here.
use vstd::prelude::*;

use crate::errors::RelayError;
use crate::payload::{
    helius_submit_payload, helius_submit_payload_spec, is_base64, nextblock_submit_payload,
    nextblock_submit_payload_spec,
};
use crate::prober::{is_race_winner, lemma_race_winner_unique, select_fastest};
use crate::regions::{
    find_helius_region, find_nextblock_region, helius_endpoint_wf, helius_region_at,
    helius_regions, nextblock_endpoint_wf, nextblock_region_at, nextblock_regions, HeliusEndpoint,
    HeliusRegionsType, NextBlockEndpoint, NextBlockRegionsType,
};
use crate::solana::{parse_account_key, pubkey_of, AccountKey};
use crate::tips::{build_tip_ixs, tip_ixs_spec, Tips};

verus! {

#[verifier::external_type_specification]
#[verifier::external_body]
pub struct ExClient(reqwest::Client);

/// Keep-alive interval of the HTTP transport, in seconds.
pub const HEALTH_CHECK_SEC: u64 = 30;

/// Time budget of a latency probe, in seconds.
pub const PING_DURATION_SEC: u64 = 3;

/// The first provider's tip floor, in lamports.
pub const HELIUS_MIN_TIP: u64 = 100_000;

/// The second provider's tip floor, in lamports.
pub const NEXTBLOCK_MIN_TIP: u64 = 1_000_000;

/// The first provider's tip address at table position `i`, as base58 text.
pub open spec fn helius_tip_addr_spec(i: int) -> Seq<char> {
    if i == 0 {
        "1111111111111111111111111111111A"@
    } else {
        "1111111111111111111111111111111B"@
    }
}

/// The first provider's fixed tip-address table, in base58.
pub fn helius_tip_table() -> (r: Vec<&'static str>)
    ensures
        r@.len() == 2,
        forall|i: int| 0 <= i < r@.len() ==> #[trigger] r@[i]@ == helius_tip_addr_spec(i),
{
    let mut r: Vec<&'static str> = Vec::new();
    r.push("1111111111111111111111111111111A");
    r.push("1111111111111111111111111111111B");
    r
}

/// The second provider's tip address at table position `i`, as base58 text.
pub open spec fn nextblock_tip_addr_spec(i: int) -> Seq<char> {
    if i == 0 {
        "1111111111111111111111111111111C"@
    } else {
        "1111111111111111111111111111111D"@
    }
}

/// The second provider's fixed tip-address table, in base58.
pub fn nextblock_tip_table() -> (r: Vec<&'static str>)
    ensures
        r@.len() == 2,
        forall|i: int| 0 <= i < r@.len() ==> #[trigger] r@[i]@ == nextblock_tip_addr_spec(i),
{
    let mut r: Vec<&'static str> = Vec::new();
    r.push("1111111111111111111111111111111C");
    r.push("1111111111111111111111111111111D");
    r
}

/// Relies on reqwest's `Client::builder`, `ClientBuilder::tcp_keepalive`
/// and `ClientBuilder::build` to construct a pooled HTTP transport with
/// TCP keep-alive; whether building succeeds is a runtime matter, so only
/// the error mapping is stated.
#[verifier::external_body]
fn build_keepalive_client(keepalive_secs: u64) -> (r: Result<reqwest::Client, RelayError>)
    ensures
        match r {
            Ok(_) => true,
            Err(e) => e == RelayError::TransportBuildFailed,
        },
{
    match reqwest::Client::builder().tcp_keepalive(std::time::Duration::from_secs(keepalive_secs)).build() {
        Ok(c) => Ok(c),
        Err(_) => Err(RelayError::TransportBuildFailed),
    }
}

/// A client of the first provider: the HTTP transport and the endpoint
/// chosen at construction, never changed afterwards.
pub struct Helius {
    pub client: reqwest::Client,
    pub endpoint: HeliusEndpoint,
}

impl Helius {
    /// Constructs a client for an explicitly chosen region. The region is
    /// looked up in the registry — every region of the closed set has an
    /// entry — so the only failure left is building the transport. The
    /// embedding application may probe the endpoint's host afterwards as a
    /// best-effort warm-up; that probe's outcome does not affect the
    /// constructed value.
    pub fn new_with_region(region: HeliusRegionsType) -> (r: Result<Helius, RelayError>)
        ensures
            match r {
                Ok(c) => c.endpoint.relayer == region && helius_endpoint_wf(c.endpoint),
                Err(e) => e == RelayError::TransportBuildFailed,
            },
    {
        let regions = helius_regions();
        proof {
            match region {
                HeliusRegionsType::SaltLakeCity => assert(regions@[0].relayer == region),
                HeliusRegionsType::Newark => assert(regions@[1].relayer == region),
                HeliusRegionsType::London => assert(regions@[2].relayer == region),
                HeliusRegionsType::Frankfurt => assert(regions@[3].relayer == region),
                HeliusRegionsType::Tokyo => assert(regions@[4].relayer == region),
                HeliusRegionsType::Singapore => assert(regions@[5].relayer == region),
                HeliusRegionsType::Amsterdam => assert(regions@[6].relayer == region),
            }
        }
        match find_helius_region(&regions, region) {
            Ok(endpoint) => {
                match build_keepalive_client(HEALTH_CHECK_SEC) {
                    Ok(client) => Ok(Helius { client, endpoint }),
                    Err(e) => Err(e),
                }
            },
            Err(_) => {
                proof {
                    assert(false);
                }
                Err(RelayError::TransportBuildFailed)
            },
        }
    }

    /// Constructs a client from the outcomes of a latency race over the
    /// registry, one probe result per registry entry in order: the winner's
    /// endpoint when one exists, the first registry entry when every probe
    /// failed. The embedding application runs the concurrent probes and
    /// hands their results here.
    pub fn new_auto(probe_results: &Vec<Option<u64>>) -> (r: Result<Helius, RelayError>)
        requires
            probe_results@.len() == 7,
        ensures
            match r {
                Ok(c) => {
                    &&& helius_endpoint_wf(c.endpoint)
                    &&& forall|i: int|
                        is_race_winner(probe_results@, i) ==> c.endpoint.relayer
                            == helius_region_at(i)
                    &&& (forall|j: int|
                        0 <= j < probe_results@.len() ==> probe_results@[j] is None)
                        ==> c.endpoint.relayer == HeliusRegionsType::SaltLakeCity
                },
                Err(e) => e == RelayError::TransportBuildFailed,
            },
    {
        let regions = helius_regions();
        let endpoint = match select_fastest(probe_results) {
            Some(i) => {
                let e = regions[i];
                proof {
                    assert forall|i2: int| is_race_winner(probe_results@, i2) implies e.relayer
                        == helius_region_at(i2) by {
                        lemma_race_winner_unique(probe_results@, i as int, i2);
                    }
                }
                e
            },
            None => regions[0],
        };
        match build_keepalive_client(HEALTH_CHECK_SEC) {
            Ok(client) => Ok(Helius { client, endpoint }),
            Err(e) => Err(e),
        }
    }

    /// Builds the tip instruction list for this provider: compute-budget
    /// instructions first, the caller's instructions unchanged, the tip
    /// transfer last, with the amount raised to the provider's floor and
    /// the recipient taken from the tip-address table at the configured
    /// index. Fails only when that table entry does not decode.
    pub fn add_tip_ix(&self, tip_config: Tips) -> (r: Result<
        Vec<solana_sdk::instruction::Instruction>,
        RelayError,
    >)
        requires
            tip_config.tip_addr_idx < 2,
        ensures
            match r {
                Ok(v) => {
                    &&& pubkey_of(helius_tip_addr_spec(tip_config.tip_addr_idx as int)) is Some
                    &&& v@ == tip_ixs_spec(
                        tip_config,
                        HELIUS_MIN_TIP,
                        pubkey_of(helius_tip_addr_spec(tip_config.tip_addr_idx as int))->0,
                    )
                },
                Err(e) => {
                    &&& e == RelayError::TipAddressInvalid
                    &&& pubkey_of(helius_tip_addr_spec(tip_config.tip_addr_idx as int)) is None
                },
            },
    {
        let table = helius_tip_table();
        let addr: &str = table[tip_config.tip_addr_idx];
        match parse_account_key(addr) {
            Some(recipient) => Ok(build_tip_ixs(tip_config, HELIUS_MIN_TIP, &recipient)),
            None => Err(RelayError::TipAddressInvalid),
        }
    }

    /// Background health checking is disabled: it would be a periodic
    /// network task of its own, and submission does not depend on it. Kept
    /// for interface parity.
    pub fn health_check(&self, _interval_sec: u64) {
    }

    /// Frames this provider's submission body around the encoded
    /// transaction. The embedding application posts it to
    /// `self.endpoint.submit_endpoint` with a JSON content type and reads
    /// the response.
    pub fn submit_payload(&self, encoded_tx: &str) -> (r: String)
        requires
            is_base64(encoded_tx@),
        ensures
            r@ == helius_submit_payload_spec(encoded_tx@),
    {
        helius_submit_payload(encoded_tx)
    }
}

/// A client of the second provider: the HTTP transport, the endpoint chosen
/// at construction, and the authorization credential sent with every
/// submission.
pub struct NextBlock {
    pub client: reqwest::Client,
    pub endpoint: NextBlockEndpoint,
    pub auth_key: String,
}

impl NextBlock {
    /// Constructs a client for an explicitly chosen region, as
    /// `Helius::new_with_region` does, keeping the given credential.
    pub fn new_with_region(region: NextBlockRegionsType, auth_key: String) -> (r: Result<
        NextBlock,
        RelayError,
    >)
        ensures
            match r {
                Ok(c) => {
                    &&& c.endpoint.relayer == region
                    &&& nextblock_endpoint_wf(c.endpoint)
                    &&& c.auth_key@ == auth_key@
                },
                Err(e) => e == RelayError::TransportBuildFailed,
            },
    {
        let regions = nextblock_regions();
        proof {
            match region {
                NextBlockRegionsType::NewYork => assert(regions@[0].relayer == region),
                NextBlockRegionsType::Frankfurt => assert(regions@[1].relayer == region),
                NextBlockRegionsType::Tokyo => assert(regions@[2].relayer == region),
                NextBlockRegionsType::London => assert(regions@[3].relayer == region),
            }
        }
        match find_nextblock_region(&regions, region) {
            Ok(endpoint) => {
                match build_keepalive_client(HEALTH_CHECK_SEC) {
                    Ok(client) => Ok(NextBlock { client, endpoint, auth_key }),
                    Err(e) => Err(e),
                }
            },
            Err(_) => {
                proof {
                    assert(false);
                }
                Err(RelayError::TransportBuildFailed)
            },
        }
    }

    /// Constructs a client from latency-race outcomes over the registry, as
    /// `Helius::new_auto` does: the winner's endpoint, or the first entry
    /// when every probe failed.
    pub fn new_auto(probe_results: &Vec<Option<u64>>, auth_key: String) -> (r: Result<
        NextBlock,
        RelayError,
    >)
        requires
            probe_results@.len() == 4,
        ensures
            match r {
                Ok(c) => {
                    &&& nextblock_endpoint_wf(c.endpoint)
                    &&& c.auth_key@ == auth_key@
                    &&& forall|i: int|
                        is_race_winner(probe_results@, i) ==> c.endpoint.relayer
                            == nextblock_region_at(i)
                    &&& (forall|j: int|
                        0 <= j < probe_results@.len() ==> probe_results@[j] is None)
                        ==> c.endpoint.relayer == NextBlockRegionsType::NewYork
                },
                Err(e) => e == RelayError::TransportBuildFailed,
            },
    {
        let regions = nextblock_regions();
        let endpoint = match select_fastest(probe_results) {
            Some(i) => {
                let e = regions[i];
                proof {
                    assert forall|i2: int| is_race_winner(probe_results@, i2) implies e.relayer
                        == nextblock_region_at(i2) by {
                        lemma_race_winner_unique(probe_results@, i as int, i2);
                    }
                }
                e
            },
            None => regions[0],
        };
        match build_keepalive_client(HEALTH_CHECK_SEC) {
            Ok(client) => Ok(NextBlock { client, endpoint, auth_key }),
            Err(e) => Err(e),
        }
    }

    /// Builds the tip instruction list for this provider, as
    /// `Helius::add_tip_ix` does, with this provider's floor and table.
    pub fn add_tip_ix(&self, tip_config: Tips) -> (r: Result<
        Vec<solana_sdk::instruction::Instruction>,
        RelayError,
    >)
        requires
            tip_config.tip_addr_idx < 2,
        ensures
            match r {
                Ok(v) => {
                    &&& pubkey_of(nextblock_tip_addr_spec(tip_config.tip_addr_idx as int)) is Some
                    &&& v@ == tip_ixs_spec(
                        tip_config,
                        NEXTBLOCK_MIN_TIP,
                        pubkey_of(nextblock_tip_addr_spec(tip_config.tip_addr_idx as int))->0,
                    )
                },
                Err(e) => {
                    &&& e == RelayError::TipAddressInvalid
                    &&& pubkey_of(nextblock_tip_addr_spec(tip_config.tip_addr_idx as int)) is None
                },
            },
    {
        let table = nextblock_tip_table();
        let addr: &str = table[tip_config.tip_addr_idx];
        match parse_account_key(addr) {
            Some(recipient) => Ok(build_tip_ixs(tip_config, NEXTBLOCK_MIN_TIP, &recipient)),
            None => Err(RelayError::TipAddressInvalid),
        }
    }

    /// Background health checking is disabled, as for the first provider.
    pub fn health_check(&self, _interval_sec: u64) {
    }

    /// Frames this provider's submission body around the encoded
    /// transaction and the front-running-protection flag. The embedding
    /// application posts it to `self.endpoint.submit_endpoint` with the
    /// `Authorization` header set to `self.auth_key`.
    pub fn submit_payload(&self, encoded_tx: &str, front_running_protection: bool) -> (r: String)
        requires
            is_base64(encoded_tx@),
        ensures
            r@ == nextblock_submit_payload_spec(encoded_tx@, front_running_protection),
    {
        nextblock_submit_payload(encoded_tx, front_running_protection)
    }
}

} // verus!
