//! Per-provider endpoint registries.
//!
//! Each provider exposes a fixed, ordered table of relay endpoints, one per
//! region, compiled in at build time and never mutated. Lookup by region
//! returns the first (and only) matching entry, or `RegionNotFound`.
use vstd::prelude::*;

use crate::errors::RelayError;

verus! {

/// The closed set of regions the first provider serves.
#[derive(Clone, Copy, Debug, PartialEq, Eq, Structural)]
pub enum HeliusRegionsType {
    SaltLakeCity,
    Newark,
    London,
    Frankfurt,
    Tokyo,
    Singapore,
    Amsterdam,
}

/// One relay endpoint of the first provider: its region tag, display name,
/// submission URL and probe host.
#[derive(Clone, Copy, Debug)]
pub struct HeliusEndpoint {
    pub relayer: HeliusRegionsType,
    pub relayer_name: &'static str,
    pub submit_endpoint: &'static str,
    pub ping_endpoint: &'static str,
}

/// The closed set of regions the second provider serves.
#[derive(Clone, Copy, Debug, PartialEq, Eq, Structural)]
pub enum NextBlockRegionsType {
    NewYork,
    Frankfurt,
    Tokyo,
    London,
}

/// One relay endpoint of the second provider.
#[derive(Clone, Copy, Debug)]
pub struct NextBlockEndpoint {
    pub relayer: NextBlockRegionsType,
    pub relayer_name: &'static str,
    pub submit_endpoint: &'static str,
    pub ping_endpoint: &'static str,
}

/// The region of the first provider's registry entry at position `i`.
pub open spec fn helius_region_at(i: int) -> HeliusRegionsType {
    if i == 0 {
        HeliusRegionsType::SaltLakeCity
    } else if i == 1 {
        HeliusRegionsType::Newark
    } else if i == 2 {
        HeliusRegionsType::London
    } else if i == 3 {
        HeliusRegionsType::Frankfurt
    } else if i == 4 {
        HeliusRegionsType::Tokyo
    } else if i == 5 {
        HeliusRegionsType::Singapore
    } else {
        HeliusRegionsType::Amsterdam
    }
}

/// Holds when `e` carries exactly the strings the first provider's registry
/// assigns to `e`'s region: since the registry is keyed by region, this pins
/// the whole endpoint.
pub open spec fn helius_endpoint_wf(e: HeliusEndpoint) -> bool {
    match e.relayer {
        HeliusRegionsType::SaltLakeCity => {
            &&& e.relayer_name@ == "Helius-SaltLakeCity"@
            &&& e.submit_endpoint@ == "http://slc-sender.helius-rpc.com/fast"@
            &&& e.ping_endpoint@ == "slc-sender.helius-rpc.com"@
        },
        HeliusRegionsType::Newark => {
            &&& e.relayer_name@ == "Helius-Newark"@
            &&& e.submit_endpoint@ == "http://ewr-sender.helius-rpc.com/fast"@
            &&& e.ping_endpoint@ == "ewr-sender.helius-rpc.com"@
        },
        HeliusRegionsType::London => {
            &&& e.relayer_name@ == "Helius-London"@
            &&& e.submit_endpoint@ == "http://lon-sender.helius-rpc.com/fast"@
            &&& e.ping_endpoint@ == "lon-sender.helius-rpc.com"@
        },
        HeliusRegionsType::Frankfurt => {
            &&& e.relayer_name@ == "Helius-Frankfurt"@
            &&& e.submit_endpoint@ == "http://fra-sender.helius-rpc.com/fast"@
            &&& e.ping_endpoint@ == "fra-sender.helius-rpc.com"@
        },
        HeliusRegionsType::Tokyo => {
            &&& e.relayer_name@ == "Helius-Tokyo"@
            &&& e.submit_endpoint@ == "http://tyo-sender.helius-rpc.com/fast"@
            &&& e.ping_endpoint@ == "tyo-sender.helius-rpc.com"@
        },
        HeliusRegionsType::Singapore => {
            &&& e.relayer_name@ == "Helius-Singapore"@
            &&& e.submit_endpoint@ == "http://sg-sender.helius-rpc.com/fast"@
            &&& e.ping_endpoint@ == "sg-sender.helius-rpc.com"@
        },
        HeliusRegionsType::Amsterdam => {
            &&& e.relayer_name@ == "Helius-Amsterdam"@
            &&& e.submit_endpoint@ == "http://ams-sender.helius-rpc.com/fast"@
            &&& e.ping_endpoint@ == "ams-sender.helius-rpc.com"@
        },
    }
}

/// The region of the second provider's registry entry at position `i`.
pub open spec fn nextblock_region_at(i: int) -> NextBlockRegionsType {
    if i == 0 {
        NextBlockRegionsType::NewYork
    } else if i == 1 {
        NextBlockRegionsType::Frankfurt
    } else if i == 2 {
        NextBlockRegionsType::Tokyo
    } else {
        NextBlockRegionsType::London
    }
}

/// Holds when `e` carries exactly the strings the second provider's
/// registry assigns to `e`'s region.
pub open spec fn nextblock_endpoint_wf(e: NextBlockEndpoint) -> bool {
    match e.relayer {
        NextBlockRegionsType::NewYork => {
            &&& e.relayer_name@ == "NextBlock-NewYork"@
            &&& e.submit_endpoint@ == "http://ny.nextblock.io/api/v2/submit"@
            &&& e.ping_endpoint@ == "ny.nextblock.io"@
        },
        NextBlockRegionsType::Frankfurt => {
            &&& e.relayer_name@ == "NextBlock-Frankfurt"@
            &&& e.submit_endpoint@ == "http://fra.nextblock.io/api/v2/submit"@
            &&& e.ping_endpoint@ == "fra.nextblock.io"@
        },
        NextBlockRegionsType::Tokyo => {
            &&& e.relayer_name@ == "NextBlock-Tokyo"@
            &&& e.submit_endpoint@ == "http://tokyo.nextblock.io/api/v2/submit"@
            &&& e.ping_endpoint@ == "tokyo.nextblock.io"@
        },
        NextBlockRegionsType::London => {
            &&& e.relayer_name@ == "NextBlock-London"@
            &&& e.submit_endpoint@ == "http://london.nextblock.io/api/v2/submit"@
            &&& e.ping_endpoint@ == "london.nextblock.io"@
        },
    }
}

/// The first provider's registry: one entry per region, in registration
/// order. Entry 0 is the fallback when every probe fails.
pub fn helius_regions() -> (r: Vec<HeliusEndpoint>)
    ensures
        r@.len() == 7,
        forall|i: int|
            0 <= i < r@.len() ==> #[trigger] r@[i].relayer == helius_region_at(i)
                && helius_endpoint_wf(r@[i]),
        r@[0].relayer == HeliusRegionsType::SaltLakeCity,
        r@[1].relayer == HeliusRegionsType::Newark,
        r@[2].relayer == HeliusRegionsType::London,
        r@[3].relayer == HeliusRegionsType::Frankfurt,
        r@[4].relayer == HeliusRegionsType::Tokyo,
        r@[5].relayer == HeliusRegionsType::Singapore,
        r@[6].relayer == HeliusRegionsType::Amsterdam,
        r@[0].relayer_name@ == "Helius-SaltLakeCity"@,
        r@[0].submit_endpoint@ == "http://slc-sender.helius-rpc.com/fast"@,
        r@[0].ping_endpoint@ == "slc-sender.helius-rpc.com"@,
        r@[1].relayer_name@ == "Helius-Newark"@,
        r@[1].submit_endpoint@ == "http://ewr-sender.helius-rpc.com/fast"@,
        r@[1].ping_endpoint@ == "ewr-sender.helius-rpc.com"@,
        r@[2].relayer_name@ == "Helius-London"@,
        r@[2].submit_endpoint@ == "http://lon-sender.helius-rpc.com/fast"@,
        r@[2].ping_endpoint@ == "lon-sender.helius-rpc.com"@,
        r@[3].relayer_name@ == "Helius-Frankfurt"@,
        r@[3].submit_endpoint@ == "http://fra-sender.helius-rpc.com/fast"@,
        r@[3].ping_endpoint@ == "fra-sender.helius-rpc.com"@,
        r@[4].relayer_name@ == "Helius-Tokyo"@,
        r@[4].submit_endpoint@ == "http://tyo-sender.helius-rpc.com/fast"@,
        r@[4].ping_endpoint@ == "tyo-sender.helius-rpc.com"@,
        r@[5].relayer_name@ == "Helius-Singapore"@,
        r@[5].submit_endpoint@ == "http://sg-sender.helius-rpc.com/fast"@,
        r@[5].ping_endpoint@ == "sg-sender.helius-rpc.com"@,
        r@[6].relayer_name@ == "Helius-Amsterdam"@,
        r@[6].submit_endpoint@ == "http://ams-sender.helius-rpc.com/fast"@,
        r@[6].ping_endpoint@ == "ams-sender.helius-rpc.com"@,
{
    let mut r: Vec<HeliusEndpoint> = Vec::new();
    r.push(HeliusEndpoint {
        relayer: HeliusRegionsType::SaltLakeCity,
        relayer_name: "Helius-SaltLakeCity",
        submit_endpoint: "http://slc-sender.helius-rpc.com/fast",
        ping_endpoint: "slc-sender.helius-rpc.com",
    });
    r.push(HeliusEndpoint {
        relayer: HeliusRegionsType::Newark,
        relayer_name: "Helius-Newark",
        submit_endpoint: "http://ewr-sender.helius-rpc.com/fast",
        ping_endpoint: "ewr-sender.helius-rpc.com",
    });
    r.push(HeliusEndpoint {
        relayer: HeliusRegionsType::London,
        relayer_name: "Helius-London",
        submit_endpoint: "http://lon-sender.helius-rpc.com/fast",
        ping_endpoint: "lon-sender.helius-rpc.com",
    });
    r.push(HeliusEndpoint {
        relayer: HeliusRegionsType::Frankfurt,
        relayer_name: "Helius-Frankfurt",
        submit_endpoint: "http://fra-sender.helius-rpc.com/fast",
        ping_endpoint: "fra-sender.helius-rpc.com",
    });
    r.push(HeliusEndpoint {
        relayer: HeliusRegionsType::Tokyo,
        relayer_name: "Helius-Tokyo",
        submit_endpoint: "http://tyo-sender.helius-rpc.com/fast",
        ping_endpoint: "tyo-sender.helius-rpc.com",
    });
    r.push(HeliusEndpoint {
        relayer: HeliusRegionsType::Singapore,
        relayer_name: "Helius-Singapore",
        submit_endpoint: "http://sg-sender.helius-rpc.com/fast",
        ping_endpoint: "sg-sender.helius-rpc.com",
    });
    r.push(HeliusEndpoint {
        relayer: HeliusRegionsType::Amsterdam,
        relayer_name: "Helius-Amsterdam",
        submit_endpoint: "http://ams-sender.helius-rpc.com/fast",
        ping_endpoint: "ams-sender.helius-rpc.com",
    });
    r
}

/// The second provider's registry: one entry per region, in registration
/// order. Entry 0 is the fallback when every probe fails.
pub fn nextblock_regions() -> (r: Vec<NextBlockEndpoint>)
    ensures
        r@.len() == 4,
        forall|i: int|
            0 <= i < r@.len() ==> #[trigger] r@[i].relayer == nextblock_region_at(i)
                && nextblock_endpoint_wf(r@[i]),
        r@[0].relayer == NextBlockRegionsType::NewYork,
        r@[1].relayer == NextBlockRegionsType::Frankfurt,
        r@[2].relayer == NextBlockRegionsType::Tokyo,
        r@[3].relayer == NextBlockRegionsType::London,
        r@[0].relayer_name@ == "NextBlock-NewYork"@,
        r@[0].submit_endpoint@ == "http://ny.nextblock.io/api/v2/submit"@,
        r@[0].ping_endpoint@ == "ny.nextblock.io"@,
        r@[1].relayer_name@ == "NextBlock-Frankfurt"@,
        r@[1].submit_endpoint@ == "http://fra.nextblock.io/api/v2/submit"@,
        r@[1].ping_endpoint@ == "fra.nextblock.io"@,
        r@[2].relayer_name@ == "NextBlock-Tokyo"@,
        r@[2].submit_endpoint@ == "http://tokyo.nextblock.io/api/v2/submit"@,
        r@[2].ping_endpoint@ == "tokyo.nextblock.io"@,
        r@[3].relayer_name@ == "NextBlock-London"@,
        r@[3].submit_endpoint@ == "http://london.nextblock.io/api/v2/submit"@,
        r@[3].ping_endpoint@ == "london.nextblock.io"@,
{
    let mut r: Vec<NextBlockEndpoint> = Vec::new();
    r.push(NextBlockEndpoint {
        relayer: NextBlockRegionsType::NewYork,
        relayer_name: "NextBlock-NewYork",
        submit_endpoint: "http://ny.nextblock.io/api/v2/submit",
        ping_endpoint: "ny.nextblock.io",
    });
    r.push(NextBlockEndpoint {
        relayer: NextBlockRegionsType::Frankfurt,
        relayer_name: "NextBlock-Frankfurt",
        submit_endpoint: "http://fra.nextblock.io/api/v2/submit",
        ping_endpoint: "fra.nextblock.io",
    });
    r.push(NextBlockEndpoint {
        relayer: NextBlockRegionsType::Tokyo,
        relayer_name: "NextBlock-Tokyo",
        submit_endpoint: "http://tokyo.nextblock.io/api/v2/submit",
        ping_endpoint: "tokyo.nextblock.io",
    });
    r.push(NextBlockEndpoint {
        relayer: NextBlockRegionsType::London,
        relayer_name: "NextBlock-London",
        submit_endpoint: "http://london.nextblock.io/api/v2/submit",
        ping_endpoint: "london.nextblock.io",
    });
    r
}

/// Looks a region up in the first provider's registry shape: returns the
/// first entry tagged with `region`, or `RegionNotFound` exactly when no
/// entry carries that tag.
pub fn find_helius_region(regions: &Vec<HeliusEndpoint>, region: HeliusRegionsType) -> (r: Result<
    HeliusEndpoint,
    RelayError,
>)
    ensures
        match r {
            Ok(e) => exists|i: int|
                {
                    &&& 0 <= i < regions@.len()
                    &&& regions@[i].relayer == region
                    &&& e == regions@[i]
                    &&& forall|j: int| 0 <= j < i ==> regions@[j].relayer != region
                },
            Err(err) => {
                &&& err == RelayError::RegionNotFound
                &&& forall|i: int|
                    0 <= i < regions@.len() ==> regions@[i].relayer != region
            },
        },
{
    let mut k: usize = 0;
    while k < regions.len()
        invariant
            0 <= k <= regions@.len(),
            forall|j: int| 0 <= j < k ==> regions@[j].relayer != region,
        decreases regions@.len() - k,
    {
        if regions[k].relayer == region {
            return Ok(regions[k]);
        }
        k = k + 1;
    }
    Err(RelayError::RegionNotFound)
}

/// Looks a region up in the second provider's registry shape, in the same
/// way as `find_helius_region`.
pub fn find_nextblock_region(
    regions: &Vec<NextBlockEndpoint>,
    region: NextBlockRegionsType,
) -> (r: Result<NextBlockEndpoint, RelayError>)
    ensures
        match r {
            Ok(e) => exists|i: int|
                {
                    &&& 0 <= i < regions@.len()
                    &&& regions@[i].relayer == region
                    &&& e == regions@[i]
                    &&& forall|j: int| 0 <= j < i ==> regions@[j].relayer != region
                },
            Err(err) => {
                &&& err == RelayError::RegionNotFound
                &&& forall|i: int|
                    0 <= i < regions@.len() ==> regions@[i].relayer != region
            },
        },
{
    let mut k: usize = 0;
    while k < regions.len()
        invariant
            0 <= k <= regions@.len(),
            forall|j: int| 0 <= j < k ==> regions@[j].relayer != region,
        decreases regions@.len() - k,
    {
        if regions[k].relayer == region {
            return Ok(regions[k]);
        }
        k = k + 1;
    }
    Err(RelayError::RegionNotFound)
}

} // verus!
