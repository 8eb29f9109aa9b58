//! Routing regions: continental groupings of platform regions.

use vstd::prelude::*;
use vstd::string::*;
use crate::region::server::ServerRegion;

verus! {

/// A continental grouping of platform regions that share one query host.
#[derive(Clone, Copy, Debug, PartialEq, Eq, Structural)]
pub enum RoutingRegion {
    EUROPE,
    AMERICAS,
    ASIA,
    SEA,
    ESPORTS,
}

/// The routing region that serves a platform region.
pub open spec fn resolve(server: ServerRegion) -> RoutingRegion {
    match server {
        ServerRegion::NA1 | ServerRegion::BR1 | ServerRegion::LA1 | ServerRegion::LA2 => {
            RoutingRegion::AMERICAS
        },
        ServerRegion::KR | ServerRegion::JP1 => RoutingRegion::ASIA,
        ServerRegion::EUN1
        | ServerRegion::EUW1
        | ServerRegion::ME1
        | ServerRegion::TR1
        | ServerRegion::RU => RoutingRegion::EUROPE,
        ServerRegion::OC1
        | ServerRegion::PH2
        | ServerRegion::SG2
        | ServerRegion::TH2
        | ServerRegion::TW2
        | ServerRegion::VN2 => RoutingRegion::SEA,
    }
}

impl RoutingRegion {
    /// The canonical lowercase code of the region, as it appears in host names.
    pub open spec fn code(self) -> Seq<char> {
        match self {
            Self::EUROPE => "europe"@,
            Self::AMERICAS => "americas"@,
            Self::ASIA => "asia"@,
            Self::SEA => "sea"@,
            Self::ESPORTS => "esports"@,
        }
    }

    /// The platform regions that the routing region serves.
    pub open spec fn members(self) -> Set<ServerRegion> {
        match self {
            Self::EUROPE => set![
                ServerRegion::EUN1,
                ServerRegion::EUW1,
                ServerRegion::ME1,
                ServerRegion::TR1,
                ServerRegion::RU,
            ],
            Self::AMERICAS => set![
                ServerRegion::NA1,
                ServerRegion::BR1,
                ServerRegion::LA1,
                ServerRegion::LA2,
            ],
            Self::ASIA => set![ServerRegion::KR, ServerRegion::JP1],
            Self::SEA => set![
                ServerRegion::OC1,
                ServerRegion::PH2,
                ServerRegion::SG2,
                ServerRegion::TH2,
                ServerRegion::TW2,
                ServerRegion::VN2,
            ],
            Self::ESPORTS => Set::empty(),
        }
    }

    /// The canonical lowercase code of the region.
    pub fn as_str(&self) -> (text: &'static str)
        ensures
            text@ == self.code(),
    {
        match self {
            Self::EUROPE => "europe",
            Self::AMERICAS => "americas",
            Self::ASIA => "asia",
            Self::SEA => "sea",
            Self::ESPORTS => "esports",
        }
    }

    /// The canonical lowercase code of the region, as an owned string.
    pub fn to_string(&self) -> (text: String)
        ensures
            text@ == self.code(),
    {
        String::from_str(self.as_str())
    }

    /// Maps a platform region to the routing region that serves it.
    pub fn from_server(server: &ServerRegion) -> (routing: Self)
        ensures
            routing == resolve(*server),
    {
        match server {
            ServerRegion::NA1 | ServerRegion::BR1 | ServerRegion::LA1 | ServerRegion::LA2 => {
                Self::AMERICAS
            },
            ServerRegion::KR | ServerRegion::JP1 => Self::ASIA,
            ServerRegion::EUN1
            | ServerRegion::EUW1
            | ServerRegion::ME1
            | ServerRegion::TR1
            | ServerRegion::RU => Self::EUROPE,
            ServerRegion::OC1
            | ServerRegion::PH2
            | ServerRegion::SG2
            | ServerRegion::TH2
            | ServerRegion::TW2
            | ServerRegion::VN2 => Self::SEA,
        }
    }
}

/// The mapping from platform regions to routing regions is total and
/// unambiguous: every platform region is a member of exactly one routing
/// region, the one that `resolve` gives.
pub proof fn lemma_resolve_partitions(server: ServerRegion)
    ensures
        resolve(server).members().contains(server),
        forall|routing: RoutingRegion|
            routing.members().contains(server) ==> routing == resolve(server),
{
}

/// No platform region is served by the esports routing region.
pub proof fn lemma_resolve_never_esports(server: ServerRegion)
    ensures
        resolve(server) != RoutingRegion::ESPORTS,
{
}

} // verus!
