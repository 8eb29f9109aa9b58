use riot_api::region::routing::RoutingRegion;
use riot_api::region::server::ServerRegion;
use riot_api::request::{Host, ResourceFamily};

const ALL_SERVERS: [ServerRegion; 17] = [
    ServerRegion::BR1,
    ServerRegion::EUN1,
    ServerRegion::EUW1,
    ServerRegion::JP1,
    ServerRegion::KR,
    ServerRegion::LA1,
    ServerRegion::LA2,
    ServerRegion::ME1,
    ServerRegion::NA1,
    ServerRegion::OC1,
    ServerRegion::PH2,
    ServerRegion::RU,
    ServerRegion::SG2,
    ServerRegion::TH2,
    ServerRegion::TR1,
    ServerRegion::TW2,
    ServerRegion::VN2,
];

const ALL_ROUTINGS: [RoutingRegion; 5] = [
    RoutingRegion::EUROPE,
    RoutingRegion::AMERICAS,
    RoutingRegion::ASIA,
    RoutingRegion::SEA,
    RoutingRegion::ESPORTS,
];

#[test]
fn resolve_examples() {
    assert_eq!(RoutingRegion::from_server(&ServerRegion::NA1), RoutingRegion::AMERICAS);
    assert_eq!(RoutingRegion::from_server(&ServerRegion::KR), RoutingRegion::ASIA);
    assert_eq!(RoutingRegion::from_server(&ServerRegion::EUW1), RoutingRegion::EUROPE);
}

#[test]
fn resolve_is_total_over_all_servers() {
    for server in ALL_SERVERS.iter() {
        let routing = RoutingRegion::from_server(server);
        let hits = ALL_ROUTINGS.iter().filter(|r| **r == routing).count();
        assert_eq!(hits, 1, "{:?}", server);
        assert_ne!(routing, RoutingRegion::ESPORTS);
    }
}

#[test]
fn resolve_table() {
    let expected = [
        (ServerRegion::BR1, RoutingRegion::AMERICAS),
        (ServerRegion::EUN1, RoutingRegion::EUROPE),
        (ServerRegion::EUW1, RoutingRegion::EUROPE),
        (ServerRegion::JP1, RoutingRegion::ASIA),
        (ServerRegion::KR, RoutingRegion::ASIA),
        (ServerRegion::LA1, RoutingRegion::AMERICAS),
        (ServerRegion::LA2, RoutingRegion::AMERICAS),
        (ServerRegion::ME1, RoutingRegion::EUROPE),
        (ServerRegion::NA1, RoutingRegion::AMERICAS),
        (ServerRegion::OC1, RoutingRegion::SEA),
        (ServerRegion::PH2, RoutingRegion::SEA),
        (ServerRegion::RU, RoutingRegion::EUROPE),
        (ServerRegion::SG2, RoutingRegion::SEA),
        (ServerRegion::TH2, RoutingRegion::SEA),
        (ServerRegion::TR1, RoutingRegion::EUROPE),
        (ServerRegion::TW2, RoutingRegion::SEA),
        (ServerRegion::VN2, RoutingRegion::SEA),
    ];
    for (server, routing) in expected.iter() {
        assert_eq!(RoutingRegion::from_server(server), *routing);
    }
}

#[test]
fn parse_known_and_unknown() {
    assert_eq!(ServerRegion::parse("eun1"), Ok(ServerRegion::EUN1));
    let err = ServerRegion::parse("not-a-region").unwrap_err();
    assert_eq!(err.text, "not-a-region");
}

#[test]
fn parse_ignores_letter_case() {
    assert_eq!(ServerRegion::parse("EUW1"), Ok(ServerRegion::EUW1));
    assert_eq!(ServerRegion::parse("Kr"), Ok(ServerRegion::KR));
    assert_eq!(ServerRegion::parse("nA1"), Ok(ServerRegion::NA1));
}

#[test]
fn parse_accepts_every_code() {
    for server in ALL_SERVERS.iter() {
        assert_eq!(ServerRegion::parse(server.as_str()), Ok(*server));
        assert_eq!(ServerRegion::parse(&server.to_string().to_uppercase()), Ok(*server));
        assert_eq!(ServerRegion::from_code(server.as_str()), Some(*server));
    }
}

#[test]
fn parse_accepts_the_short_name_of_brazil() {
    assert_eq!(ServerRegion::parse("br"), Ok(ServerRegion::BR1));
    assert_eq!(ServerRegion::parse("BR"), Ok(ServerRegion::BR1));
    assert_eq!(ServerRegion::parse("br1"), Ok(ServerRegion::BR1));
}

#[test]
fn parse_rejects_near_misses() {
    for text in ["", " euw1", "euw1 ", "euw", "euw11", "eu", "k", "europe", "na"] {
        let err = ServerRegion::parse(text).unwrap_err();
        assert_eq!(err.text, text);
    }
}

#[test]
fn from_code_is_exact() {
    assert_eq!(ServerRegion::from_code("euw1"), Some(ServerRegion::EUW1));
    assert_eq!(ServerRegion::from_code("EUW1"), None);
    assert_eq!(ServerRegion::from_code("br"), Some(ServerRegion::BR1));
}

#[test]
fn server_codes() {
    let codes: Vec<String> = ALL_SERVERS.iter().map(|s| s.to_string()).collect();
    assert_eq!(
        codes,
        vec![
            "br1", "eun1", "euw1", "jp1", "kr", "la1", "la2", "me1", "na1", "oc1", "ph2", "ru",
            "sg2", "th2", "tr1", "tw2", "vn2"
        ]
    );
}

#[test]
fn routing_codes() {
    let codes: Vec<String> = ALL_ROUTINGS.iter().map(|r| r.to_string()).collect();
    assert_eq!(codes, vec!["europe", "americas", "asia", "sea", "esports"]);
    assert_eq!(RoutingRegion::ASIA.as_str(), "asia");
}

#[test]
fn host_names() {
    assert_eq!(Host::Platform(ServerRegion::EUW1).to_string(), "euw1.api.riotgames.com");
    assert_eq!(Host::Routing(RoutingRegion::AMERICAS).to_string(), "americas.api.riotgames.com");
    assert_eq!(Host::Routing(RoutingRegion::SEA).as_str(), "sea");
}

#[test]
fn host_selection_by_family() {
    assert_eq!(
        ResourceFamily::Account.host_for(ServerRegion::NA1),
        Host::Routing(RoutingRegion::AMERICAS)
    );
    assert_eq!(
        ResourceFamily::Match.host_for(ServerRegion::KR),
        Host::Routing(RoutingRegion::ASIA)
    );
    assert_eq!(
        ResourceFamily::Summoner.host_for(ServerRegion::KR),
        Host::Platform(ServerRegion::KR)
    );
    assert_eq!(
        ResourceFamily::League.host_for(ServerRegion::EUW1),
        Host::Platform(ServerRegion::EUW1)
    );
}
