use riot_api::league::{LeagueEntry, LeagueList};
use riot_api::lol_match::{Match, Timeline};
use riot_api::player::account::RiotAccount;
use riot_api::player::summoner::Summoner;
use riot_api::queue::queue_type::QueueType;
use riot_api::queue::ranked::RankedQueue;
use riot_api::ranked::division::RankedDivision;
use riot_api::ranked::tier::RankedTier;
use riot_api::region::routing::RoutingRegion;
use riot_api::region::server::ServerRegion;
use riot_api::request::{Host, QueryParam, RequestSpec};

fn key() -> String {
    String::from("RGAPI-1234")
}

fn keys_of(request: &RequestSpec) -> Vec<String> {
    request.query().iter().map(|pair| pair.key.clone()).collect()
}

#[test]
fn account_by_riot_id_url() {
    let request = RiotAccount::by_riot_id(
        RoutingRegion::EUROPE,
        &key(),
        &String::from("Some Name"),
        &String::from("EUW"),
    );
    assert_eq!(request.host(), "europe.api.riotgames.com");
    assert_eq!(request.path(), "/riot/account/v1/accounts/by-riot-id");
    assert_eq!(request.segments(), &vec![String::from("Some%20Name"), String::from("EUW")]);
    assert!(request.query().is_empty());
    assert_eq!(request.credential(), "RGAPI-1234");
    assert_eq!(
        request.url(),
        "https://europe.api.riotgames.com/riot/account/v1/accounts/by-riot-id/Some%20Name/EUW?api_key=RGAPI-1234"
    );
}

#[test]
fn account_by_puuid_url() {
    let request = RiotAccount::by_puuid(RoutingRegion::ASIA, &key(), &String::from("p-1_2"));
    assert_eq!(
        request.url(),
        "https://asia.api.riotgames.com/riot/account/v1/accounts/by-puuid/p-1_2?api_key=RGAPI-1234"
    );
}

#[test]
fn summoner_urls() {
    let id = String::from("abc");
    assert_eq!(
        Summoner::by_rso_puuid(ServerRegion::EUW1, &key(), &id).url(),
        "https://euw1.api.riotgames.com/fulfillment/v1/summoners/by-puuid/abc?api_key=RGAPI-1234"
    );
    assert_eq!(
        Summoner::by_account(ServerRegion::NA1, &key(), &id).url(),
        "https://na1.api.riotgames.com/lol/summoner/v4/summoners/by-account/abc?api_key=RGAPI-1234"
    );
    assert_eq!(
        Summoner::by_puuid(ServerRegion::KR, &key(), &id).url(),
        "https://kr.api.riotgames.com/lol/summoner/v4/summoners/by-puuid/abc?api_key=RGAPI-1234"
    );
    assert_eq!(
        Summoner::by_summoner_id(ServerRegion::BR1, &key(), &id).url(),
        "https://br1.api.riotgames.com/lol/summoner/v4/summoners/abc?api_key=RGAPI-1234"
    );
}

#[test]
fn league_list_urls() {
    assert_eq!(
        LeagueList::challenger_by_queue(ServerRegion::EUW1, &key(), RankedQueue::RankedSolo5x5)
            .url(),
        "https://euw1.api.riotgames.com/lol/league/v4/challengerleagues/by-queue/RANKED_SOLO_5X5?api_key=RGAPI-1234"
    );
    assert_eq!(
        LeagueList::grandmaster_by_queue(ServerRegion::EUW1, &key(), RankedQueue::RankedFlexSR)
            .url(),
        "https://euw1.api.riotgames.com/lol/league/v4/grandmasterleagues/by-queue/RANKED_FLEX_SR?api_key=RGAPI-1234"
    );
    assert_eq!(
        LeagueList::master_by_queue(ServerRegion::EUW1, &key(), RankedQueue::RankedFlexTT).url(),
        "https://euw1.api.riotgames.com/lol/league/v4/masterleagues/by-queue/RANKED_FLEX_TT?api_key=RGAPI-1234"
    );
    assert_eq!(
        LeagueList::leagues(ServerRegion::JP1, &key(), &String::from("league-7")).url(),
        "https://jp1.api.riotgames.com/lol/league/v4/leagues/league-7?api_key=RGAPI-1234"
    );
}

#[test]
fn league_entries_by_summoner_url() {
    assert_eq!(
        LeagueEntry::by_summoner(ServerRegion::TR1, &key(), &String::from("s1")).url(),
        "https://tr1.api.riotgames.com/lol/league/v4/entries/by-summoner/s1?api_key=RGAPI-1234"
    );
}

#[test]
fn league_entries_joins_queue_tier_division_in_order() {
    let request = LeagueEntry::entries(
        ServerRegion::EUW1,
        &key(),
        RankedDivision::II,
        RankedTier::GOLD,
        RankedQueue::RankedSolo5x5,
        None,
    );
    assert_eq!(
        request.segments(),
        &vec![String::from("RANKED_SOLO_5X5"), String::from("GOLD"), String::from("II")]
    );
    assert!(keys_of(&request).is_empty());
    assert_eq!(
        request.url(),
        "https://euw1.api.riotgames.com/lol/league/v4/entries/RANKED_SOLO_5X5/GOLD/II?api_key=RGAPI-1234"
    );
}

#[test]
fn league_entries_sends_the_page_only_when_given() {
    let request = LeagueEntry::entries(
        ServerRegion::EUW1,
        &key(),
        RankedDivision::IV,
        RankedTier::IRON,
        RankedQueue::RankedFlexSR,
        Some(3),
    );
    assert_eq!(keys_of(&request), vec!["page"]);
    assert_eq!(request.query()[0].value, "3");
    assert_eq!(
        request.url(),
        "https://euw1.api.riotgames.com/lol/league/v4/entries/RANKED_FLEX_SR/IRON/IV?page=3&api_key=RGAPI-1234"
    );
}

#[test]
fn match_by_id_url() {
    assert_eq!(
        Match::by_match_id(&RoutingRegion::EUROPE, &key(), &String::from("EUW1_123")).url(),
        "https://europe.api.riotgames.com/lol/match/v5/matches/EUW1_123?api_key=RGAPI-1234"
    );
}

#[test]
fn timeline_by_match_id_url() {
    assert_eq!(
        Timeline::by_match_id(&RoutingRegion::SEA, &key(), &String::from("OC1_9")).url(),
        "https://sea.api.riotgames.com/lol/match/v5/matches/OC1_9/timeline?api_key=RGAPI-1234"
    );
}

#[test]
fn match_ids_without_filters_sends_only_the_credential() {
    let request = Match::by_puuid(
        &RoutingRegion::AMERICAS,
        &key(),
        &String::from("puuid-1"),
        None,
        None,
        None,
        None,
        None,
        None,
    );
    assert!(keys_of(&request).is_empty());
    assert_eq!(
        request.url(),
        "https://americas.api.riotgames.com/lol/match/v5/matches/by-puuid/puuid-1/ids?api_key=RGAPI-1234"
    );
}

#[test]
fn match_ids_with_all_filters_uses_the_canonical_order() {
    let request = Match::by_puuid(
        &RoutingRegion::AMERICAS,
        &key(),
        &String::from("puuid-1"),
        Some(1700000000),
        Some(1700086400),
        Some(420),
        Some(QueueType::RANKED),
        Some(0),
        Some(20),
    );
    assert_eq!(keys_of(&request), vec!["start", "startTime", "endTime", "queue", "type", "count"]);
    assert_eq!(
        request.url(),
        "https://americas.api.riotgames.com/lol/match/v5/matches/by-puuid/puuid-1/ids?start=0&startTime=1700000000&endTime=1700086400&queue=420&type=RANKED&count=20&api_key=RGAPI-1234"
    );
}

#[test]
fn match_ids_with_some_filters_keeps_the_order_and_omits_the_rest() {
    let request = Match::by_puuid(
        &RoutingRegion::ASIA,
        &key(),
        &String::from("p"),
        None,
        Some(99),
        None,
        Some(QueueType::TOURNEY),
        None,
        Some(5),
    );
    assert_eq!(keys_of(&request), vec!["endTime", "type", "count"]);
    let url = request.url();
    assert_eq!(
        url,
        "https://asia.api.riotgames.com/lol/match/v5/matches/by-puuid/p/ids?endTime=99&type=TOURNEY&count=5&api_key=RGAPI-1234"
    );
    for absent in ["start=", "startTime=", "queue="] {
        assert!(!url.contains(absent), "{}", absent);
    }
    for present in ["endTime=", "type=", "count="] {
        assert_eq!(url.matches(present).count(), 1, "{}", present);
    }
}

#[test]
fn match_ids_every_subset_of_filters_keeps_order() {
    let names = ["start", "startTime", "endTime", "queue", "type", "count"];
    for mask in 0u32..64 {
        let on = |bit: u32| mask & (1 << bit) != 0;
        let request = Match::by_puuid(
            &RoutingRegion::EUROPE,
            &key(),
            &String::from("p"),
            if on(1) { Some(11) } else { None },
            if on(2) { Some(22) } else { None },
            if on(3) { Some(-3) } else { None },
            if on(4) { Some(QueueType::NORMAL) } else { None },
            if on(0) { Some(5) } else { None },
            if on(5) { Some(50) } else { None },
        );
        let expected: Vec<&str> =
            names.iter().enumerate().filter(|(i, _)| on(*i as u32)).map(|(_, n)| *n).collect();
        assert_eq!(keys_of(&request), expected);
        assert!(request.url().ends_with("api_key=RGAPI-1234"));
    }
}

#[test]
fn negative_numbers_are_written_with_their_sign() {
    let request = Match::by_puuid(
        &RoutingRegion::EUROPE,
        &key(),
        &String::from("p"),
        None,
        None,
        Some(-7),
        None,
        None,
        None,
    );
    assert_eq!(request.query()[0].value, "-7");
}

#[test]
fn identifiers_with_reserved_characters_cannot_change_the_url_shape() {
    let tricky = String::from("../x?y=1&api_key=evil#frag");
    let request = Summoner::by_puuid(ServerRegion::EUW1, &key(), &tricky);
    assert_eq!(request.segments().len(), 1);
    let segment = &request.segments()[0];
    assert!(!segment.contains('/') && !segment.contains('?') && !segment.contains('&'));
    assert!(!segment.contains('#') && !segment.contains('='));
    let decoded = riot_api::encoding::percent_decode(segment).unwrap();
    assert_eq!(String::from_utf8(decoded).unwrap(), tricky);
    let url = request.url();
    assert_eq!(url.matches('?').count(), 1);
    assert_eq!(url.matches("api_key=").count(), 1);
    assert!(url.ends_with("?api_key=RGAPI-1234"));
}

#[test]
fn credential_is_encoded_and_comes_last() {
    let request = RequestSpec::build(
        Host::Platform(ServerRegion::KR),
        "/status",
        &vec![],
        &vec![QueryParam::new("a", Some(String::from("1")))],
        "se cret&x",
    );
    assert_eq!(request.credential(), "se%20cret%26x");
    assert_eq!(request.url(), "https://kr.api.riotgames.com/status?a=1&api_key=se%20cret%26x");
}

#[test]
fn build_skips_absent_and_empty_values() {
    let params = vec![
        QueryParam::new("first", None),
        QueryParam::new("second", Some(String::from("two words"))),
        QueryParam::new("third", Some(String::new())),
        QueryParam::new("fourth", Some(String::from("4"))),
    ];
    let request = RequestSpec::build(
        Host::Routing(RoutingRegion::EUROPE),
        "/x/v1/things",
        &vec!["a", "b c"],
        &params,
        "k",
    );
    assert_eq!(keys_of(&request), vec!["second", "fourth"]);
    assert_eq!(request.query()[0].value, "two%20words");
    assert_eq!(
        request.url(),
        "https://europe.api.riotgames.com/x/v1/things/a/b%20c?second=two%20words&fourth=4&api_key=k"
    );
}

#[test]
fn building_twice_gives_equal_requests() {
    let a = RiotAccount::by_puuid(RoutingRegion::ASIA, &key(), &String::from("p"));
    let b = RiotAccount::by_puuid(RoutingRegion::ASIA, &key(), &String::from("p"));
    assert_eq!(a, b);
    assert_eq!(a.url(), b.url());
}
