use riot_api::failure::{DecodeFailure, DecodeReason, Failure, PathStep};
use riot_api::json::Json;
use riot_api::league::{LeagueEntry, LeagueItem, LeagueList, MiniSeries};
use riot_api::lol_match::{
    Ban, ChampionStats, DamageStats, EventsTimeline, Metadata, Missions, Objective, Objectives,
    ParticipantFrame, PerkStats, PerkStyle, PerkStyleSelection, Perks, Position, Team, Timeline,
};
use riot_api::player::account::RiotAccount;
use riot_api::player::summoner::Summoner;
use riot_api::queue::ranked::RankedQueue;
use riot_api::ranked::division::RankedDivision;
use riot_api::ranked::tier::RankedTier;
use riot_api::response::from_response;
use riot_api::schema::{
    decode_int, decode_items, encode_option, read_member, read_optional, read_optional_member,
    read_required, Schema,
};

fn key(name: &str) -> PathStep {
    PathStep::Key(String::from(name))
}

fn missing(name: &str) -> DecodeFailure {
    DecodeFailure { path: vec![key(name)], reason: DecodeReason::MissingField }
}

fn mismatch(path: Vec<PathStep>) -> DecodeFailure {
    DecodeFailure { path, reason: DecodeReason::TypeMismatch }
}

fn parse(text: &str) -> Json {
    Json::parse(text).expect("the sample is JSON")
}

fn without(json: &Json, name: &str) -> Json {
    match json {
        Json::Object(members) => Json::Object(
            members.iter().filter(|(k, _)| k != name).map(|(k, v)| (k.clone(), v.clone())).collect(),
        ),
        other => other.clone(),
    }
}

fn with(json: &Json, name: &str, value: Json) -> Json {
    match without(json, name) {
        Json::Object(mut members) => {
            members.push((String::from(name), value));
            Json::Object(members)
        }
        other => other,
    }
}

fn keys(json: &Json) -> Vec<String> {
    match json {
        Json::Object(members) => members.iter().map(|(k, _)| k.clone()).collect(),
        _ => vec![],
    }
}

const ACCOUNT: &str = "{\"puuid\":\"p-1\",\"game_name\":\"Some Name\",\"tag_line\":\"EUW\"}";

const SUMMONER: &str = "{\"accountId\":\"acc\",\"profileIconId\":4567,\"revisionDate\":1700000000000,\"id\":\"sid\",\"puuid\":\"p-1\",\"summonerLevel\":321}";

const MINI_SERIES: &str = "{\"losses\":1,\"progress\":\"WLN\",\"target\":2,\"wins\":1}";

fn league_entry_text() -> String {
    format!(
        "{{\"leagueId\":\"l-1\",\"summonerId\":\"sid\",\"queueType\":\"RANKED_SOLO_5X5\",\"tier\":\"GOLD\",\"rank\":\"II\",\"leaguePoints\":75,\"wins\":10,\"losses\":8,\"hotStreak\":false,\"veteran\":true,\"freshBlood\":false,\"inactive\":false,\"miniSeries\":{}}}",
        MINI_SERIES
    )
}

fn league_item_text(summoner: &str) -> String {
    format!(
        "{{\"fresh_blood\":true,\"wins\":3,\"miniSeries\":{},\"inactive\":false,\"veteran\":false,\"hotStreak\":true,\"rank\":\"I\",\"leaguePoints\":900,\"losses\":2,\"summonerId\":\"{}\"}}",
        MINI_SERIES, summoner
    )
}

fn league_list_text() -> String {
    format!(
        "{{\"leagueId\":\"l-9\",\"entries\":[{},{}],\"tier\":\"CHALLENGER\",\"name\":\"Ahri's Zealots\",\"queue\":\"RANKED_FLEX_SR\"}}",
        league_item_text("s1"),
        league_item_text("s2")
    )
}

fn numbered(names: &[&str], start: i64) -> String {
    let parts: Vec<String> =
        names.iter().enumerate().map(|(i, n)| format!("\"{}\":{}", n, start + i as i64)).collect();
    format!("{{{}}}", parts.join(","))
}

const CHAMPION_STATS: [&str; 25] = [
    "abilityHaste",
    "abilityPower",
    "armor",
    "armorPen",
    "armorPenPercent",
    "attackDamage",
    "attackSpeed",
    "bonusArmorPenPercent",
    "bonusMagicPenPercent",
    "ccReduction",
    "cooldownReduction",
    "health",
    "healthMax",
    "healthRegen",
    "lifesteal",
    "magicPen",
    "magicPenPercent",
    "magicResist",
    "movementSpeed",
    "omnivamp",
    "physicalVammp",
    "power",
    "powerMax",
    "powerRegen",
    "spellVamp",
];

const DAMAGE_STATS: [&str; 12] = [
    "magicDamageDone",
    "magicDamageDoneToChampions",
    "magicDamageTaken",
    "physicalDamageDone",
    "physicalDamageDoneToChampions",
    "physicalDamageTaken",
    "totalDamageDone",
    "totalDamageDoneToChampions",
    "totalDamageTaken",
    "trueDamageDone",
    "trueDamageDoneToChampions",
    "trueDamageTaken",
];

fn participant_frame_text(id: i64) -> String {
    format!(
        "{{\"championStats\":{},\"currentGold\":500,\"damageStats\":{},\"goldPerSecond\":2,\"jungleMinionsKilled\":4,\"level\":3,\"minionsKilled\":17,\"participantId\":{},\"position\":{{\"x\":-120,\"y\":4500}},\"timeEnemySpentControlled\":0,\"totalGold\":1200,\"xp\":800}}",
        numbered(&CHAMPION_STATS, 100),
        numbered(&DAMAGE_STATS, -5),
        id
    )
}

fn participant_frames_text() -> String {
    let names = ["one", "two", "three", "four", "five", "six", "seven", "eight", "nine"];
    let parts: Vec<String> = names
        .iter()
        .enumerate()
        .map(|(i, n)| format!("\"{}\":{}", n, participant_frame_text(i as i64 + 1)))
        .collect();
    format!("{{{}}}", parts.join(","))
}

fn timeline_text() -> String {
    let frame = format!(
        "{{\"events\":[{{\"timestamp\":0,\"realTimestamp\":1700000000000,\"type\":\"PAUSE_END\"}}],\"participantFrames\":{},\"timestamp\":60000}}",
        participant_frames_text()
    );
    format!(
        "{{\"metadata\":{{\"dataVersion\":\"2\",\"matchId\":\"EUW1_1\",\"participants\":[\"p-1\",\"p-2\"]}},\"info\":{{\"endOfGameResult\":\"GameComplete\",\"frameInterval\":60000,\"gameId\":1,\"participants\":[{{\"participantId\":1,\"puuid\":\"p-1\"}},{{\"participantId\":2,\"puuid\":\"p-2\"}}],\"frames\":[{},{}]}}}}",
        frame, frame
    )
}

fn round_trips<T: Schema + PartialEq + std::fmt::Debug>(text: &str) -> T {
    let json = parse(text);
    let value = T::decode(&json).expect("the sample decodes");
    let encoded = value.encode();
    assert_eq!(T::decode(&encoded), Ok(T::decode(&json).unwrap()));
    let again = T::decode(&encoded).unwrap().encode();
    assert_eq!(again, encoded);
    value
}

#[test]
fn account_sample_round_trips() {
    let account: RiotAccount = round_trips(ACCOUNT);
    assert_eq!(account.get_puuid(), "p-1");
    assert_eq!(account.get_game_name(), &Some(String::from("Some Name")));
    assert_eq!(account.get_tag_line(), &Some(String::from("EUW")));
    assert_eq!(
        account,
        RiotAccount::new(
            String::from("p-1"),
            Some(String::from("Some Name")),
            Some(String::from("EUW"))
        )
    );
}

#[test]
fn account_encodes_absent_names_as_null() {
    let account = RiotAccount::new(String::from("p"), None, Some(String::from("T")));
    assert_eq!(
        account.encode(),
        Json::Object(vec![
            (String::from("puuid"), Json::Str(String::from("p"))),
            (String::from("game_name"), Json::Null),
            (String::from("tag_line"), Json::Str(String::from("T"))),
        ])
    );
    assert_eq!(RiotAccount::decode(&account.encode()), Ok(account));
}

#[test]
fn account_without_optional_fields_decodes_with_them_absent() {
    let account = RiotAccount::decode(&parse("{\"puuid\":\"p-1\"}")).unwrap();
    assert_eq!(account.get_puuid(), "p-1");
    assert_eq!(account.get_game_name(), &None);
    assert_eq!(account.get_tag_line(), &None);
    let only_tag = RiotAccount::decode(&parse("{\"puuid\":\"p\",\"tag_line\":\"NA\"}")).unwrap();
    assert_eq!(only_tag.get_game_name(), &None);
    assert_eq!(only_tag.get_tag_line(), &Some(String::from("NA")));
    let nulls =
        RiotAccount::decode(&parse("{\"puuid\":\"p\",\"game_name\":null,\"tag_line\":null}"))
            .unwrap();
    assert_eq!(nulls, RiotAccount::new(String::from("p"), None, None));
}

#[test]
fn account_without_required_field_names_it() {
    let failure =
        RiotAccount::decode(&parse("{\"game_name\":\"n\",\"tag_line\":\"t\"}")).unwrap_err();
    assert_eq!(failure, missing("puuid"));
    assert_eq!(failure.path_string(), "puuid");
    assert_eq!(
        from_response::<RiotAccount>(200, "{\"game_name\":\"n\"}"),
        Err(Failure::Decode(missing("puuid")))
    );
}

#[test]
fn account_with_wrong_types_names_the_field() {
    assert_eq!(RiotAccount::decode(&parse("{\"puuid\":7}")), Err(mismatch(vec![key("puuid")])));
    assert_eq!(
        RiotAccount::decode(&parse("{\"puuid\":null}")),
        Err(mismatch(vec![key("puuid")]))
    );
    assert_eq!(
        RiotAccount::decode(&parse("{\"puuid\":\"p\",\"tag_line\":5}")),
        Err(mismatch(vec![key("tag_line")]))
    );
    assert_eq!(RiotAccount::decode(&parse("[]")), Err(mismatch(vec![])));
    assert_eq!(RiotAccount::decode(&parse("\"p\"")), Err(mismatch(vec![])));
}

#[test]
fn account_reports_the_first_field_that_fails() {
    assert_eq!(
        RiotAccount::decode(&parse("{\"game_name\":1,\"tag_line\":2}")),
        Err(missing("puuid"))
    );
    assert_eq!(
        RiotAccount::decode(&parse("{\"puuid\":\"p\",\"game_name\":1,\"tag_line\":2}")),
        Err(mismatch(vec![key("game_name")]))
    );
}

#[test]
fn unknown_members_are_passed_over() {
    let account =
        RiotAccount::decode(&parse("{\"extra\":[1,2],\"puuid\":\"p\",\"more\":{}}")).unwrap();
    assert_eq!(account, RiotAccount::new(String::from("p"), None, None));
}

#[test]
fn summoner_sample_round_trips() {
    let summoner: Summoner = round_trips(SUMMONER);
    assert_eq!(summoner.get_account_id(), "acc");
    assert_eq!(summoner.get_profile_icon_id(), 4567);
    assert_eq!(summoner.get_revision_date(), 1700000000000);
    assert_eq!(summoner.get_id(), "sid");
    assert_eq!(summoner.get_puuid(), "p-1");
    assert_eq!(summoner.get_summoner_level(), 321);
    assert_eq!(
        summoner,
        Summoner::new(
            String::from("acc"),
            4567,
            1700000000000,
            String::from("sid"),
            String::from("p-1"),
            321
        )
    );
}

#[test]
fn summoner_each_missing_field_is_named() {
    let sample = parse(SUMMONER);
    for name in keys(&sample) {
        assert_eq!(Summoner::decode(&without(&sample, &name)), Err(missing(&name)), "{}", name);
    }
}

#[test]
fn summoner_numbers_must_fit_their_fields() {
    let sample = parse(SUMMONER);
    let too_big = with(&sample, "profileIconId", Json::Int(4294967296));
    assert_eq!(Summoner::decode(&too_big), Err(mismatch(vec![key("profileIconId")])));
    let largest = with(&sample, "profileIconId", Json::Int(4294967295));
    assert_eq!(Summoner::decode(&largest).unwrap().get_profile_icon_id(), u32::MAX);
    let negative = with(&sample, "summonerLevel", Json::Int(-1));
    assert_eq!(Summoner::decode(&negative), Err(mismatch(vec![key("summonerLevel")])));
    let real = with(&sample, "revisionDate", Json::Real(String::from("1.5")));
    assert_eq!(Summoner::decode(&real), Err(mismatch(vec![key("revisionDate")])));
    let huge = with(&sample, "revisionDate", Json::Int(18446744073709551616));
    assert_eq!(Summoner::decode(&huge), Err(mismatch(vec![key("revisionDate")])));
    let at_limit = with(&sample, "revisionDate", Json::Int(18446744073709551615));
    assert_eq!(Summoner::decode(&at_limit).unwrap().get_revision_date(), u64::MAX);
}

#[test]
fn league_entries_sample_round_trips() {
    let text = format!("[{},{}]", league_entry_text(), league_entry_text());
    let entries: Vec<LeagueEntry> = round_trips(&text);
    assert_eq!(entries.len(), 2);
    assert_eq!(
        entries[0],
        LeagueEntry {
            league_id: String::from("l-1"),
            summoner_id: String::from("sid"),
            queue_type: RankedQueue::RankedSolo5x5,
            tier: RankedTier::GOLD,
            rank: RankedDivision::II,
            league_points: 75,
            wins: 10,
            losses: 8,
            hot_streak: false,
            veteran: true,
            fresh_blood: false,
            inactive: false,
            mini_series: MiniSeries {
                losses: 1,
                progress: String::from("WLN"),
                target: 2,
                wins: 1
            },
        }
    );
    assert_eq!(from_response::<Vec<LeagueEntry>>(200, &text), Ok(entries));
    assert_eq!(from_response::<Vec<LeagueEntry>>(200, "[]"), Ok(vec![]));
}

#[test]
fn league_entry_each_missing_field_is_named() {
    let sample = parse(&league_entry_text());
    for name in keys(&sample) {
        assert_eq!(LeagueEntry::decode(&without(&sample, &name)), Err(missing(&name)), "{}", name);
    }
}

#[test]
fn league_entry_unknown_names_are_mismatches() {
    let sample = parse(&league_entry_text());
    for (name, value) in [("tier", "WOOD"), ("rank", "V"), ("queueType", "RANKED_SOLO")] {
        let changed = with(&sample, name, Json::Str(String::from(value)));
        assert_eq!(LeagueEntry::decode(&changed), Err(mismatch(vec![key(name)])));
    }
    let number = with(&sample, "tier", Json::Int(1));
    assert_eq!(LeagueEntry::decode(&number), Err(mismatch(vec![key("tier")])));
}

#[test]
fn league_entry_failures_inside_a_list_carry_the_position() {
    let good = parse(&league_entry_text());
    let bad = with(&good, "miniSeries", without(&parse(MINI_SERIES), "target"));
    let list = Json::Array(vec![good.clone(), good.clone(), bad]);
    let failure = Vec::<LeagueEntry>::decode(&list).unwrap_err();
    assert_eq!(
        failure,
        DecodeFailure {
            path: vec![PathStep::Index(2), key("miniSeries"), key("target")],
            reason: DecodeReason::MissingField,
        }
    );
    assert_eq!(failure.path_string(), "[2].miniSeries.target");
}

#[test]
fn league_list_sample_round_trips() {
    let list: LeagueList = round_trips(&league_list_text());
    assert_eq!(list.league_id, "l-9");
    assert_eq!(list.tier, RankedTier::CHALLENGER);
    assert_eq!(list.name, "Ahri's Zealots");
    assert_eq!(list.queue, RankedQueue::RankedFlexSR);
    assert_eq!(list.entries.len(), 2);
    assert_eq!(
        list.entries[1],
        LeagueItem {
            fresh_blood: true,
            wins: 3,
            mini_series: MiniSeries {
                losses: 1,
                progress: String::from("WLN"),
                target: 2,
                wins: 1
            },
            inactive: false,
            veteran: false,
            hot_streak: true,
            rank: String::from("I"),
            league_points: 900,
            losses: 2,
            summoner_id: String::from("s2"),
        }
    );
}

#[test]
fn league_list_failures_carry_the_whole_path() {
    let text = league_list_text().replacen("\"leaguePoints\":900", "\"leaguePoints\":\"900\"", 2);
    let text = text.replacen("\"leaguePoints\":\"900\"", "\"leaguePoints\":900", 1);
    let failure = LeagueList::decode(&parse(&text)).unwrap_err();
    assert_eq!(
        failure,
        mismatch(vec![key("entries"), PathStep::Index(1), key("leaguePoints")])
    );
    assert_eq!(failure.path_string(), "entries[1].leaguePoints");
    let no_list = with(&parse(&league_list_text()), "entries", Json::Int(0));
    assert_eq!(LeagueList::decode(&no_list), Err(mismatch(vec![key("entries")])));
}

#[test]
fn match_ids_sample_round_trips() {
    let ids: Vec<String> = round_trips("[\"EUW1_1\",\"EUW1_2\",\"EUW1_3\"]");
    assert_eq!(ids, vec!["EUW1_1", "EUW1_2", "EUW1_3"]);
    assert_eq!(from_response::<Vec<String>>(200, "[]"), Ok(vec![]));
    assert_eq!(
        from_response::<Vec<String>>(200, "[\"a\", 2]"),
        Err(Failure::Decode(mismatch(vec![PathStep::Index(1)])))
    );
    assert_eq!(
        from_response::<Vec<String>>(200, "{\"a\":1}"),
        Err(Failure::Decode(mismatch(vec![])))
    );
}

#[test]
fn timeline_sample_round_trips() {
    let timeline: Timeline = round_trips(&timeline_text());
    assert_eq!(timeline.metadata.match_id, "EUW1_1");
    assert_eq!(timeline.metadata.participants, vec!["p-1", "p-2"]);
    assert_eq!(timeline.info.frame_interval, 60000);
    assert_eq!(timeline.info.participants.len(), 2);
    assert_eq!(timeline.info.participants[1].puuid, "p-2");
    assert_eq!(timeline.info.frames.len(), 2);
    let frame = &timeline.info.frames[1];
    assert_eq!(frame.timestamp, 60000);
    assert_eq!(
        frame.events,
        vec![EventsTimeline {
            timestamp: 0,
            real_timestamp: 1700000000000,
            event_type: String::from("PAUSE_END"),
        }]
    );
    let nine: &ParticipantFrame = &frame.participant_frames.nine;
    assert_eq!(nine.participant_id, 9);
    assert_eq!(nine.position, Position { x: -120, y: 4500 });
    assert_eq!(nine.champion_stats.ability_haste, 100);
    assert_eq!(nine.champion_stats.physical_vammp, 120);
    assert_eq!(nine.champion_stats.spell_vamp, 124);
    assert_eq!(nine.damage_stats.magic_damage_done, -5);
    assert_eq!(nine.damage_stats.true_damage_taken, 6);
    assert_eq!(frame.participant_frames.one.participant_id, 1);
}

#[test]
fn timeline_failures_carry_the_whole_path() {
    let text = timeline_text().replacen("\"xp\":800", "\"xp\":true", 12);
    let text = text.replacen("\"xp\":true", "\"xp\":800", 11);
    let failure = Timeline::decode(&parse(&text)).unwrap_err();
    assert_eq!(failure.reason, DecodeReason::TypeMismatch);
    assert_eq!(failure.path_string(), "info.frames[1].participantFrames.three.xp");
    let missing_info = without(&parse(&timeline_text()), "info");
    assert_eq!(Timeline::decode(&missing_info), Err(missing("info")));
}

#[test]
fn champion_and_damage_stats_each_missing_field_is_named() {
    let stats = parse(&numbered(&CHAMPION_STATS, 0));
    assert!(ChampionStats::decode(&stats).is_ok());
    for name in CHAMPION_STATS.iter() {
        assert_eq!(ChampionStats::decode(&without(&stats, name)), Err(missing(name)));
    }
    let damage = parse(&numbered(&DAMAGE_STATS, 0));
    assert!(DamageStats::decode(&damage).is_ok());
    for name in DAMAGE_STATS.iter() {
        assert_eq!(DamageStats::decode(&without(&damage, name)), Err(missing(name)));
    }
}

#[test]
fn match_parts_round_trip() {
    let metadata: Metadata =
        round_trips("{\"dataVersion\":\"2\",\"matchId\":\"NA1_5\",\"participants\":[\"a\",\"b\"]}");
    assert_eq!(
        metadata,
        Metadata {
            data_version: String::from("2"),
            match_id: String::from("NA1_5"),
            participants: vec![String::from("a"), String::from("b")],
        }
    );
    let scores: Vec<String> = (0..12).map(|i| format!("\"playerScore{}\":{}", i, i * 2)).collect();
    let missions: Missions = round_trips(&format!("{{{}}}", scores.join(",")));
    assert_eq!(missions.player_score0, 0);
    assert_eq!(missions.player_score1, 2);
    assert_eq!(missions.player_score10, 20);
    assert_eq!(missions.player_score11, 22);
    let perks: Perks = round_trips(
        "{\"statPerks\":{\"defense\":1,\"flex\":2,\"offense\":3},\"styles\":[{\"description\":\"primaryStyle\",\"selections\":[{\"perk\":8005,\"var1\":1,\"var2\":2,\"var3\":3}],\"style\":8000}]}",
    );
    assert_eq!(
        perks,
        Perks {
            stat_perks: PerkStats { defense: 1, flex: 2, offense: 3 },
            styles: vec![PerkStyle {
                description: String::from("primaryStyle"),
                selections: vec![PerkStyleSelection { perk: 8005, var1: 1, var2: 2, var3: 3 }],
                style: 8000,
            }],
        }
    );
    let objective = "{\"first\":true,\"kills\":2}";
    let team: Team = round_trips(&format!(
        "{{\"bans\":[{{\"championId\":1,\"pickTurn\":2}}],\"objectives\":{{\"baron\":{o},\"champion\":{o},\"dragon\":{o},\"horde\":{o},\"inhibitor\":{o},\"riftHerald\":{o},\"tower\":{{\"first\":false,\"kills\":11}}}},\"teamId\":100,\"win\":true}}",
        o = objective
    ));
    let taken = Objective { first: true, kills: 2 };
    assert_eq!(
        team,
        Team {
            bans: vec![Ban { champion_id: 1, pick_turn: 2 }],
            objectives: Objectives {
                baron: taken,
                champion: taken,
                dragon: taken,
                horde: taken,
                inhibitor: taken,
                rift_herald: taken,
                tower: Objective { first: false, kills: 11 },
            },
            team_id: 100,
            win: true,
        }
    );
}

#[test]
fn signed_fields_accept_the_whole_range() {
    let low = parse("{\"x\":-9223372036854775808,\"y\":9223372036854775807}");
    assert_eq!(Position::decode(&low), Ok(Position { x: i64::MIN, y: i64::MAX }));
    let over = parse("{\"x\":0,\"y\":9223372036854775808}");
    assert_eq!(Position::decode(&over), Err(mismatch(vec![key("y")])));
    let under = Json::Object(vec![
        (String::from("x"), Json::Int(-9223372036854775809)),
        (String::from("y"), Json::Int(0)),
    ]);
    assert_eq!(Position::decode(&under), Err(mismatch(vec![key("x")])));
}

#[test]
fn scalars_decode_and_encode() {
    assert_eq!(String::decode(&Json::Str(String::from("s"))), Ok(String::from("s")));
    assert_eq!(String::decode(&Json::Int(1)), Err(mismatch(vec![])));
    assert_eq!(bool::decode(&Json::Bool(true)), Ok(true));
    assert_eq!(bool::decode(&Json::Int(1)), Err(mismatch(vec![])));
    assert_eq!(u32::decode(&Json::Int(7)), Ok(7));
    assert_eq!(u32::decode(&Json::Int(-7)), Err(mismatch(vec![])));
    assert_eq!(u64::decode(&Json::Int(7)), Ok(7));
    assert_eq!(i64::decode(&Json::Int(-7)), Ok(-7));
    assert_eq!(i64::decode(&Json::Str(String::from("7"))), Err(mismatch(vec![])));
    assert_eq!(String::from("s").encode(), Json::Str(String::from("s")));
    assert_eq!(true.encode(), Json::Bool(true));
    assert_eq!(7u32.encode(), Json::Int(7));
    assert_eq!(u64::MAX.encode(), Json::Int(18446744073709551615));
    assert_eq!((-7i64).encode(), Json::Int(-7));
    assert_eq!(RankedTier::GOLD.encode(), Json::Str(String::from("GOLD")));
    assert_eq!(RankedDivision::IV.encode(), Json::Str(String::from("IV")));
    assert_eq!(RankedQueue::RankedFlexTT.encode(), Json::Str(String::from("RANKED_FLEX_TT")));
    assert_eq!(vec![1u32, 2].encode(), Json::Array(vec![Json::Int(1), Json::Int(2)]));
    assert_eq!(encode_option::<u32>(&None), Json::Null);
    assert_eq!(encode_option::<u32>(&Some(3)), Json::Int(3));
}

#[test]
fn integer_bounds_are_inclusive() {
    assert_eq!(decode_int(&Json::Int(5), 5, 9), Ok(5));
    assert_eq!(decode_int(&Json::Int(9), 5, 9), Ok(9));
    assert_eq!(decode_int(&Json::Int(4), 5, 9), Err(mismatch(vec![])));
    assert_eq!(decode_int(&Json::Int(10), 5, 9), Err(mismatch(vec![])));
    assert_eq!(decode_int(&Json::Bool(true), 5, 9), Err(mismatch(vec![])));
}

#[test]
fn field_readers() {
    let object = parse("{\"a\":1,\"b\":null,\"c\":\"x\"}");
    assert_eq!(read_member(&object, "a"), Ok(&Json::Int(1)));
    assert_eq!(read_member(&object, "b"), Ok(&Json::Null));
    assert_eq!(read_member(&object, "z"), Err(missing("z")));
    assert_eq!(read_member(&Json::Int(1), "a"), Err(mismatch(vec![])));
    assert_eq!(read_optional_member(&object, "a"), Ok(Some(&Json::Int(1))));
    assert_eq!(read_optional_member(&object, "b"), Ok(None));
    assert_eq!(read_optional_member(&object, "z"), Ok(None));
    assert_eq!(read_optional_member(&Json::Null, "a"), Err(mismatch(vec![])));
    assert_eq!(read_required::<u32>(&object, "a"), Ok(1));
    assert_eq!(read_required::<u32>(&object, "b"), Err(mismatch(vec![key("b")])));
    assert_eq!(read_required::<u32>(&object, "c"), Err(mismatch(vec![key("c")])));
    assert_eq!(read_optional::<String>(&object, "c"), Ok(Some(String::from("x"))));
    assert_eq!(read_optional::<String>(&object, "b"), Ok(None));
    assert_eq!(read_optional::<String>(&object, "a"), Err(mismatch(vec![key("a")])));
    assert_eq!(
        decode_items::<bool>(&vec![Json::Bool(true), Json::Bool(false)]),
        Ok(vec![true, false])
    );
    assert_eq!(
        decode_items::<bool>(&vec![Json::Bool(true), Json::Null, Json::Int(1)]),
        Err(mismatch(vec![PathStep::Index(1)]))
    );
}

#[test]
fn failure_paths_as_text() {
    assert_eq!(DecodeFailure::here(DecodeReason::Malformed).path_string(), "");
    assert_eq!(DecodeFailure::at("a", DecodeReason::MissingField).path_string(), "a");
    let nested = DecodeFailure::at("c", DecodeReason::TypeMismatch)
        .within_index(12)
        .within_key("b")
        .within_key("a");
    assert_eq!(
        nested.path,
        vec![key("a"), key("b"), PathStep::Index(12), key("c")]
    );
    assert_eq!(nested.path_string(), "a.b[12].c");
    let list_first = DecodeFailure::here(DecodeReason::TypeMismatch).within_index(0).within_index(3);
    assert_eq!(list_first.path_string(), "[3][0]");
}
