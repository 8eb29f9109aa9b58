use riot_api::failure::{DecodeFailure, DecodeReason, Failure, PathStep};
use riot_api::json::Json;
use riot_api::lol_match::{Challenges, Match, Participant};
use riot_api::response::from_response;
use riot_api::schema::{Number, Schema};

#[derive(Clone, Copy, PartialEq)]
enum Kind {
    Int,
    Bool,
    Text,
    OptInt,
    Num,
    OptNum,
    Ints,
    Challenges,
    Missions,
    Perks,
}

const PARTICIPANT: [(&str, Kind); 139] = [
    ("allInPings", Kind::Int),
    ("assistMePings", Kind::Int),
    ("assists", Kind::Int),
    ("baronKills", Kind::Int),
    ("bountyLevel", Kind::Int),
    ("champExperience", Kind::Int),
    ("champLevel", Kind::Int),
    ("championId", Kind::Int),
    ("championName", Kind::Text),
    ("commandPings", Kind::Int),
    ("championTransform", Kind::OptInt),
    ("consumablesPurchased", Kind::Int),
    ("challenges", Kind::Challenges),
    ("damageDealtToBuildings", Kind::Int),
    ("damageDealtToObjectives", Kind::Int),
    ("damageDealtToTurrets", Kind::Int),
    ("damageSelfMitigated", Kind::Int),
    ("deaths", Kind::Int),
    ("detectorWardsPlaced", Kind::Int),
    ("doubleKills", Kind::Int),
    ("dragonKills", Kind::Int),
    ("eligibleForProgression", Kind::Bool),
    ("enemyMissingPings", Kind::Int),
    ("enemyVisionPings", Kind::Int),
    ("firstBloodAssist", Kind::Bool),
    ("firstBloodKill", Kind::Bool),
    ("firstTowerAssist", Kind::Bool),
    ("gameEndedInEarlySurrender", Kind::Bool),
    ("gameEndedInSurrender", Kind::Bool),
    ("holdPings", Kind::Int),
    ("getBackPings", Kind::Int),
    ("goldEarned", Kind::Int),
    ("goldSpent", Kind::Int),
    ("individualPosition", Kind::Text),
    ("inhibitorKills", Kind::Int),
    ("inhibitorTakedowns", Kind::Int),
    ("inhibitorsLost", Kind::Int),
    ("item0", Kind::Int),
    ("item1", Kind::Int),
    ("item2", Kind::Int),
    ("item3", Kind::Int),
    ("item4", Kind::Int),
    ("item5", Kind::Int),
    ("item6", Kind::Int),
    ("itemsPurchased", Kind::Int),
    ("killingSprees", Kind::Int),
    ("kills", Kind::Int),
    ("lane", Kind::Text),
    ("largestCriticalStrike", Kind::Int),
    ("largestKillingSpree", Kind::Int),
    ("largestMultiKill", Kind::Int),
    ("longestTimeSpentLiving", Kind::Int),
    ("magicDamageDealt", Kind::Int),
    ("magicDamageDealtToChampions", Kind::Int),
    ("magicDamageTaken", Kind::Int),
    ("missions", Kind::Missions),
    ("neutralMinionsKilled", Kind::Int),
    ("needVisionPings", Kind::Int),
    ("nexusKills", Kind::Int),
    ("nexusTakedowns", Kind::Int),
    ("nexusLost", Kind::Int),
    ("objectivesStolen", Kind::Int),
    ("objectivesStolenAssists", Kind::Int),
    ("onMyWayPings", Kind::Int),
    ("participantId", Kind::Int),
    ("playerScore0", Kind::OptInt),
    ("playerScore1", Kind::OptInt),
    ("playerScore2", Kind::OptInt),
    ("playerScore3", Kind::OptInt),
    ("playerScore4", Kind::OptInt),
    ("playerScore5", Kind::OptInt),
    ("playerScore6", Kind::OptInt),
    ("playerScore7", Kind::OptInt),
    ("playerScore8", Kind::OptInt),
    ("playerScore9", Kind::OptInt),
    ("playerScore10", Kind::OptInt),
    ("playerScore11", Kind::OptInt),
    ("pentaKills", Kind::Int),
    ("perks", Kind::Perks),
    ("physicalDamageDealt", Kind::Int),
    ("physicalDamageDealtToChampions", Kind::Int),
    ("physicalDamageTaken", Kind::Int),
    ("placement", Kind::Int),
    ("playerAugment1", Kind::Int),
    ("playerAugment2", Kind::Int),
    ("playerAugment3", Kind::Int),
    ("playerAugment4", Kind::Int),
    ("playerSubteamId", Kind::Int),
    ("pushPings", Kind::Int),
    ("profileIcon", Kind::Int),
    ("puuid", Kind::Text),
    ("quadraKills", Kind::Int),
    ("riotIdGameName", Kind::Text),
    ("riotIdTagline", Kind::Text),
    ("role", Kind::Text),
    ("sightWardsBoughtInGame", Kind::Int),
    ("spell1Casts", Kind::Int),
    ("spell2Casts", Kind::Int),
    ("spell3Casts", Kind::Int),
    ("spell4Casts", Kind::Int),
    ("subteamPlacement", Kind::Int),
    ("summoner1Casts", Kind::Int),
    ("summoner1Id", Kind::Int),
    ("summoner2Casts", Kind::Int),
    ("summoner2Id", Kind::Int),
    ("summonerId", Kind::Text),
    ("summonerLevel", Kind::Int),
    ("summonerName", Kind::Text),
    ("teamEarlySurrendered", Kind::Bool),
    ("teamId", Kind::Int),
    ("teamPosition", Kind::Text),
    ("timeCCingOthers", Kind::Int),
    ("timePlayed", Kind::Int),
    ("totalAllyJungleMinionsKilled", Kind::Int),
    ("totalDamageDealt", Kind::Int),
    ("totalDamageDealtToChampions", Kind::Int),
    ("totalDamageShieldedOnTeammates", Kind::Int),
    ("totalDamageTaken", Kind::Int),
    ("totalEnemyJungleMinionsKilled", Kind::Int),
    ("totalHeal", Kind::Int),
    ("totalHealsOnTeammates", Kind::Int),
    ("totalMinionsKilled", Kind::Int),
    ("totalTimeCCDealt", Kind::Int),
    ("totalTimeSpentDead", Kind::Int),
    ("totalUnitsHealed", Kind::Int),
    ("tripleKills", Kind::Int),
    ("trueDamageDealt", Kind::Int),
    ("trueDamageDealtToChampions", Kind::Int),
    ("trueDamageTaken", Kind::Int),
    ("turretKills", Kind::Int),
    ("turretTakedowns", Kind::Int),
    ("turretsLost", Kind::Int),
    ("unrealKills", Kind::Int),
    ("visionScore", Kind::Int),
    ("visionClearedPings", Kind::Int),
    ("visionWardsBoughtInGame", Kind::Int),
    ("wardsKilled", Kind::Int),
    ("wardsPlaced", Kind::Int),
    ("win", Kind::Bool),
];

const CHALLENGES: [(&str, Kind); 139] = [
    ("12AssistStreakCount", Kind::OptInt),
    ("HealFromMapSources", Kind::Num),
    ("InfernalScalePickup", Kind::OptInt),
    ("SWARM_DefeatAatrox", Kind::OptInt),
    ("SWARM_DefeatBriar", Kind::OptInt),
    ("SWARM_DefeatMiniBosses", Kind::OptInt),
    ("SWARM_EvolveWeapon", Kind::OptInt),
    ("SWARM_Have3Passives", Kind::OptInt),
    ("SWARM_KillEnemy", Kind::OptInt),
    ("SWARM_PickupGold", Kind::OptInt),
    ("SWARM_ReachLevel50", Kind::OptInt),
    ("SWARM_Survive15Min", Kind::OptInt),
    ("SWARM_WinWith5EvolvedWeapons", Kind::OptInt),
    ("abilityUses", Kind::OptInt),
    ("acesBefore15Minutes", Kind::OptInt),
    ("alliedJungleMonsterKills", Kind::OptInt),
    ("baronTakedowns", Kind::OptInt),
    ("blastConeOppositeOpponentCount", Kind::OptInt),
    ("bountyGold", Kind::OptNum),
    ("buffsStolen", Kind::OptInt),
    ("completeSupportQuestInTime", Kind::OptInt),
    ("controlWardTimeCoverageInRiverOrEnemyHalf", Kind::OptNum),
    ("controlWardsPlaced", Kind::OptInt),
    ("damagePerMinute", Kind::Num),
    ("damageTakenOnTeamPercentage", Kind::Num),
    ("dancedWithRiftHerald", Kind::OptInt),
    ("deathsByEnemyChamps", Kind::OptInt),
    ("dodgeSkillShotsSmallWindow", Kind::OptInt),
    ("doubleAces", Kind::OptInt),
    ("dragonTakedowns", Kind::OptInt),
    ("earlyLaningPhaseGoldExpAdvantage", Kind::OptInt),
    ("effectiveHealAndShielding", Kind::Num),
    ("elderDragonKillsWithOpposingSoul", Kind::OptInt),
    ("elderDragonMultikills", Kind::OptInt),
    ("enemyChampionImmobilizations", Kind::OptInt),
    ("enemyJungleMonsterKills", Kind::OptInt),
    ("epicMonsterKillsNearEnemyJungler", Kind::OptInt),
    ("epicMonsterKillsWithin30SecondsOfSpawn", Kind::OptInt),
    ("epicMonsterSteals", Kind::OptInt),
    ("epicMonsterStolenWithoutSmite", Kind::OptInt),
    ("firstTurretKilled", Kind::OptInt),
    ("fistBumpParticipation", Kind::OptInt),
    ("flawlessAces", Kind::OptInt),
    ("fullTeamTakedown", Kind::OptInt),
    ("gameLength", Kind::Num),
    ("getTakedownsInAllLanesEarlyJungleAsLaner", Kind::OptInt),
    ("goldPerMinute", Kind::Num),
    ("hadOpenNexus", Kind::OptInt),
    ("immobilizeAndKillWithAlly", Kind::OptInt),
    ("initialBuffCount", Kind::OptInt),
    ("initialCrabCount", Kind::OptInt),
    ("jungleCsBefore10Minutes", Kind::Num),
    ("junglerTakedownsNearDamagedEpicMonster", Kind::OptInt),
    ("kTurretsDestroyedBeforePlatesFall", Kind::OptInt),
    ("kda", Kind::Num),
    ("killAfterHiddenWithAlly", Kind::OptInt),
    ("killParticipation", Kind::Num),
    ("killedChampTookFullTeamDamageSurvived", Kind::OptInt),
    ("killingSprees", Kind::OptInt),
    ("killsNearEnemyTurret", Kind::OptInt),
    ("killsOnOtherLanesEarlyJungleAsLaner", Kind::OptInt),
    ("killsOnRecentlyHealedByAramPack", Kind::OptInt),
    ("killsUnderOwnTurret", Kind::OptInt),
    ("killsWithHelpFromEpicMonster", Kind::OptInt),
    ("knockEnemyIntoTeamAndKill", Kind::OptInt),
    ("landSkillShotsEarlyGame", Kind::OptInt),
    ("laneMinionsFirst10Minutes", Kind::OptInt),
    ("laningPhaseGoldExpAdvantage", Kind::OptInt),
    ("legendaryCount", Kind::OptInt),
    ("legendaryItemUsed", Kind::Ints),
    ("lostAnInhibitor", Kind::OptInt),
    ("maxCsAdvantageOnLaneOpponent", Kind::OptNum),
    ("maxKillDeficit", Kind::OptInt),
    ("maxLevelLeadLaneOpponent", Kind::OptInt),
    ("mejaisFullStackInTime", Kind::OptInt),
    ("moreEnemyJungleThanOpponent", Kind::Num),
    ("multiKillOneSpell", Kind::OptInt),
    ("multiTurretRiftHeraldCount", Kind::OptInt),
    ("multikills", Kind::OptInt),
    ("multikillsAfterAggressiveFlash", Kind::OptInt),
    ("outerTurretExecutesBefore10Minutes", Kind::OptInt),
    ("outnumberedKills", Kind::OptInt),
    ("outnumberedNexusKill", Kind::OptInt),
    ("perfectDragonSoulsTaken", Kind::OptInt),
    ("perfectGame", Kind::OptInt),
    ("pickKillWithAlly", Kind::OptInt),
    ("playedChampSelectPosition", Kind::OptInt),
    ("poroExplosions", Kind::OptInt),
    ("quickCleanse", Kind::OptInt),
    ("quickFirstTurret", Kind::OptInt),
    ("quickSoloKills", Kind::OptInt),
    ("riftHeraldTakedowns", Kind::OptInt),
    ("saveAllyFromDeath", Kind::OptInt),
    ("scuttleCrabKills", Kind::OptInt),
    ("skillshotsDodged", Kind::OptInt),
    ("skillshotsHit", Kind::OptInt),
    ("snowballsHit", Kind::OptInt),
    ("soloBaronKills", Kind::OptInt),
    ("soloKills", Kind::OptInt),
    ("stealthWardsPlaced", Kind::OptInt),
    ("survivedSingleDigitHpCount", Kind::OptInt),
    ("survivedThreeImmobilizesInFight", Kind::OptInt),
    ("takedownOnFirstTurret", Kind::OptInt),
    ("takedowns", Kind::OptInt),
    ("takedownsAfterGainingLevelAdvantage", Kind::OptInt),
    ("takedownsBeforeJungleMinionSpawn", Kind::OptInt),
    ("takedownsFirstXMinutes", Kind::OptInt),
    ("takedownsInAlcove", Kind::OptInt),
    ("takedownsInEnemyFountain", Kind::OptInt),
    ("teamBaronKills", Kind::OptInt),
    ("teamDamagePercentage", Kind::Num),
    ("teamElderDragonKills", Kind::OptInt),
    ("teamRiftHeraldKills", Kind::OptInt),
    ("tookLargeDamageSurvived", Kind::OptInt),
    ("turretPlatesTaken", Kind::OptInt),
    ("turretTakedowns", Kind::OptInt),
    ("turretsTakenWithRiftHerald", Kind::OptInt),
    ("twentyMinionsIn3SecondsCount", Kind::OptInt),
    ("twoWardsOneSweeperCount", Kind::OptInt),
    ("unseenRecalls", Kind::OptInt),
    ("visionScoreAdvantageLaneOpponent", Kind::Num),
    ("visionScorePerMinute", Kind::Num),
    ("voidMonsterKill", Kind::OptInt),
    ("wardTakedowns", Kind::OptInt),
    ("wardTakedownsBefore20M", Kind::OptInt),
    ("wardsGuarded", Kind::OptInt),
    ("earliestDragonTakedown", Kind::OptNum),
    ("highestCrowdControlScore", Kind::OptInt),
    ("junglerKillsEarlyJungle", Kind::OptInt),
    ("killsOnLanersEarlyJungleAsJungler", Kind::OptInt),
    ("teleportTakedowns", Kind::OptInt),
    ("baronBuffGoldAdvantageOverThreshold", Kind::OptInt),
    ("earliestBaron", Kind::OptNum),
    ("earliestElderDragon", Kind::OptNum),
    ("firstTurretKilledTime", Kind::OptNum),
    ("highestChampionDamage", Kind::OptInt),
    ("soloTurretsLategame", Kind::OptInt),
    ("fasterSupportQuestCompletion", Kind::OptInt),
    ("highestWardKills", Kind::OptInt),
];

fn is_optional(kind: Kind) -> bool {
    kind == Kind::OptInt || kind == Kind::OptNum
}

fn missions_text() -> String {
    let parts: Vec<String> = (0..12).map(|i| format!("\"playerScore{}\":{}", i, i)).collect();
    format!("{{{}}}", parts.join(","))
}

const PERKS: &str = "{\"statPerks\":{\"defense\":5001,\"flex\":5008,\"offense\":5005},\"styles\":[{\"description\":\"primaryStyle\",\"selections\":[{\"perk\":8005,\"var1\":1,\"var2\":2,\"var3\":3}],\"style\":8000},{\"description\":\"subStyle\",\"selections\":[],\"style\":8100}]}";

fn member_text(key: &str, kind: Kind, place: usize) -> String {
    let value = match kind {
        Kind::Int | Kind::OptInt => format!("{}", place as i64 - 3),
        Kind::Bool => String::from(if place % 2 == 0 { "true" } else { "false" }),
        Kind::Text => format!("\"text {}\"", place),
        Kind::Num | Kind::OptNum => {
            if place % 2 == 0 {
                format!("{}.5", place)
            } else {
                format!("{}", place)
            }
        }
        Kind::Ints => String::from("[3, 1, 2]"),
        Kind::Challenges => object_text(&CHALLENGES),
        Kind::Missions => missions_text(),
        Kind::Perks => String::from(PERKS),
    };
    format!("\"{}\":{}", key, value)
}

fn object_text(fields: &[(&str, Kind)]) -> String {
    let parts: Vec<String> =
        fields.iter().enumerate().map(|(i, (key, kind))| member_text(key, *kind, i)).collect();
    format!("{{{}}}", parts.join(","))
}

fn team_text(id: i64, win: bool) -> String {
    let o = "{\"first\":false,\"kills\":1}";
    format!(
        "{{\"bans\":[],\"objectives\":{{\"baron\":{o},\"champion\":{o},\"dragon\":{o},\"horde\":{o},\"inhibitor\":{o},\"riftHerald\":{o},\"tower\":{o}}},\"teamId\":{},\"win\":{}}}",
        id,
        win,
        o = o
    )
}

fn match_text() -> String {
    format!(
        "{{\"metadata\":{{\"dataVersion\":\"2\",\"matchId\":\"EUW1_77\",\"participants\":[\"p-1\",\"p-2\"]}},\"info\":{{\"endOfGameResult\":\"GameComplete\",\"gameCreation\":1700000000000,\"gameDuration\":1800,\"gameEndTimestamp\":1700001800000,\"gameId\":77,\"gameMode\":\"CLASSIC\",\"mapId\":11,\"participants\":[{},{}],\"platformId\":\"EUW1\",\"queueId\":420,\"teams\":[{},{}],\"tournamentCode\":null}}}}",
        object_text(&PARTICIPANT),
        object_text(&PARTICIPANT),
        team_text(100, true),
        team_text(200, false)
    )
}

fn parse(text: &str) -> Json {
    Json::parse(text).expect("the sample is JSON")
}

fn without(json: &Json, name: &str) -> Json {
    match json {
        Json::Object(members) => Json::Object(
            members.iter().filter(|(k, _)| k != name).map(|(k, v)| (k.clone(), v.clone())).collect(),
        ),
        other => other.clone(),
    }
}

fn with(json: &Json, name: &str, value: Json) -> Json {
    match without(json, name) {
        Json::Object(mut members) => {
            members.push((String::from(name), value));
            Json::Object(members)
        }
        other => other,
    }
}

fn missing(name: &str) -> DecodeFailure {
    DecodeFailure {
        path: vec![PathStep::Key(String::from(name))],
        reason: DecodeReason::MissingField,
    }
}

fn mismatch(name: &str) -> DecodeFailure {
    DecodeFailure {
        path: vec![PathStep::Key(String::from(name))],
        reason: DecodeReason::TypeMismatch,
    }
}

#[test]
fn match_sample_round_trips() {
    let json = parse(&match_text());
    let decoded = Match::decode(&json).expect("the sample decodes");
    assert_eq!(decoded.metadata.match_id, "EUW1_77");
    assert_eq!(decoded.info.game_end_timestamp, Some(1700001800000));
    assert_eq!(decoded.info.tournament_code, None);
    assert_eq!(decoded.info.queue_id, 420);
    assert_eq!(decoded.info.teams.len(), 2);
    assert_eq!(decoded.info.teams[1].team_id, 200);
    assert_eq!(decoded.info.participants.len(), 2);
    let first = &decoded.info.participants[0];
    assert_eq!(first.all_in_pings, -3);
    assert_eq!(first.champion_name, "text 8");
    assert_eq!(first.champion_transform, Some(7));
    assert_eq!(first.missions.player_score11, 11);
    assert_eq!(first.perks.styles.len(), 2);
    assert_eq!(first.challenges.n12assist_streak_count, Some(-3));
    assert_eq!(first.challenges.heal_from_map_sources, Number::Whole(1));
    let encoded = decoded.encode();
    assert_eq!(Match::decode(&encoded), Ok(Match::decode(&json).unwrap()));
    assert_eq!(Match::decode(&encoded).unwrap().encode(), encoded);
    assert_eq!(from_response::<Match>(200, &match_text()), Ok(decoded));
}

#[test]
fn participant_every_field_is_read_from_its_own_key() {
    let sample = parse(&object_text(&PARTICIPANT));
    let decoded = Participant::decode(&sample).expect("the sample decodes");
    let encoded = decoded.encode();
    for (key, kind) in PARTICIPANT.iter() {
        match kind {
            Kind::Challenges | Kind::Missions | Kind::Perks => {
                assert!(matches!(encoded.member(key), Some(Json::Object(_))), "{}", key)
            }
            _ => assert_eq!(encoded.member(key), sample.member(key), "{}", key),
        }
    }
    assert_eq!(Participant::decode(&encoded), Ok(decoded));
    match encoded {
        Json::Object(members) => assert_eq!(members.len(), PARTICIPANT.len()),
        _ => panic!("a participant encodes to an object"),
    }
}

#[test]
fn participant_missing_fields() {
    let sample = parse(&object_text(&PARTICIPANT));
    for (key, kind) in PARTICIPANT.iter() {
        let outcome = Participant::decode(&without(&sample, key));
        if is_optional(*kind) {
            assert!(outcome.is_ok(), "{}", key);
        } else {
            assert_eq!(outcome, Err(missing(key)), "{}", key);
        }
    }
}

#[test]
fn participant_mismatched_fields() {
    let sample = parse(&object_text(&PARTICIPANT));
    for (key, kind) in PARTICIPANT.iter() {
        let wrong = match kind {
            Kind::Text => Json::Int(1),
            _ => Json::Str(String::from("wrong")),
        };
        let outcome = Participant::decode(&with(&sample, key, wrong));
        assert_eq!(outcome, Err(mismatch(key)), "{}", key);
    }
}

#[test]
fn challenges_every_field_is_read_from_its_own_key() {
    let sample = parse(&object_text(&CHALLENGES));
    let decoded = Challenges::decode(&sample).expect("the sample decodes");
    let encoded = decoded.encode();
    for (key, _) in CHALLENGES.iter() {
        assert_eq!(encoded.member(key), sample.member(key), "{}", key);
    }
    assert_eq!(Challenges::decode(&encoded), Ok(decoded));
}

#[test]
fn challenges_missing_fields() {
    let sample = parse(&object_text(&CHALLENGES));
    for (key, kind) in CHALLENGES.iter() {
        let outcome = Challenges::decode(&without(&sample, key));
        if is_optional(*kind) {
            let decoded = outcome.expect("an optional field may be absent");
            assert_eq!(decoded.encode().member(key), Some(&Json::Null), "{}", key);
        } else {
            assert_eq!(outcome, Err(missing(key)), "{}", key);
        }
    }
}

#[test]
fn fractions_are_kept_as_their_text() {
    let sample = parse(&object_text(&CHALLENGES));
    let whole = with(&sample, "kda", Json::Int(3));
    assert_eq!(Challenges::decode(&whole).unwrap().kda, Number::Whole(3));
    let fraction = with(&sample, "kda", parse("2.75"));
    assert_eq!(
        Challenges::decode(&fraction).unwrap().kda,
        Number::Fraction(String::from("2.75"))
    );
    let absent = with(&sample, "bountyGold", Json::Null);
    assert_eq!(Challenges::decode(&absent).unwrap().bounty_gold, None);
    let text = with(&sample, "kda", Json::Str(String::from("2.75")));
    assert_eq!(Challenges::decode(&text), Err(mismatch("kda")));
}

#[test]
fn match_failures_carry_the_whole_path() {
    let good = parse(&match_text());
    let participant = without(&parse(&object_text(&PARTICIPANT)), "win");
    let info = match good.member("info") {
        Some(info) => with(
            info,
            "participants",
            Json::Array(vec![parse(&object_text(&PARTICIPANT)), participant]),
        ),
        None => panic!("the sample has an info"),
    };
    let failure = Match::decode(&with(&good, "info", info)).unwrap_err();
    assert_eq!(failure.reason, DecodeReason::MissingField);
    assert_eq!(failure.path_string(), "info.participants[1].win");
    assert_eq!(
        from_response::<Match>(200, "{\"metadata\":{}}"),
        Err(Failure::Decode(DecodeFailure {
            path: vec![
                PathStep::Key(String::from("metadata")),
                PathStep::Key(String::from("dataVersion"))
            ],
            reason: DecodeReason::MissingField,
        }))
    );
}
