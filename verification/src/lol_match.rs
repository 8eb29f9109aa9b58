//! Matches and their timelines.

use vstd::prelude::*;
use vstd::string::*;
use crate::schema::{
    encoded_option, lemma_required_reads, no_members, object_of, optional, push_member,
    push_optional_member, read_optional, read_required, required, Number, NumberView, RoundTrip,
    Schema,
};
use crate::failure::{DecodeFailure, DecodeFailureView};
use crate::json::{lemma_lookup_unfolds, Json, JsonView};
use crate::queue::queue_type::QueueType;
use crate::region::routing::RoutingRegion;
use crate::request::{composed, Host, QueryParam, RequestSpec};
use crate::text::{decimal, i64_to_decimal, signed_decimal, u64_to_decimal};

verus! {

/// A match.
#[derive(Clone, Debug, PartialEq, Eq)]
pub struct Match {
    pub metadata: Metadata,
    pub info: Info,
}

/// A match, as plain data.
pub struct MatchView {
    pub metadata: MetadataView,
    pub info: InfoView,
}

impl DeepView for Match {
    type V = MatchView;

    open spec fn deep_view(&self) -> MatchView {
        MatchView {
            metadata: self.metadata.deep_view(),
            info: self.info.deep_view(),
        }
    }
}

impl Schema for Match {
    open spec fn decoded(json: JsonView) -> Result<MatchView, DecodeFailureView> {
        let metadata = required::<Metadata>(json, "metadata"@);
        let info = required::<Info>(json, "info"@);
        if metadata is Err {
            Err(metadata->Err_0)
        } else if info is Err {
            Err(info->Err_0)
        } else {
            Ok(
                MatchView {
                    metadata: metadata->Ok_0,
                    info: info->Ok_0,
                },
            )
        }
    }

    open spec fn encoded(value: MatchView) -> JsonView {
        JsonView::Object(
            Seq::empty()
                .push(("metadata"@, <Metadata>::encoded(value.metadata)))
                .push(("info"@, <Info>::encoded(value.info))),
        )
    }

    fn decode(json: &Json) -> (outcome: Result<Self, DecodeFailure>) {
        let metadata = read_required::<Metadata>(json, "metadata")?;
        let info = read_required::<Info>(json, "info")?;
        Ok(Match { metadata, info })
    }

    fn encode(&self) -> (json: Json) {
        let mut members = no_members();
        push_member::<Metadata>(&mut members, "metadata", &self.metadata);
        push_member::<Info>(&mut members, "info", &self.info);
        object_of(members)
    }
}

/// What identifies a match: its data version, its identifier and its players.
#[derive(Clone, Debug, PartialEq, Eq)]
pub struct Metadata {
    pub data_version: String,
    pub match_id: String,
    /// The player identifiers of the participants.
    pub participants: Vec<String>,
}

/// What identifies a match: its data version, its identifier and its players, as plain data.
pub struct MetadataView {
    pub data_version: Seq<char>,
    pub match_id: Seq<char>,
    pub participants: Seq<Seq<char>>,
}

impl DeepView for Metadata {
    type V = MetadataView;

    open spec fn deep_view(&self) -> MetadataView {
        MetadataView {
            data_version: self.data_version.deep_view(),
            match_id: self.match_id.deep_view(),
            participants: self.participants.deep_view(),
        }
    }
}

impl Schema for Metadata {
    open spec fn decoded(json: JsonView) -> Result<MetadataView, DecodeFailureView> {
        let data_version = required::<String>(json, "dataVersion"@);
        let match_id = required::<String>(json, "matchId"@);
        let participants = required::<Vec<String>>(json, "participants"@);
        if data_version is Err {
            Err(data_version->Err_0)
        } else if match_id is Err {
            Err(match_id->Err_0)
        } else if participants is Err {
            Err(participants->Err_0)
        } else {
            Ok(
                MetadataView {
                    data_version: data_version->Ok_0,
                    match_id: match_id->Ok_0,
                    participants: participants->Ok_0,
                },
            )
        }
    }

    open spec fn encoded(value: MetadataView) -> JsonView {
        JsonView::Object(
            Seq::empty()
                .push(("dataVersion"@, <String>::encoded(value.data_version)))
                .push(("matchId"@, <String>::encoded(value.match_id)))
                .push(("participants"@, <Vec<String>>::encoded(value.participants))),
        )
    }

    fn decode(json: &Json) -> (outcome: Result<Self, DecodeFailure>) {
        let data_version = read_required::<String>(json, "dataVersion")?;
        let match_id = read_required::<String>(json, "matchId")?;
        let participants = read_required::<Vec<String>>(json, "participants")?;
        Ok(Metadata { data_version, match_id, participants })
    }

    fn encode(&self) -> (json: Json) {
        let mut members = no_members();
        push_member::<String>(&mut members, "dataVersion", &self.data_version);
        push_member::<String>(&mut members, "matchId", &self.match_id);
        push_member::<Vec<String>>(&mut members, "participants", &self.participants);
        object_of(members)
    }
}

impl RoundTrip for Metadata {
    proof fn lemma_round_trip(value: MetadataView) {
        let members = Self::encoded(value)->Object_0;
        reveal_strlit("dataVersion");
        reveal_strlit("matchId");
        reveal_strlit("participants");
        assert("dataVersion"@.len() == 11);
        assert("matchId"@.len() == 7);
        assert("participants"@.len() == 12);
        lemma_lookup_unfolds();
        lemma_required_reads::<String>(members, "dataVersion"@, value.data_version);
        lemma_required_reads::<String>(members, "matchId"@, value.match_id);
        lemma_required_reads::<Vec<String>>(members, "participants"@, value.participants);
    }
}

/// The course and the result of a match.
#[derive(Clone, Debug, PartialEq, Eq)]
pub struct Info {
    pub end_of_game_result: String,
    pub game_creation: u64,
    pub game_duration: u64,
    pub game_end_timestamp: Option<u64>,
    pub game_id: u64,
    pub game_mode: String,
    pub map_id: i64,
    pub participants: Vec<Participant>,
    pub platform_id: String,
    pub queue_id: i64,
    pub teams: Vec<Team>,
    pub tournament_code: Option<String>,
}

/// The course and the result of a match, as plain data.
pub struct InfoView {
    pub end_of_game_result: Seq<char>,
    pub game_creation: u64,
    pub game_duration: u64,
    pub game_end_timestamp: Option<u64>,
    pub game_id: u64,
    pub game_mode: Seq<char>,
    pub map_id: i64,
    pub participants: Seq<ParticipantView>,
    pub platform_id: Seq<char>,
    pub queue_id: i64,
    pub teams: Seq<TeamView>,
    pub tournament_code: Option<Seq<char>>,
}

impl DeepView for Info {
    type V = InfoView;

    open spec fn deep_view(&self) -> InfoView {
        InfoView {
            end_of_game_result: self.end_of_game_result.deep_view(),
            game_creation: self.game_creation.deep_view(),
            game_duration: self.game_duration.deep_view(),
            game_end_timestamp: self.game_end_timestamp.deep_view(),
            game_id: self.game_id.deep_view(),
            game_mode: self.game_mode.deep_view(),
            map_id: self.map_id.deep_view(),
            participants: self.participants.deep_view(),
            platform_id: self.platform_id.deep_view(),
            queue_id: self.queue_id.deep_view(),
            teams: self.teams.deep_view(),
            tournament_code: self.tournament_code.deep_view(),
        }
    }
}

impl Schema for Info {
    open spec fn decoded(json: JsonView) -> Result<InfoView, DecodeFailureView> {
        let end_of_game_result = required::<String>(json, "endOfGameResult"@);
        let game_creation = required::<u64>(json, "gameCreation"@);
        let game_duration = required::<u64>(json, "gameDuration"@);
        let game_end_timestamp = optional::<u64>(json, "gameEndTimestamp"@);
        let game_id = required::<u64>(json, "gameId"@);
        let game_mode = required::<String>(json, "gameMode"@);
        let map_id = required::<i64>(json, "mapId"@);
        let participants = required::<Vec<Participant>>(json, "participants"@);
        let platform_id = required::<String>(json, "platformId"@);
        let queue_id = required::<i64>(json, "queueId"@);
        let teams = required::<Vec<Team>>(json, "teams"@);
        let tournament_code = optional::<String>(json, "tournamentCode"@);
        if end_of_game_result is Err {
            Err(end_of_game_result->Err_0)
        } else if game_creation is Err {
            Err(game_creation->Err_0)
        } else if game_duration is Err {
            Err(game_duration->Err_0)
        } else if game_end_timestamp is Err {
            Err(game_end_timestamp->Err_0)
        } else if game_id is Err {
            Err(game_id->Err_0)
        } else if game_mode is Err {
            Err(game_mode->Err_0)
        } else if map_id is Err {
            Err(map_id->Err_0)
        } else if participants is Err {
            Err(participants->Err_0)
        } else if platform_id is Err {
            Err(platform_id->Err_0)
        } else if queue_id is Err {
            Err(queue_id->Err_0)
        } else if teams is Err {
            Err(teams->Err_0)
        } else if tournament_code is Err {
            Err(tournament_code->Err_0)
        } else {
            Ok(
                InfoView {
                    end_of_game_result: end_of_game_result->Ok_0,
                    game_creation: game_creation->Ok_0,
                    game_duration: game_duration->Ok_0,
                    game_end_timestamp: game_end_timestamp->Ok_0,
                    game_id: game_id->Ok_0,
                    game_mode: game_mode->Ok_0,
                    map_id: map_id->Ok_0,
                    participants: participants->Ok_0,
                    platform_id: platform_id->Ok_0,
                    queue_id: queue_id->Ok_0,
                    teams: teams->Ok_0,
                    tournament_code: tournament_code->Ok_0,
                },
            )
        }
    }

    open spec fn encoded(value: InfoView) -> JsonView {
        JsonView::Object(
            Seq::empty()
                .push(("endOfGameResult"@, <String>::encoded(value.end_of_game_result)))
                .push(("gameCreation"@, <u64>::encoded(value.game_creation)))
                .push(("gameDuration"@, <u64>::encoded(value.game_duration)))
                .push(("gameEndTimestamp"@, encoded_option::<u64>(value.game_end_timestamp)))
                .push(("gameId"@, <u64>::encoded(value.game_id)))
                .push(("gameMode"@, <String>::encoded(value.game_mode)))
                .push(("mapId"@, <i64>::encoded(value.map_id)))
                .push(("participants"@, <Vec<Participant>>::encoded(value.participants)))
                .push(("platformId"@, <String>::encoded(value.platform_id)))
                .push(("queueId"@, <i64>::encoded(value.queue_id)))
                .push(("teams"@, <Vec<Team>>::encoded(value.teams)))
                .push(("tournamentCode"@, encoded_option::<String>(value.tournament_code))),
        )
    }

    fn decode(json: &Json) -> (outcome: Result<Self, DecodeFailure>) {
        let end_of_game_result = read_required::<String>(json, "endOfGameResult")?;
        let game_creation = read_required::<u64>(json, "gameCreation")?;
        let game_duration = read_required::<u64>(json, "gameDuration")?;
        let game_end_timestamp = read_optional::<u64>(json, "gameEndTimestamp")?;
        let game_id = read_required::<u64>(json, "gameId")?;
        let game_mode = read_required::<String>(json, "gameMode")?;
        let map_id = read_required::<i64>(json, "mapId")?;
        let participants = read_required::<Vec<Participant>>(json, "participants")?;
        let platform_id = read_required::<String>(json, "platformId")?;
        let queue_id = read_required::<i64>(json, "queueId")?;
        let teams = read_required::<Vec<Team>>(json, "teams")?;
        let tournament_code = read_optional::<String>(json, "tournamentCode")?;
        Ok(
            Info {
                end_of_game_result,
                game_creation,
                game_duration,
                game_end_timestamp,
                game_id,
                game_mode,
                map_id,
                participants,
                platform_id,
                queue_id,
                teams,
                tournament_code,
            },
        )
    }

    fn encode(&self) -> (json: Json) {
        let mut members = no_members();
        push_member::<String>(&mut members, "endOfGameResult", &self.end_of_game_result);
        push_member::<u64>(&mut members, "gameCreation", &self.game_creation);
        push_member::<u64>(&mut members, "gameDuration", &self.game_duration);
        push_optional_member::<u64>(&mut members, "gameEndTimestamp", &self.game_end_timestamp);
        push_member::<u64>(&mut members, "gameId", &self.game_id);
        push_member::<String>(&mut members, "gameMode", &self.game_mode);
        push_member::<i64>(&mut members, "mapId", &self.map_id);
        push_member::<Vec<Participant>>(&mut members, "participants", &self.participants);
        push_member::<String>(&mut members, "platformId", &self.platform_id);
        push_member::<i64>(&mut members, "queueId", &self.queue_id);
        push_member::<Vec<Team>>(&mut members, "teams", &self.teams);
        push_optional_member::<String>(&mut members, "tournamentCode", &self.tournament_code);
        object_of(members)
    }
}

/// What one player did in a match.
#[derive(Clone, Debug, PartialEq, Eq)]
pub struct Participant {
    pub all_in_pings: i64,
    pub assist_me_pings: i64,
    pub assists: i64,
    pub baron_kills: i64,
    pub bounty_level: i64,
    pub champ_experience: i64,
    pub champ_level: i64,
    pub champion_id: i64,
    pub champion_name: String,
    pub command_pings: i64,
    pub champion_transform: Option<i64>,
    pub consumables_purchased: i64,
    pub challenges: Challenges,
    pub damage_dealt_to_buildings: i64,
    pub damage_dealt_to_objectives: i64,
    pub damage_dealt_to_turrets: i64,
    pub damage_self_mitigated: i64,
    pub deaths: i64,
    pub detector_wards_placed: i64,
    pub double_kills: i64,
    pub dragon_kills: i64,
    pub eligible_for_progression: bool,
    pub enemy_missing_pings: i64,
    pub enemy_vision_pings: i64,
    pub first_blood_assist: bool,
    pub first_blood_kill: bool,
    pub first_tower_assist: bool,
    pub game_ended_in_early_surrender: bool,
    pub game_ended_in_surrender: bool,
    pub hold_pings: i64,
    pub get_back_pings: i64,
    pub gold_earned: i64,
    pub gold_spent: i64,
    pub individual_position: String,
    pub inhibitor_kills: i64,
    pub inhibitor_takedowns: i64,
    pub inhibitors_lost: i64,
    pub item_0: i64,
    pub item_1: i64,
    pub item_2: i64,
    pub item_3: i64,
    pub item_4: i64,
    pub item_5: i64,
    pub item_6: i64,
    pub items_purchased: i64,
    pub killing_sprees: i64,
    pub kills: i64,
    pub lane: String,
    pub largest_critical_strike: i64,
    pub largest_killing_spree: i64,
    pub largest_multi_kill: i64,
    pub longest_time_spent_living: i64,
    pub magic_damage_dealt: i64,
    pub magic_damage_dealt_to_champions: i64,
    pub magic_damage_taken: i64,
    pub missions: Missions,
    pub neutral_minions_killed: i64,
    pub need_vision_pings: i64,
    pub nexus_kills: i64,
    pub nexus_takedowns: i64,
    pub nexus_lost: i64,
    pub objectives_stolen: i64,
    pub objectives_stolen_assists: i64,
    pub on_my_way_pings: i64,
    pub participant_id: i64,
    pub player_score0: Option<i64>,
    pub player_score1: Option<i64>,
    pub player_score2: Option<i64>,
    pub player_score3: Option<i64>,
    pub player_score4: Option<i64>,
    pub player_score5: Option<i64>,
    pub player_score6: Option<i64>,
    pub player_score7: Option<i64>,
    pub player_score8: Option<i64>,
    pub player_score9: Option<i64>,
    pub player_score10: Option<i64>,
    pub player_score11: Option<i64>,
    pub penta_kills: i64,
    pub perks: Perks,
    pub physical_damage_dealt: i64,
    pub physical_damage_dealt_to_champions: i64,
    pub physical_damage_taken: i64,
    pub placement: i64,
    pub player_augment_1: i64,
    pub player_augment_2: i64,
    pub player_augment_3: i64,
    pub player_augment_4: i64,
    pub player_subteam_id: i64,
    pub push_pings: i64,
    pub profile_icon: i64,
    pub puuid: String,
    pub quadra_kills: i64,
    pub riot_id_game_name: String,
    pub riot_id_tagline: String,
    pub role: String,
    pub sight_wards_bought_in_game: i64,
    pub spell1_casts: i64,
    pub spell2_casts: i64,
    pub spell3_casts: i64,
    pub spell4_casts: i64,
    pub subteam_placement: i64,
    pub summoner1_casts: i64,
    pub summoner1_id: i64,
    pub summoner2_casts: i64,
    pub summoner2_id: i64,
    pub summoner_id: String,
    pub summoner_level: i64,
    pub summoner_name: String,
    pub team_early_surrendered: bool,
    pub team_id: i64,
    pub team_position: String,
    pub time_ccing_others: i64,
    pub time_played: i64,
    pub total_ally_jungle_minions_killed: i64,
    pub total_damage_dealt: i64,
    pub total_damage_dealt_to_champions: i64,
    pub total_damage_shielded_on_teammates: i64,
    pub total_damage_taken: i64,
    pub total_enemy_jungle_minions_killed: i64,
    pub total_heal: i64,
    pub total_heals_on_teammates: i64,
    pub total_minions_killed: i64,
    pub total_time_cc_dealt: i64,
    pub total_time_spent_dead: i64,
    pub total_units_healed: i64,
    pub triple_kills: i64,
    pub true_damage_dealt: i64,
    pub true_damage_dealt_to_champions: i64,
    pub true_damage_taken: i64,
    pub turret_kills: i64,
    pub turret_takedowns: i64,
    pub turrets_lost: i64,
    pub unreal_kills: i64,
    pub vision_score: i64,
    pub vision_cleared_pings: i64,
    pub vision_wards_bought_in_game: i64,
    pub wards_killed: i64,
    pub wards_placed: i64,
    pub win: bool,
}

/// What one player did in a match, as plain data.
pub struct ParticipantView {
    pub all_in_pings: i64,
    pub assist_me_pings: i64,
    pub assists: i64,
    pub baron_kills: i64,
    pub bounty_level: i64,
    pub champ_experience: i64,
    pub champ_level: i64,
    pub champion_id: i64,
    pub champion_name: Seq<char>,
    pub command_pings: i64,
    pub champion_transform: Option<i64>,
    pub consumables_purchased: i64,
    pub challenges: ChallengesView,
    pub damage_dealt_to_buildings: i64,
    pub damage_dealt_to_objectives: i64,
    pub damage_dealt_to_turrets: i64,
    pub damage_self_mitigated: i64,
    pub deaths: i64,
    pub detector_wards_placed: i64,
    pub double_kills: i64,
    pub dragon_kills: i64,
    pub eligible_for_progression: bool,
    pub enemy_missing_pings: i64,
    pub enemy_vision_pings: i64,
    pub first_blood_assist: bool,
    pub first_blood_kill: bool,
    pub first_tower_assist: bool,
    pub game_ended_in_early_surrender: bool,
    pub game_ended_in_surrender: bool,
    pub hold_pings: i64,
    pub get_back_pings: i64,
    pub gold_earned: i64,
    pub gold_spent: i64,
    pub individual_position: Seq<char>,
    pub inhibitor_kills: i64,
    pub inhibitor_takedowns: i64,
    pub inhibitors_lost: i64,
    pub item_0: i64,
    pub item_1: i64,
    pub item_2: i64,
    pub item_3: i64,
    pub item_4: i64,
    pub item_5: i64,
    pub item_6: i64,
    pub items_purchased: i64,
    pub killing_sprees: i64,
    pub kills: i64,
    pub lane: Seq<char>,
    pub largest_critical_strike: i64,
    pub largest_killing_spree: i64,
    pub largest_multi_kill: i64,
    pub longest_time_spent_living: i64,
    pub magic_damage_dealt: i64,
    pub magic_damage_dealt_to_champions: i64,
    pub magic_damage_taken: i64,
    pub missions: Missions,
    pub neutral_minions_killed: i64,
    pub need_vision_pings: i64,
    pub nexus_kills: i64,
    pub nexus_takedowns: i64,
    pub nexus_lost: i64,
    pub objectives_stolen: i64,
    pub objectives_stolen_assists: i64,
    pub on_my_way_pings: i64,
    pub participant_id: i64,
    pub player_score0: Option<i64>,
    pub player_score1: Option<i64>,
    pub player_score2: Option<i64>,
    pub player_score3: Option<i64>,
    pub player_score4: Option<i64>,
    pub player_score5: Option<i64>,
    pub player_score6: Option<i64>,
    pub player_score7: Option<i64>,
    pub player_score8: Option<i64>,
    pub player_score9: Option<i64>,
    pub player_score10: Option<i64>,
    pub player_score11: Option<i64>,
    pub penta_kills: i64,
    pub perks: PerksView,
    pub physical_damage_dealt: i64,
    pub physical_damage_dealt_to_champions: i64,
    pub physical_damage_taken: i64,
    pub placement: i64,
    pub player_augment_1: i64,
    pub player_augment_2: i64,
    pub player_augment_3: i64,
    pub player_augment_4: i64,
    pub player_subteam_id: i64,
    pub push_pings: i64,
    pub profile_icon: i64,
    pub puuid: Seq<char>,
    pub quadra_kills: i64,
    pub riot_id_game_name: Seq<char>,
    pub riot_id_tagline: Seq<char>,
    pub role: Seq<char>,
    pub sight_wards_bought_in_game: i64,
    pub spell1_casts: i64,
    pub spell2_casts: i64,
    pub spell3_casts: i64,
    pub spell4_casts: i64,
    pub subteam_placement: i64,
    pub summoner1_casts: i64,
    pub summoner1_id: i64,
    pub summoner2_casts: i64,
    pub summoner2_id: i64,
    pub summoner_id: Seq<char>,
    pub summoner_level: i64,
    pub summoner_name: Seq<char>,
    pub team_early_surrendered: bool,
    pub team_id: i64,
    pub team_position: Seq<char>,
    pub time_ccing_others: i64,
    pub time_played: i64,
    pub total_ally_jungle_minions_killed: i64,
    pub total_damage_dealt: i64,
    pub total_damage_dealt_to_champions: i64,
    pub total_damage_shielded_on_teammates: i64,
    pub total_damage_taken: i64,
    pub total_enemy_jungle_minions_killed: i64,
    pub total_heal: i64,
    pub total_heals_on_teammates: i64,
    pub total_minions_killed: i64,
    pub total_time_cc_dealt: i64,
    pub total_time_spent_dead: i64,
    pub total_units_healed: i64,
    pub triple_kills: i64,
    pub true_damage_dealt: i64,
    pub true_damage_dealt_to_champions: i64,
    pub true_damage_taken: i64,
    pub turret_kills: i64,
    pub turret_takedowns: i64,
    pub turrets_lost: i64,
    pub unreal_kills: i64,
    pub vision_score: i64,
    pub vision_cleared_pings: i64,
    pub vision_wards_bought_in_game: i64,
    pub wards_killed: i64,
    pub wards_placed: i64,
    pub win: bool,
}

impl DeepView for Participant {
    type V = ParticipantView;

    open spec fn deep_view(&self) -> ParticipantView {
        ParticipantView {
            all_in_pings: self.all_in_pings.deep_view(),
            assist_me_pings: self.assist_me_pings.deep_view(),
            assists: self.assists.deep_view(),
            baron_kills: self.baron_kills.deep_view(),
            bounty_level: self.bounty_level.deep_view(),
            champ_experience: self.champ_experience.deep_view(),
            champ_level: self.champ_level.deep_view(),
            champion_id: self.champion_id.deep_view(),
            champion_name: self.champion_name.deep_view(),
            command_pings: self.command_pings.deep_view(),
            champion_transform: self.champion_transform.deep_view(),
            consumables_purchased: self.consumables_purchased.deep_view(),
            challenges: self.challenges.deep_view(),
            damage_dealt_to_buildings: self.damage_dealt_to_buildings.deep_view(),
            damage_dealt_to_objectives: self.damage_dealt_to_objectives.deep_view(),
            damage_dealt_to_turrets: self.damage_dealt_to_turrets.deep_view(),
            damage_self_mitigated: self.damage_self_mitigated.deep_view(),
            deaths: self.deaths.deep_view(),
            detector_wards_placed: self.detector_wards_placed.deep_view(),
            double_kills: self.double_kills.deep_view(),
            dragon_kills: self.dragon_kills.deep_view(),
            eligible_for_progression: self.eligible_for_progression.deep_view(),
            enemy_missing_pings: self.enemy_missing_pings.deep_view(),
            enemy_vision_pings: self.enemy_vision_pings.deep_view(),
            first_blood_assist: self.first_blood_assist.deep_view(),
            first_blood_kill: self.first_blood_kill.deep_view(),
            first_tower_assist: self.first_tower_assist.deep_view(),
            game_ended_in_early_surrender: self.game_ended_in_early_surrender.deep_view(),
            game_ended_in_surrender: self.game_ended_in_surrender.deep_view(),
            hold_pings: self.hold_pings.deep_view(),
            get_back_pings: self.get_back_pings.deep_view(),
            gold_earned: self.gold_earned.deep_view(),
            gold_spent: self.gold_spent.deep_view(),
            individual_position: self.individual_position.deep_view(),
            inhibitor_kills: self.inhibitor_kills.deep_view(),
            inhibitor_takedowns: self.inhibitor_takedowns.deep_view(),
            inhibitors_lost: self.inhibitors_lost.deep_view(),
            item_0: self.item_0.deep_view(),
            item_1: self.item_1.deep_view(),
            item_2: self.item_2.deep_view(),
            item_3: self.item_3.deep_view(),
            item_4: self.item_4.deep_view(),
            item_5: self.item_5.deep_view(),
            item_6: self.item_6.deep_view(),
            items_purchased: self.items_purchased.deep_view(),
            killing_sprees: self.killing_sprees.deep_view(),
            kills: self.kills.deep_view(),
            lane: self.lane.deep_view(),
            largest_critical_strike: self.largest_critical_strike.deep_view(),
            largest_killing_spree: self.largest_killing_spree.deep_view(),
            largest_multi_kill: self.largest_multi_kill.deep_view(),
            longest_time_spent_living: self.longest_time_spent_living.deep_view(),
            magic_damage_dealt: self.magic_damage_dealt.deep_view(),
            magic_damage_dealt_to_champions: self.magic_damage_dealt_to_champions.deep_view(),
            magic_damage_taken: self.magic_damage_taken.deep_view(),
            missions: self.missions.deep_view(),
            neutral_minions_killed: self.neutral_minions_killed.deep_view(),
            need_vision_pings: self.need_vision_pings.deep_view(),
            nexus_kills: self.nexus_kills.deep_view(),
            nexus_takedowns: self.nexus_takedowns.deep_view(),
            nexus_lost: self.nexus_lost.deep_view(),
            objectives_stolen: self.objectives_stolen.deep_view(),
            objectives_stolen_assists: self.objectives_stolen_assists.deep_view(),
            on_my_way_pings: self.on_my_way_pings.deep_view(),
            participant_id: self.participant_id.deep_view(),
            player_score0: self.player_score0.deep_view(),
            player_score1: self.player_score1.deep_view(),
            player_score2: self.player_score2.deep_view(),
            player_score3: self.player_score3.deep_view(),
            player_score4: self.player_score4.deep_view(),
            player_score5: self.player_score5.deep_view(),
            player_score6: self.player_score6.deep_view(),
            player_score7: self.player_score7.deep_view(),
            player_score8: self.player_score8.deep_view(),
            player_score9: self.player_score9.deep_view(),
            player_score10: self.player_score10.deep_view(),
            player_score11: self.player_score11.deep_view(),
            penta_kills: self.penta_kills.deep_view(),
            perks: self.perks.deep_view(),
            physical_damage_dealt: self.physical_damage_dealt.deep_view(),
            physical_damage_dealt_to_champions: self.physical_damage_dealt_to_champions.deep_view(),
            physical_damage_taken: self.physical_damage_taken.deep_view(),
            placement: self.placement.deep_view(),
            player_augment_1: self.player_augment_1.deep_view(),
            player_augment_2: self.player_augment_2.deep_view(),
            player_augment_3: self.player_augment_3.deep_view(),
            player_augment_4: self.player_augment_4.deep_view(),
            player_subteam_id: self.player_subteam_id.deep_view(),
            push_pings: self.push_pings.deep_view(),
            profile_icon: self.profile_icon.deep_view(),
            puuid: self.puuid.deep_view(),
            quadra_kills: self.quadra_kills.deep_view(),
            riot_id_game_name: self.riot_id_game_name.deep_view(),
            riot_id_tagline: self.riot_id_tagline.deep_view(),
            role: self.role.deep_view(),
            sight_wards_bought_in_game: self.sight_wards_bought_in_game.deep_view(),
            spell1_casts: self.spell1_casts.deep_view(),
            spell2_casts: self.spell2_casts.deep_view(),
            spell3_casts: self.spell3_casts.deep_view(),
            spell4_casts: self.spell4_casts.deep_view(),
            subteam_placement: self.subteam_placement.deep_view(),
            summoner1_casts: self.summoner1_casts.deep_view(),
            summoner1_id: self.summoner1_id.deep_view(),
            summoner2_casts: self.summoner2_casts.deep_view(),
            summoner2_id: self.summoner2_id.deep_view(),
            summoner_id: self.summoner_id.deep_view(),
            summoner_level: self.summoner_level.deep_view(),
            summoner_name: self.summoner_name.deep_view(),
            team_early_surrendered: self.team_early_surrendered.deep_view(),
            team_id: self.team_id.deep_view(),
            team_position: self.team_position.deep_view(),
            time_ccing_others: self.time_ccing_others.deep_view(),
            time_played: self.time_played.deep_view(),
            total_ally_jungle_minions_killed: self.total_ally_jungle_minions_killed.deep_view(),
            total_damage_dealt: self.total_damage_dealt.deep_view(),
            total_damage_dealt_to_champions: self.total_damage_dealt_to_champions.deep_view(),
            total_damage_shielded_on_teammates: self.total_damage_shielded_on_teammates.deep_view(),
            total_damage_taken: self.total_damage_taken.deep_view(),
            total_enemy_jungle_minions_killed: self.total_enemy_jungle_minions_killed.deep_view(),
            total_heal: self.total_heal.deep_view(),
            total_heals_on_teammates: self.total_heals_on_teammates.deep_view(),
            total_minions_killed: self.total_minions_killed.deep_view(),
            total_time_cc_dealt: self.total_time_cc_dealt.deep_view(),
            total_time_spent_dead: self.total_time_spent_dead.deep_view(),
            total_units_healed: self.total_units_healed.deep_view(),
            triple_kills: self.triple_kills.deep_view(),
            true_damage_dealt: self.true_damage_dealt.deep_view(),
            true_damage_dealt_to_champions: self.true_damage_dealt_to_champions.deep_view(),
            true_damage_taken: self.true_damage_taken.deep_view(),
            turret_kills: self.turret_kills.deep_view(),
            turret_takedowns: self.turret_takedowns.deep_view(),
            turrets_lost: self.turrets_lost.deep_view(),
            unreal_kills: self.unreal_kills.deep_view(),
            vision_score: self.vision_score.deep_view(),
            vision_cleared_pings: self.vision_cleared_pings.deep_view(),
            vision_wards_bought_in_game: self.vision_wards_bought_in_game.deep_view(),
            wards_killed: self.wards_killed.deep_view(),
            wards_placed: self.wards_placed.deep_view(),
            win: self.win.deep_view(),
        }
    }
}

impl Schema for Participant {
    open spec fn decoded(json: JsonView) -> Result<ParticipantView, DecodeFailureView> {
        let all_in_pings = required::<i64>(json, "allInPings"@);
        let assist_me_pings = required::<i64>(json, "assistMePings"@);
        let assists = required::<i64>(json, "assists"@);
        let baron_kills = required::<i64>(json, "baronKills"@);
        let bounty_level = required::<i64>(json, "bountyLevel"@);
        let champ_experience = required::<i64>(json, "champExperience"@);
        let champ_level = required::<i64>(json, "champLevel"@);
        let champion_id = required::<i64>(json, "championId"@);
        let champion_name = required::<String>(json, "championName"@);
        let command_pings = required::<i64>(json, "commandPings"@);
        let champion_transform = optional::<i64>(json, "championTransform"@);
        let consumables_purchased = required::<i64>(json, "consumablesPurchased"@);
        let challenges = required::<Challenges>(json, "challenges"@);
        let damage_dealt_to_buildings = required::<i64>(json, "damageDealtToBuildings"@);
        let damage_dealt_to_objectives = required::<i64>(json, "damageDealtToObjectives"@);
        let damage_dealt_to_turrets = required::<i64>(json, "damageDealtToTurrets"@);
        let damage_self_mitigated = required::<i64>(json, "damageSelfMitigated"@);
        let deaths = required::<i64>(json, "deaths"@);
        let detector_wards_placed = required::<i64>(json, "detectorWardsPlaced"@);
        let double_kills = required::<i64>(json, "doubleKills"@);
        let dragon_kills = required::<i64>(json, "dragonKills"@);
        let eligible_for_progression = required::<bool>(json, "eligibleForProgression"@);
        let enemy_missing_pings = required::<i64>(json, "enemyMissingPings"@);
        let enemy_vision_pings = required::<i64>(json, "enemyVisionPings"@);
        let first_blood_assist = required::<bool>(json, "firstBloodAssist"@);
        let first_blood_kill = required::<bool>(json, "firstBloodKill"@);
        let first_tower_assist = required::<bool>(json, "firstTowerAssist"@);
        let game_ended_in_early_surrender = required::<bool>(json, "gameEndedInEarlySurrender"@);
        let game_ended_in_surrender = required::<bool>(json, "gameEndedInSurrender"@);
        let hold_pings = required::<i64>(json, "holdPings"@);
        let get_back_pings = required::<i64>(json, "getBackPings"@);
        let gold_earned = required::<i64>(json, "goldEarned"@);
        let gold_spent = required::<i64>(json, "goldSpent"@);
        let individual_position = required::<String>(json, "individualPosition"@);
        let inhibitor_kills = required::<i64>(json, "inhibitorKills"@);
        let inhibitor_takedowns = required::<i64>(json, "inhibitorTakedowns"@);
        let inhibitors_lost = required::<i64>(json, "inhibitorsLost"@);
        let item_0 = required::<i64>(json, "item0"@);
        let item_1 = required::<i64>(json, "item1"@);
        let item_2 = required::<i64>(json, "item2"@);
        let item_3 = required::<i64>(json, "item3"@);
        let item_4 = required::<i64>(json, "item4"@);
        let item_5 = required::<i64>(json, "item5"@);
        let item_6 = required::<i64>(json, "item6"@);
        let items_purchased = required::<i64>(json, "itemsPurchased"@);
        let killing_sprees = required::<i64>(json, "killingSprees"@);
        let kills = required::<i64>(json, "kills"@);
        let lane = required::<String>(json, "lane"@);
        let largest_critical_strike = required::<i64>(json, "largestCriticalStrike"@);
        let largest_killing_spree = required::<i64>(json, "largestKillingSpree"@);
        let largest_multi_kill = required::<i64>(json, "largestMultiKill"@);
        let longest_time_spent_living = required::<i64>(json, "longestTimeSpentLiving"@);
        let magic_damage_dealt = required::<i64>(json, "magicDamageDealt"@);
        let magic_damage_dealt_to_champions = required::<i64>(json, "magicDamageDealtToChampions"@);
        let magic_damage_taken = required::<i64>(json, "magicDamageTaken"@);
        let missions = required::<Missions>(json, "missions"@);
        let neutral_minions_killed = required::<i64>(json, "neutralMinionsKilled"@);
        let need_vision_pings = required::<i64>(json, "needVisionPings"@);
        let nexus_kills = required::<i64>(json, "nexusKills"@);
        let nexus_takedowns = required::<i64>(json, "nexusTakedowns"@);
        let nexus_lost = required::<i64>(json, "nexusLost"@);
        let objectives_stolen = required::<i64>(json, "objectivesStolen"@);
        let objectives_stolen_assists = required::<i64>(json, "objectivesStolenAssists"@);
        let on_my_way_pings = required::<i64>(json, "onMyWayPings"@);
        let participant_id = required::<i64>(json, "participantId"@);
        let player_score0 = optional::<i64>(json, "playerScore0"@);
        let player_score1 = optional::<i64>(json, "playerScore1"@);
        let player_score2 = optional::<i64>(json, "playerScore2"@);
        let player_score3 = optional::<i64>(json, "playerScore3"@);
        let player_score4 = optional::<i64>(json, "playerScore4"@);
        let player_score5 = optional::<i64>(json, "playerScore5"@);
        let player_score6 = optional::<i64>(json, "playerScore6"@);
        let player_score7 = optional::<i64>(json, "playerScore7"@);
        let player_score8 = optional::<i64>(json, "playerScore8"@);
        let player_score9 = optional::<i64>(json, "playerScore9"@);
        let player_score10 = optional::<i64>(json, "playerScore10"@);
        let player_score11 = optional::<i64>(json, "playerScore11"@);
        let penta_kills = required::<i64>(json, "pentaKills"@);
        let perks = required::<Perks>(json, "perks"@);
        let physical_damage_dealt = required::<i64>(json, "physicalDamageDealt"@);
        let physical_damage_dealt_to_champions = required::<i64>(
            json,
            "physicalDamageDealtToChampions"@,
        );
        let physical_damage_taken = required::<i64>(json, "physicalDamageTaken"@);
        let placement = required::<i64>(json, "placement"@);
        let player_augment_1 = required::<i64>(json, "playerAugment1"@);
        let player_augment_2 = required::<i64>(json, "playerAugment2"@);
        let player_augment_3 = required::<i64>(json, "playerAugment3"@);
        let player_augment_4 = required::<i64>(json, "playerAugment4"@);
        let player_subteam_id = required::<i64>(json, "playerSubteamId"@);
        let push_pings = required::<i64>(json, "pushPings"@);
        let profile_icon = required::<i64>(json, "profileIcon"@);
        let puuid = required::<String>(json, "puuid"@);
        let quadra_kills = required::<i64>(json, "quadraKills"@);
        let riot_id_game_name = required::<String>(json, "riotIdGameName"@);
        let riot_id_tagline = required::<String>(json, "riotIdTagline"@);
        let role = required::<String>(json, "role"@);
        let sight_wards_bought_in_game = required::<i64>(json, "sightWardsBoughtInGame"@);
        let spell1_casts = required::<i64>(json, "spell1Casts"@);
        let spell2_casts = required::<i64>(json, "spell2Casts"@);
        let spell3_casts = required::<i64>(json, "spell3Casts"@);
        let spell4_casts = required::<i64>(json, "spell4Casts"@);
        let subteam_placement = required::<i64>(json, "subteamPlacement"@);
        let summoner1_casts = required::<i64>(json, "summoner1Casts"@);
        let summoner1_id = required::<i64>(json, "summoner1Id"@);
        let summoner2_casts = required::<i64>(json, "summoner2Casts"@);
        let summoner2_id = required::<i64>(json, "summoner2Id"@);
        let summoner_id = required::<String>(json, "summonerId"@);
        let summoner_level = required::<i64>(json, "summonerLevel"@);
        let summoner_name = required::<String>(json, "summonerName"@);
        let team_early_surrendered = required::<bool>(json, "teamEarlySurrendered"@);
        let team_id = required::<i64>(json, "teamId"@);
        let team_position = required::<String>(json, "teamPosition"@);
        let time_ccing_others = required::<i64>(json, "timeCCingOthers"@);
        let time_played = required::<i64>(json, "timePlayed"@);
        let total_ally_jungle_minions_killed = required::<i64>(
            json,
            "totalAllyJungleMinionsKilled"@,
        );
        let total_damage_dealt = required::<i64>(json, "totalDamageDealt"@);
        let total_damage_dealt_to_champions = required::<i64>(json, "totalDamageDealtToChampions"@);
        let total_damage_shielded_on_teammates = required::<i64>(
            json,
            "totalDamageShieldedOnTeammates"@,
        );
        let total_damage_taken = required::<i64>(json, "totalDamageTaken"@);
        let total_enemy_jungle_minions_killed = required::<i64>(
            json,
            "totalEnemyJungleMinionsKilled"@,
        );
        let total_heal = required::<i64>(json, "totalHeal"@);
        let total_heals_on_teammates = required::<i64>(json, "totalHealsOnTeammates"@);
        let total_minions_killed = required::<i64>(json, "totalMinionsKilled"@);
        let total_time_cc_dealt = required::<i64>(json, "totalTimeCCDealt"@);
        let total_time_spent_dead = required::<i64>(json, "totalTimeSpentDead"@);
        let total_units_healed = required::<i64>(json, "totalUnitsHealed"@);
        let triple_kills = required::<i64>(json, "tripleKills"@);
        let true_damage_dealt = required::<i64>(json, "trueDamageDealt"@);
        let true_damage_dealt_to_champions = required::<i64>(json, "trueDamageDealtToChampions"@);
        let true_damage_taken = required::<i64>(json, "trueDamageTaken"@);
        let turret_kills = required::<i64>(json, "turretKills"@);
        let turret_takedowns = required::<i64>(json, "turretTakedowns"@);
        let turrets_lost = required::<i64>(json, "turretsLost"@);
        let unreal_kills = required::<i64>(json, "unrealKills"@);
        let vision_score = required::<i64>(json, "visionScore"@);
        let vision_cleared_pings = required::<i64>(json, "visionClearedPings"@);
        let vision_wards_bought_in_game = required::<i64>(json, "visionWardsBoughtInGame"@);
        let wards_killed = required::<i64>(json, "wardsKilled"@);
        let wards_placed = required::<i64>(json, "wardsPlaced"@);
        let win = required::<bool>(json, "win"@);
        if all_in_pings is Err {
            Err(all_in_pings->Err_0)
        } else if assist_me_pings is Err {
            Err(assist_me_pings->Err_0)
        } else if assists is Err {
            Err(assists->Err_0)
        } else if baron_kills is Err {
            Err(baron_kills->Err_0)
        } else if bounty_level is Err {
            Err(bounty_level->Err_0)
        } else if champ_experience is Err {
            Err(champ_experience->Err_0)
        } else if champ_level is Err {
            Err(champ_level->Err_0)
        } else if champion_id is Err {
            Err(champion_id->Err_0)
        } else if champion_name is Err {
            Err(champion_name->Err_0)
        } else if command_pings is Err {
            Err(command_pings->Err_0)
        } else if champion_transform is Err {
            Err(champion_transform->Err_0)
        } else if consumables_purchased is Err {
            Err(consumables_purchased->Err_0)
        } else if challenges is Err {
            Err(challenges->Err_0)
        } else if damage_dealt_to_buildings is Err {
            Err(damage_dealt_to_buildings->Err_0)
        } else if damage_dealt_to_objectives is Err {
            Err(damage_dealt_to_objectives->Err_0)
        } else if damage_dealt_to_turrets is Err {
            Err(damage_dealt_to_turrets->Err_0)
        } else if damage_self_mitigated is Err {
            Err(damage_self_mitigated->Err_0)
        } else if deaths is Err {
            Err(deaths->Err_0)
        } else if detector_wards_placed is Err {
            Err(detector_wards_placed->Err_0)
        } else if double_kills is Err {
            Err(double_kills->Err_0)
        } else if dragon_kills is Err {
            Err(dragon_kills->Err_0)
        } else if eligible_for_progression is Err {
            Err(eligible_for_progression->Err_0)
        } else if enemy_missing_pings is Err {
            Err(enemy_missing_pings->Err_0)
        } else if enemy_vision_pings is Err {
            Err(enemy_vision_pings->Err_0)
        } else if first_blood_assist is Err {
            Err(first_blood_assist->Err_0)
        } else if first_blood_kill is Err {
            Err(first_blood_kill->Err_0)
        } else if first_tower_assist is Err {
            Err(first_tower_assist->Err_0)
        } else if game_ended_in_early_surrender is Err {
            Err(game_ended_in_early_surrender->Err_0)
        } else if game_ended_in_surrender is Err {
            Err(game_ended_in_surrender->Err_0)
        } else if hold_pings is Err {
            Err(hold_pings->Err_0)
        } else if get_back_pings is Err {
            Err(get_back_pings->Err_0)
        } else if gold_earned is Err {
            Err(gold_earned->Err_0)
        } else if gold_spent is Err {
            Err(gold_spent->Err_0)
        } else if individual_position is Err {
            Err(individual_position->Err_0)
        } else if inhibitor_kills is Err {
            Err(inhibitor_kills->Err_0)
        } else if inhibitor_takedowns is Err {
            Err(inhibitor_takedowns->Err_0)
        } else if inhibitors_lost is Err {
            Err(inhibitors_lost->Err_0)
        } else if item_0 is Err {
            Err(item_0->Err_0)
        } else if item_1 is Err {
            Err(item_1->Err_0)
        } else if item_2 is Err {
            Err(item_2->Err_0)
        } else if item_3 is Err {
            Err(item_3->Err_0)
        } else if item_4 is Err {
            Err(item_4->Err_0)
        } else if item_5 is Err {
            Err(item_5->Err_0)
        } else if item_6 is Err {
            Err(item_6->Err_0)
        } else if items_purchased is Err {
            Err(items_purchased->Err_0)
        } else if killing_sprees is Err {
            Err(killing_sprees->Err_0)
        } else if kills is Err {
            Err(kills->Err_0)
        } else if lane is Err {
            Err(lane->Err_0)
        } else if largest_critical_strike is Err {
            Err(largest_critical_strike->Err_0)
        } else if largest_killing_spree is Err {
            Err(largest_killing_spree->Err_0)
        } else if largest_multi_kill is Err {
            Err(largest_multi_kill->Err_0)
        } else if longest_time_spent_living is Err {
            Err(longest_time_spent_living->Err_0)
        } else if magic_damage_dealt is Err {
            Err(magic_damage_dealt->Err_0)
        } else if magic_damage_dealt_to_champions is Err {
            Err(magic_damage_dealt_to_champions->Err_0)
        } else if magic_damage_taken is Err {
            Err(magic_damage_taken->Err_0)
        } else if missions is Err {
            Err(missions->Err_0)
        } else if neutral_minions_killed is Err {
            Err(neutral_minions_killed->Err_0)
        } else if need_vision_pings is Err {
            Err(need_vision_pings->Err_0)
        } else if nexus_kills is Err {
            Err(nexus_kills->Err_0)
        } else if nexus_takedowns is Err {
            Err(nexus_takedowns->Err_0)
        } else if nexus_lost is Err {
            Err(nexus_lost->Err_0)
        } else if objectives_stolen is Err {
            Err(objectives_stolen->Err_0)
        } else if objectives_stolen_assists is Err {
            Err(objectives_stolen_assists->Err_0)
        } else if on_my_way_pings is Err {
            Err(on_my_way_pings->Err_0)
        } else if participant_id is Err {
            Err(participant_id->Err_0)
        } else if player_score0 is Err {
            Err(player_score0->Err_0)
        } else if player_score1 is Err {
            Err(player_score1->Err_0)
        } else if player_score2 is Err {
            Err(player_score2->Err_0)
        } else if player_score3 is Err {
            Err(player_score3->Err_0)
        } else if player_score4 is Err {
            Err(player_score4->Err_0)
        } else if player_score5 is Err {
            Err(player_score5->Err_0)
        } else if player_score6 is Err {
            Err(player_score6->Err_0)
        } else if player_score7 is Err {
            Err(player_score7->Err_0)
        } else if player_score8 is Err {
            Err(player_score8->Err_0)
        } else if player_score9 is Err {
            Err(player_score9->Err_0)
        } else if player_score10 is Err {
            Err(player_score10->Err_0)
        } else if player_score11 is Err {
            Err(player_score11->Err_0)
        } else if penta_kills is Err {
            Err(penta_kills->Err_0)
        } else if perks is Err {
            Err(perks->Err_0)
        } else if physical_damage_dealt is Err {
            Err(physical_damage_dealt->Err_0)
        } else if physical_damage_dealt_to_champions is Err {
            Err(physical_damage_dealt_to_champions->Err_0)
        } else if physical_damage_taken is Err {
            Err(physical_damage_taken->Err_0)
        } else if placement is Err {
            Err(placement->Err_0)
        } else if player_augment_1 is Err {
            Err(player_augment_1->Err_0)
        } else if player_augment_2 is Err {
            Err(player_augment_2->Err_0)
        } else if player_augment_3 is Err {
            Err(player_augment_3->Err_0)
        } else if player_augment_4 is Err {
            Err(player_augment_4->Err_0)
        } else if player_subteam_id is Err {
            Err(player_subteam_id->Err_0)
        } else if push_pings is Err {
            Err(push_pings->Err_0)
        } else if profile_icon is Err {
            Err(profile_icon->Err_0)
        } else if puuid is Err {
            Err(puuid->Err_0)
        } else if quadra_kills is Err {
            Err(quadra_kills->Err_0)
        } else if riot_id_game_name is Err {
            Err(riot_id_game_name->Err_0)
        } else if riot_id_tagline is Err {
            Err(riot_id_tagline->Err_0)
        } else if role is Err {
            Err(role->Err_0)
        } else if sight_wards_bought_in_game is Err {
            Err(sight_wards_bought_in_game->Err_0)
        } else if spell1_casts is Err {
            Err(spell1_casts->Err_0)
        } else if spell2_casts is Err {
            Err(spell2_casts->Err_0)
        } else if spell3_casts is Err {
            Err(spell3_casts->Err_0)
        } else if spell4_casts is Err {
            Err(spell4_casts->Err_0)
        } else if subteam_placement is Err {
            Err(subteam_placement->Err_0)
        } else if summoner1_casts is Err {
            Err(summoner1_casts->Err_0)
        } else if summoner1_id is Err {
            Err(summoner1_id->Err_0)
        } else if summoner2_casts is Err {
            Err(summoner2_casts->Err_0)
        } else if summoner2_id is Err {
            Err(summoner2_id->Err_0)
        } else if summoner_id is Err {
            Err(summoner_id->Err_0)
        } else if summoner_level is Err {
            Err(summoner_level->Err_0)
        } else if summoner_name is Err {
            Err(summoner_name->Err_0)
        } else if team_early_surrendered is Err {
            Err(team_early_surrendered->Err_0)
        } else if team_id is Err {
            Err(team_id->Err_0)
        } else if team_position is Err {
            Err(team_position->Err_0)
        } else if time_ccing_others is Err {
            Err(time_ccing_others->Err_0)
        } else if time_played is Err {
            Err(time_played->Err_0)
        } else if total_ally_jungle_minions_killed is Err {
            Err(total_ally_jungle_minions_killed->Err_0)
        } else if total_damage_dealt is Err {
            Err(total_damage_dealt->Err_0)
        } else if total_damage_dealt_to_champions is Err {
            Err(total_damage_dealt_to_champions->Err_0)
        } else if total_damage_shielded_on_teammates is Err {
            Err(total_damage_shielded_on_teammates->Err_0)
        } else if total_damage_taken is Err {
            Err(total_damage_taken->Err_0)
        } else if total_enemy_jungle_minions_killed is Err {
            Err(total_enemy_jungle_minions_killed->Err_0)
        } else if total_heal is Err {
            Err(total_heal->Err_0)
        } else if total_heals_on_teammates is Err {
            Err(total_heals_on_teammates->Err_0)
        } else if total_minions_killed is Err {
            Err(total_minions_killed->Err_0)
        } else if total_time_cc_dealt is Err {
            Err(total_time_cc_dealt->Err_0)
        } else if total_time_spent_dead is Err {
            Err(total_time_spent_dead->Err_0)
        } else if total_units_healed is Err {
            Err(total_units_healed->Err_0)
        } else if triple_kills is Err {
            Err(triple_kills->Err_0)
        } else if true_damage_dealt is Err {
            Err(true_damage_dealt->Err_0)
        } else if true_damage_dealt_to_champions is Err {
            Err(true_damage_dealt_to_champions->Err_0)
        } else if true_damage_taken is Err {
            Err(true_damage_taken->Err_0)
        } else if turret_kills is Err {
            Err(turret_kills->Err_0)
        } else if turret_takedowns is Err {
            Err(turret_takedowns->Err_0)
        } else if turrets_lost is Err {
            Err(turrets_lost->Err_0)
        } else if unreal_kills is Err {
            Err(unreal_kills->Err_0)
        } else if vision_score is Err {
            Err(vision_score->Err_0)
        } else if vision_cleared_pings is Err {
            Err(vision_cleared_pings->Err_0)
        } else if vision_wards_bought_in_game is Err {
            Err(vision_wards_bought_in_game->Err_0)
        } else if wards_killed is Err {
            Err(wards_killed->Err_0)
        } else if wards_placed is Err {
            Err(wards_placed->Err_0)
        } else if win is Err {
            Err(win->Err_0)
        } else {
            Ok(
                ParticipantView {
                    all_in_pings: all_in_pings->Ok_0,
                    assist_me_pings: assist_me_pings->Ok_0,
                    assists: assists->Ok_0,
                    baron_kills: baron_kills->Ok_0,
                    bounty_level: bounty_level->Ok_0,
                    champ_experience: champ_experience->Ok_0,
                    champ_level: champ_level->Ok_0,
                    champion_id: champion_id->Ok_0,
                    champion_name: champion_name->Ok_0,
                    command_pings: command_pings->Ok_0,
                    champion_transform: champion_transform->Ok_0,
                    consumables_purchased: consumables_purchased->Ok_0,
                    challenges: challenges->Ok_0,
                    damage_dealt_to_buildings: damage_dealt_to_buildings->Ok_0,
                    damage_dealt_to_objectives: damage_dealt_to_objectives->Ok_0,
                    damage_dealt_to_turrets: damage_dealt_to_turrets->Ok_0,
                    damage_self_mitigated: damage_self_mitigated->Ok_0,
                    deaths: deaths->Ok_0,
                    detector_wards_placed: detector_wards_placed->Ok_0,
                    double_kills: double_kills->Ok_0,
                    dragon_kills: dragon_kills->Ok_0,
                    eligible_for_progression: eligible_for_progression->Ok_0,
                    enemy_missing_pings: enemy_missing_pings->Ok_0,
                    enemy_vision_pings: enemy_vision_pings->Ok_0,
                    first_blood_assist: first_blood_assist->Ok_0,
                    first_blood_kill: first_blood_kill->Ok_0,
                    first_tower_assist: first_tower_assist->Ok_0,
                    game_ended_in_early_surrender: game_ended_in_early_surrender->Ok_0,
                    game_ended_in_surrender: game_ended_in_surrender->Ok_0,
                    hold_pings: hold_pings->Ok_0,
                    get_back_pings: get_back_pings->Ok_0,
                    gold_earned: gold_earned->Ok_0,
                    gold_spent: gold_spent->Ok_0,
                    individual_position: individual_position->Ok_0,
                    inhibitor_kills: inhibitor_kills->Ok_0,
                    inhibitor_takedowns: inhibitor_takedowns->Ok_0,
                    inhibitors_lost: inhibitors_lost->Ok_0,
                    item_0: item_0->Ok_0,
                    item_1: item_1->Ok_0,
                    item_2: item_2->Ok_0,
                    item_3: item_3->Ok_0,
                    item_4: item_4->Ok_0,
                    item_5: item_5->Ok_0,
                    item_6: item_6->Ok_0,
                    items_purchased: items_purchased->Ok_0,
                    killing_sprees: killing_sprees->Ok_0,
                    kills: kills->Ok_0,
                    lane: lane->Ok_0,
                    largest_critical_strike: largest_critical_strike->Ok_0,
                    largest_killing_spree: largest_killing_spree->Ok_0,
                    largest_multi_kill: largest_multi_kill->Ok_0,
                    longest_time_spent_living: longest_time_spent_living->Ok_0,
                    magic_damage_dealt: magic_damage_dealt->Ok_0,
                    magic_damage_dealt_to_champions: magic_damage_dealt_to_champions->Ok_0,
                    magic_damage_taken: magic_damage_taken->Ok_0,
                    missions: missions->Ok_0,
                    neutral_minions_killed: neutral_minions_killed->Ok_0,
                    need_vision_pings: need_vision_pings->Ok_0,
                    nexus_kills: nexus_kills->Ok_0,
                    nexus_takedowns: nexus_takedowns->Ok_0,
                    nexus_lost: nexus_lost->Ok_0,
                    objectives_stolen: objectives_stolen->Ok_0,
                    objectives_stolen_assists: objectives_stolen_assists->Ok_0,
                    on_my_way_pings: on_my_way_pings->Ok_0,
                    participant_id: participant_id->Ok_0,
                    player_score0: player_score0->Ok_0,
                    player_score1: player_score1->Ok_0,
                    player_score2: player_score2->Ok_0,
                    player_score3: player_score3->Ok_0,
                    player_score4: player_score4->Ok_0,
                    player_score5: player_score5->Ok_0,
                    player_score6: player_score6->Ok_0,
                    player_score7: player_score7->Ok_0,
                    player_score8: player_score8->Ok_0,
                    player_score9: player_score9->Ok_0,
                    player_score10: player_score10->Ok_0,
                    player_score11: player_score11->Ok_0,
                    penta_kills: penta_kills->Ok_0,
                    perks: perks->Ok_0,
                    physical_damage_dealt: physical_damage_dealt->Ok_0,
                    physical_damage_dealt_to_champions: physical_damage_dealt_to_champions->Ok_0,
                    physical_damage_taken: physical_damage_taken->Ok_0,
                    placement: placement->Ok_0,
                    player_augment_1: player_augment_1->Ok_0,
                    player_augment_2: player_augment_2->Ok_0,
                    player_augment_3: player_augment_3->Ok_0,
                    player_augment_4: player_augment_4->Ok_0,
                    player_subteam_id: player_subteam_id->Ok_0,
                    push_pings: push_pings->Ok_0,
                    profile_icon: profile_icon->Ok_0,
                    puuid: puuid->Ok_0,
                    quadra_kills: quadra_kills->Ok_0,
                    riot_id_game_name: riot_id_game_name->Ok_0,
                    riot_id_tagline: riot_id_tagline->Ok_0,
                    role: role->Ok_0,
                    sight_wards_bought_in_game: sight_wards_bought_in_game->Ok_0,
                    spell1_casts: spell1_casts->Ok_0,
                    spell2_casts: spell2_casts->Ok_0,
                    spell3_casts: spell3_casts->Ok_0,
                    spell4_casts: spell4_casts->Ok_0,
                    subteam_placement: subteam_placement->Ok_0,
                    summoner1_casts: summoner1_casts->Ok_0,
                    summoner1_id: summoner1_id->Ok_0,
                    summoner2_casts: summoner2_casts->Ok_0,
                    summoner2_id: summoner2_id->Ok_0,
                    summoner_id: summoner_id->Ok_0,
                    summoner_level: summoner_level->Ok_0,
                    summoner_name: summoner_name->Ok_0,
                    team_early_surrendered: team_early_surrendered->Ok_0,
                    team_id: team_id->Ok_0,
                    team_position: team_position->Ok_0,
                    time_ccing_others: time_ccing_others->Ok_0,
                    time_played: time_played->Ok_0,
                    total_ally_jungle_minions_killed: total_ally_jungle_minions_killed->Ok_0,
                    total_damage_dealt: total_damage_dealt->Ok_0,
                    total_damage_dealt_to_champions: total_damage_dealt_to_champions->Ok_0,
                    total_damage_shielded_on_teammates: total_damage_shielded_on_teammates->Ok_0,
                    total_damage_taken: total_damage_taken->Ok_0,
                    total_enemy_jungle_minions_killed: total_enemy_jungle_minions_killed->Ok_0,
                    total_heal: total_heal->Ok_0,
                    total_heals_on_teammates: total_heals_on_teammates->Ok_0,
                    total_minions_killed: total_minions_killed->Ok_0,
                    total_time_cc_dealt: total_time_cc_dealt->Ok_0,
                    total_time_spent_dead: total_time_spent_dead->Ok_0,
                    total_units_healed: total_units_healed->Ok_0,
                    triple_kills: triple_kills->Ok_0,
                    true_damage_dealt: true_damage_dealt->Ok_0,
                    true_damage_dealt_to_champions: true_damage_dealt_to_champions->Ok_0,
                    true_damage_taken: true_damage_taken->Ok_0,
                    turret_kills: turret_kills->Ok_0,
                    turret_takedowns: turret_takedowns->Ok_0,
                    turrets_lost: turrets_lost->Ok_0,
                    unreal_kills: unreal_kills->Ok_0,
                    vision_score: vision_score->Ok_0,
                    vision_cleared_pings: vision_cleared_pings->Ok_0,
                    vision_wards_bought_in_game: vision_wards_bought_in_game->Ok_0,
                    wards_killed: wards_killed->Ok_0,
                    wards_placed: wards_placed->Ok_0,
                    win: win->Ok_0,
                },
            )
        }
    }

    open spec fn encoded(value: ParticipantView) -> JsonView {
        JsonView::Object(
            Seq::empty()
                .push(("allInPings"@, <i64>::encoded(value.all_in_pings)))
                .push(("assistMePings"@, <i64>::encoded(value.assist_me_pings)))
                .push(("assists"@, <i64>::encoded(value.assists)))
                .push(("baronKills"@, <i64>::encoded(value.baron_kills)))
                .push(("bountyLevel"@, <i64>::encoded(value.bounty_level)))
                .push(("champExperience"@, <i64>::encoded(value.champ_experience)))
                .push(("champLevel"@, <i64>::encoded(value.champ_level)))
                .push(("championId"@, <i64>::encoded(value.champion_id)))
                .push(("championName"@, <String>::encoded(value.champion_name)))
                .push(("commandPings"@, <i64>::encoded(value.command_pings)))
                .push(("championTransform"@, encoded_option::<i64>(value.champion_transform)))
                .push(("consumablesPurchased"@, <i64>::encoded(value.consumables_purchased)))
                .push(("challenges"@, <Challenges>::encoded(value.challenges)))
                .push(("damageDealtToBuildings"@, <i64>::encoded(value.damage_dealt_to_buildings)))
                .push(
                    (
                        "damageDealtToObjectives"@,
                        <i64>::encoded(value.damage_dealt_to_objectives),
                    ),
                )
                .push(("damageDealtToTurrets"@, <i64>::encoded(value.damage_dealt_to_turrets)))
                .push(("damageSelfMitigated"@, <i64>::encoded(value.damage_self_mitigated)))
                .push(("deaths"@, <i64>::encoded(value.deaths)))
                .push(("detectorWardsPlaced"@, <i64>::encoded(value.detector_wards_placed)))
                .push(("doubleKills"@, <i64>::encoded(value.double_kills)))
                .push(("dragonKills"@, <i64>::encoded(value.dragon_kills)))
                .push(("eligibleForProgression"@, <bool>::encoded(value.eligible_for_progression)))
                .push(("enemyMissingPings"@, <i64>::encoded(value.enemy_missing_pings)))
                .push(("enemyVisionPings"@, <i64>::encoded(value.enemy_vision_pings)))
                .push(("firstBloodAssist"@, <bool>::encoded(value.first_blood_assist)))
                .push(("firstBloodKill"@, <bool>::encoded(value.first_blood_kill)))
                .push(("firstTowerAssist"@, <bool>::encoded(value.first_tower_assist)))
                .push(
                    (
                        "gameEndedInEarlySurrender"@,
                        <bool>::encoded(value.game_ended_in_early_surrender),
                    ),
                )
                .push(("gameEndedInSurrender"@, <bool>::encoded(value.game_ended_in_surrender)))
                .push(("holdPings"@, <i64>::encoded(value.hold_pings)))
                .push(("getBackPings"@, <i64>::encoded(value.get_back_pings)))
                .push(("goldEarned"@, <i64>::encoded(value.gold_earned)))
                .push(("goldSpent"@, <i64>::encoded(value.gold_spent)))
                .push(("individualPosition"@, <String>::encoded(value.individual_position)))
                .push(("inhibitorKills"@, <i64>::encoded(value.inhibitor_kills)))
                .push(("inhibitorTakedowns"@, <i64>::encoded(value.inhibitor_takedowns)))
                .push(("inhibitorsLost"@, <i64>::encoded(value.inhibitors_lost)))
                .push(("item0"@, <i64>::encoded(value.item_0)))
                .push(("item1"@, <i64>::encoded(value.item_1)))
                .push(("item2"@, <i64>::encoded(value.item_2)))
                .push(("item3"@, <i64>::encoded(value.item_3)))
                .push(("item4"@, <i64>::encoded(value.item_4)))
                .push(("item5"@, <i64>::encoded(value.item_5)))
                .push(("item6"@, <i64>::encoded(value.item_6)))
                .push(("itemsPurchased"@, <i64>::encoded(value.items_purchased)))
                .push(("killingSprees"@, <i64>::encoded(value.killing_sprees)))
                .push(("kills"@, <i64>::encoded(value.kills)))
                .push(("lane"@, <String>::encoded(value.lane)))
                .push(("largestCriticalStrike"@, <i64>::encoded(value.largest_critical_strike)))
                .push(("largestKillingSpree"@, <i64>::encoded(value.largest_killing_spree)))
                .push(("largestMultiKill"@, <i64>::encoded(value.largest_multi_kill)))
                .push(("longestTimeSpentLiving"@, <i64>::encoded(value.longest_time_spent_living)))
                .push(("magicDamageDealt"@, <i64>::encoded(value.magic_damage_dealt)))
                .push(
                    (
                        "magicDamageDealtToChampions"@,
                        <i64>::encoded(value.magic_damage_dealt_to_champions),
                    ),
                )
                .push(("magicDamageTaken"@, <i64>::encoded(value.magic_damage_taken)))
                .push(("missions"@, <Missions>::encoded(value.missions)))
                .push(("neutralMinionsKilled"@, <i64>::encoded(value.neutral_minions_killed)))
                .push(("needVisionPings"@, <i64>::encoded(value.need_vision_pings)))
                .push(("nexusKills"@, <i64>::encoded(value.nexus_kills)))
                .push(("nexusTakedowns"@, <i64>::encoded(value.nexus_takedowns)))
                .push(("nexusLost"@, <i64>::encoded(value.nexus_lost)))
                .push(("objectivesStolen"@, <i64>::encoded(value.objectives_stolen)))
                .push(("objectivesStolenAssists"@, <i64>::encoded(value.objectives_stolen_assists)))
                .push(("onMyWayPings"@, <i64>::encoded(value.on_my_way_pings)))
                .push(("participantId"@, <i64>::encoded(value.participant_id)))
                .push(("playerScore0"@, encoded_option::<i64>(value.player_score0)))
                .push(("playerScore1"@, encoded_option::<i64>(value.player_score1)))
                .push(("playerScore2"@, encoded_option::<i64>(value.player_score2)))
                .push(("playerScore3"@, encoded_option::<i64>(value.player_score3)))
                .push(("playerScore4"@, encoded_option::<i64>(value.player_score4)))
                .push(("playerScore5"@, encoded_option::<i64>(value.player_score5)))
                .push(("playerScore6"@, encoded_option::<i64>(value.player_score6)))
                .push(("playerScore7"@, encoded_option::<i64>(value.player_score7)))
                .push(("playerScore8"@, encoded_option::<i64>(value.player_score8)))
                .push(("playerScore9"@, encoded_option::<i64>(value.player_score9)))
                .push(("playerScore10"@, encoded_option::<i64>(value.player_score10)))
                .push(("playerScore11"@, encoded_option::<i64>(value.player_score11)))
                .push(("pentaKills"@, <i64>::encoded(value.penta_kills)))
                .push(("perks"@, <Perks>::encoded(value.perks)))
                .push(("physicalDamageDealt"@, <i64>::encoded(value.physical_damage_dealt)))
                .push(
                    (
                        "physicalDamageDealtToChampions"@,
                        <i64>::encoded(value.physical_damage_dealt_to_champions),
                    ),
                )
                .push(("physicalDamageTaken"@, <i64>::encoded(value.physical_damage_taken)))
                .push(("placement"@, <i64>::encoded(value.placement)))
                .push(("playerAugment1"@, <i64>::encoded(value.player_augment_1)))
                .push(("playerAugment2"@, <i64>::encoded(value.player_augment_2)))
                .push(("playerAugment3"@, <i64>::encoded(value.player_augment_3)))
                .push(("playerAugment4"@, <i64>::encoded(value.player_augment_4)))
                .push(("playerSubteamId"@, <i64>::encoded(value.player_subteam_id)))
                .push(("pushPings"@, <i64>::encoded(value.push_pings)))
                .push(("profileIcon"@, <i64>::encoded(value.profile_icon)))
                .push(("puuid"@, <String>::encoded(value.puuid)))
                .push(("quadraKills"@, <i64>::encoded(value.quadra_kills)))
                .push(("riotIdGameName"@, <String>::encoded(value.riot_id_game_name)))
                .push(("riotIdTagline"@, <String>::encoded(value.riot_id_tagline)))
                .push(("role"@, <String>::encoded(value.role)))
                .push(("sightWardsBoughtInGame"@, <i64>::encoded(value.sight_wards_bought_in_game)))
                .push(("spell1Casts"@, <i64>::encoded(value.spell1_casts)))
                .push(("spell2Casts"@, <i64>::encoded(value.spell2_casts)))
                .push(("spell3Casts"@, <i64>::encoded(value.spell3_casts)))
                .push(("spell4Casts"@, <i64>::encoded(value.spell4_casts)))
                .push(("subteamPlacement"@, <i64>::encoded(value.subteam_placement)))
                .push(("summoner1Casts"@, <i64>::encoded(value.summoner1_casts)))
                .push(("summoner1Id"@, <i64>::encoded(value.summoner1_id)))
                .push(("summoner2Casts"@, <i64>::encoded(value.summoner2_casts)))
                .push(("summoner2Id"@, <i64>::encoded(value.summoner2_id)))
                .push(("summonerId"@, <String>::encoded(value.summoner_id)))
                .push(("summonerLevel"@, <i64>::encoded(value.summoner_level)))
                .push(("summonerName"@, <String>::encoded(value.summoner_name)))
                .push(("teamEarlySurrendered"@, <bool>::encoded(value.team_early_surrendered)))
                .push(("teamId"@, <i64>::encoded(value.team_id)))
                .push(("teamPosition"@, <String>::encoded(value.team_position)))
                .push(("timeCCingOthers"@, <i64>::encoded(value.time_ccing_others)))
                .push(("timePlayed"@, <i64>::encoded(value.time_played)))
                .push(
                    (
                        "totalAllyJungleMinionsKilled"@,
                        <i64>::encoded(value.total_ally_jungle_minions_killed),
                    ),
                )
                .push(("totalDamageDealt"@, <i64>::encoded(value.total_damage_dealt)))
                .push(
                    (
                        "totalDamageDealtToChampions"@,
                        <i64>::encoded(value.total_damage_dealt_to_champions),
                    ),
                )
                .push(
                    (
                        "totalDamageShieldedOnTeammates"@,
                        <i64>::encoded(value.total_damage_shielded_on_teammates),
                    ),
                )
                .push(("totalDamageTaken"@, <i64>::encoded(value.total_damage_taken)))
                .push(
                    (
                        "totalEnemyJungleMinionsKilled"@,
                        <i64>::encoded(value.total_enemy_jungle_minions_killed),
                    ),
                )
                .push(("totalHeal"@, <i64>::encoded(value.total_heal)))
                .push(("totalHealsOnTeammates"@, <i64>::encoded(value.total_heals_on_teammates)))
                .push(("totalMinionsKilled"@, <i64>::encoded(value.total_minions_killed)))
                .push(("totalTimeCCDealt"@, <i64>::encoded(value.total_time_cc_dealt)))
                .push(("totalTimeSpentDead"@, <i64>::encoded(value.total_time_spent_dead)))
                .push(("totalUnitsHealed"@, <i64>::encoded(value.total_units_healed)))
                .push(("tripleKills"@, <i64>::encoded(value.triple_kills)))
                .push(("trueDamageDealt"@, <i64>::encoded(value.true_damage_dealt)))
                .push(
                    (
                        "trueDamageDealtToChampions"@,
                        <i64>::encoded(value.true_damage_dealt_to_champions),
                    ),
                )
                .push(("trueDamageTaken"@, <i64>::encoded(value.true_damage_taken)))
                .push(("turretKills"@, <i64>::encoded(value.turret_kills)))
                .push(("turretTakedowns"@, <i64>::encoded(value.turret_takedowns)))
                .push(("turretsLost"@, <i64>::encoded(value.turrets_lost)))
                .push(("unrealKills"@, <i64>::encoded(value.unreal_kills)))
                .push(("visionScore"@, <i64>::encoded(value.vision_score)))
                .push(("visionClearedPings"@, <i64>::encoded(value.vision_cleared_pings)))
                .push(
                    (
                        "visionWardsBoughtInGame"@,
                        <i64>::encoded(value.vision_wards_bought_in_game),
                    ),
                )
                .push(("wardsKilled"@, <i64>::encoded(value.wards_killed)))
                .push(("wardsPlaced"@, <i64>::encoded(value.wards_placed)))
                .push(("win"@, <bool>::encoded(value.win))),
        )
    }

    fn decode(json: &Json) -> (outcome: Result<Self, DecodeFailure>) {
        let all_in_pings = read_required::<i64>(json, "allInPings")?;
        let assist_me_pings = read_required::<i64>(json, "assistMePings")?;
        let assists = read_required::<i64>(json, "assists")?;
        let baron_kills = read_required::<i64>(json, "baronKills")?;
        let bounty_level = read_required::<i64>(json, "bountyLevel")?;
        let champ_experience = read_required::<i64>(json, "champExperience")?;
        let champ_level = read_required::<i64>(json, "champLevel")?;
        let champion_id = read_required::<i64>(json, "championId")?;
        let champion_name = read_required::<String>(json, "championName")?;
        let command_pings = read_required::<i64>(json, "commandPings")?;
        let champion_transform = read_optional::<i64>(json, "championTransform")?;
        let consumables_purchased = read_required::<i64>(json, "consumablesPurchased")?;
        let challenges = read_required::<Challenges>(json, "challenges")?;
        let damage_dealt_to_buildings = read_required::<i64>(json, "damageDealtToBuildings")?;
        let damage_dealt_to_objectives = read_required::<i64>(json, "damageDealtToObjectives")?;
        let damage_dealt_to_turrets = read_required::<i64>(json, "damageDealtToTurrets")?;
        let damage_self_mitigated = read_required::<i64>(json, "damageSelfMitigated")?;
        let deaths = read_required::<i64>(json, "deaths")?;
        let detector_wards_placed = read_required::<i64>(json, "detectorWardsPlaced")?;
        let double_kills = read_required::<i64>(json, "doubleKills")?;
        let dragon_kills = read_required::<i64>(json, "dragonKills")?;
        let eligible_for_progression = read_required::<bool>(json, "eligibleForProgression")?;
        let enemy_missing_pings = read_required::<i64>(json, "enemyMissingPings")?;
        let enemy_vision_pings = read_required::<i64>(json, "enemyVisionPings")?;
        let first_blood_assist = read_required::<bool>(json, "firstBloodAssist")?;
        let first_blood_kill = read_required::<bool>(json, "firstBloodKill")?;
        let first_tower_assist = read_required::<bool>(json, "firstTowerAssist")?;
        let game_ended_in_early_surrender = read_required::<bool>(
            json,
            "gameEndedInEarlySurrender",
        )?;
        let game_ended_in_surrender = read_required::<bool>(json, "gameEndedInSurrender")?;
        let hold_pings = read_required::<i64>(json, "holdPings")?;
        let get_back_pings = read_required::<i64>(json, "getBackPings")?;
        let gold_earned = read_required::<i64>(json, "goldEarned")?;
        let gold_spent = read_required::<i64>(json, "goldSpent")?;
        let individual_position = read_required::<String>(json, "individualPosition")?;
        let inhibitor_kills = read_required::<i64>(json, "inhibitorKills")?;
        let inhibitor_takedowns = read_required::<i64>(json, "inhibitorTakedowns")?;
        let inhibitors_lost = read_required::<i64>(json, "inhibitorsLost")?;
        let item_0 = read_required::<i64>(json, "item0")?;
        let item_1 = read_required::<i64>(json, "item1")?;
        let item_2 = read_required::<i64>(json, "item2")?;
        let item_3 = read_required::<i64>(json, "item3")?;
        let item_4 = read_required::<i64>(json, "item4")?;
        let item_5 = read_required::<i64>(json, "item5")?;
        let item_6 = read_required::<i64>(json, "item6")?;
        let items_purchased = read_required::<i64>(json, "itemsPurchased")?;
        let killing_sprees = read_required::<i64>(json, "killingSprees")?;
        let kills = read_required::<i64>(json, "kills")?;
        let lane = read_required::<String>(json, "lane")?;
        let largest_critical_strike = read_required::<i64>(json, "largestCriticalStrike")?;
        let largest_killing_spree = read_required::<i64>(json, "largestKillingSpree")?;
        let largest_multi_kill = read_required::<i64>(json, "largestMultiKill")?;
        let longest_time_spent_living = read_required::<i64>(json, "longestTimeSpentLiving")?;
        let magic_damage_dealt = read_required::<i64>(json, "magicDamageDealt")?;
        let magic_damage_dealt_to_champions = read_required::<i64>(
            json,
            "magicDamageDealtToChampions",
        )?;
        let magic_damage_taken = read_required::<i64>(json, "magicDamageTaken")?;
        let missions = read_required::<Missions>(json, "missions")?;
        let neutral_minions_killed = read_required::<i64>(json, "neutralMinionsKilled")?;
        let need_vision_pings = read_required::<i64>(json, "needVisionPings")?;
        let nexus_kills = read_required::<i64>(json, "nexusKills")?;
        let nexus_takedowns = read_required::<i64>(json, "nexusTakedowns")?;
        let nexus_lost = read_required::<i64>(json, "nexusLost")?;
        let objectives_stolen = read_required::<i64>(json, "objectivesStolen")?;
        let objectives_stolen_assists = read_required::<i64>(json, "objectivesStolenAssists")?;
        let on_my_way_pings = read_required::<i64>(json, "onMyWayPings")?;
        let participant_id = read_required::<i64>(json, "participantId")?;
        let player_score0 = read_optional::<i64>(json, "playerScore0")?;
        let player_score1 = read_optional::<i64>(json, "playerScore1")?;
        let player_score2 = read_optional::<i64>(json, "playerScore2")?;
        let player_score3 = read_optional::<i64>(json, "playerScore3")?;
        let player_score4 = read_optional::<i64>(json, "playerScore4")?;
        let player_score5 = read_optional::<i64>(json, "playerScore5")?;
        let player_score6 = read_optional::<i64>(json, "playerScore6")?;
        let player_score7 = read_optional::<i64>(json, "playerScore7")?;
        let player_score8 = read_optional::<i64>(json, "playerScore8")?;
        let player_score9 = read_optional::<i64>(json, "playerScore9")?;
        let player_score10 = read_optional::<i64>(json, "playerScore10")?;
        let player_score11 = read_optional::<i64>(json, "playerScore11")?;
        let penta_kills = read_required::<i64>(json, "pentaKills")?;
        let perks = read_required::<Perks>(json, "perks")?;
        let physical_damage_dealt = read_required::<i64>(json, "physicalDamageDealt")?;
        let physical_damage_dealt_to_champions = read_required::<i64>(
            json,
            "physicalDamageDealtToChampions",
        )?;
        let physical_damage_taken = read_required::<i64>(json, "physicalDamageTaken")?;
        let placement = read_required::<i64>(json, "placement")?;
        let player_augment_1 = read_required::<i64>(json, "playerAugment1")?;
        let player_augment_2 = read_required::<i64>(json, "playerAugment2")?;
        let player_augment_3 = read_required::<i64>(json, "playerAugment3")?;
        let player_augment_4 = read_required::<i64>(json, "playerAugment4")?;
        let player_subteam_id = read_required::<i64>(json, "playerSubteamId")?;
        let push_pings = read_required::<i64>(json, "pushPings")?;
        let profile_icon = read_required::<i64>(json, "profileIcon")?;
        let puuid = read_required::<String>(json, "puuid")?;
        let quadra_kills = read_required::<i64>(json, "quadraKills")?;
        let riot_id_game_name = read_required::<String>(json, "riotIdGameName")?;
        let riot_id_tagline = read_required::<String>(json, "riotIdTagline")?;
        let role = read_required::<String>(json, "role")?;
        let sight_wards_bought_in_game = read_required::<i64>(json, "sightWardsBoughtInGame")?;
        let spell1_casts = read_required::<i64>(json, "spell1Casts")?;
        let spell2_casts = read_required::<i64>(json, "spell2Casts")?;
        let spell3_casts = read_required::<i64>(json, "spell3Casts")?;
        let spell4_casts = read_required::<i64>(json, "spell4Casts")?;
        let subteam_placement = read_required::<i64>(json, "subteamPlacement")?;
        let summoner1_casts = read_required::<i64>(json, "summoner1Casts")?;
        let summoner1_id = read_required::<i64>(json, "summoner1Id")?;
        let summoner2_casts = read_required::<i64>(json, "summoner2Casts")?;
        let summoner2_id = read_required::<i64>(json, "summoner2Id")?;
        let summoner_id = read_required::<String>(json, "summonerId")?;
        let summoner_level = read_required::<i64>(json, "summonerLevel")?;
        let summoner_name = read_required::<String>(json, "summonerName")?;
        let team_early_surrendered = read_required::<bool>(json, "teamEarlySurrendered")?;
        let team_id = read_required::<i64>(json, "teamId")?;
        let team_position = read_required::<String>(json, "teamPosition")?;
        let time_ccing_others = read_required::<i64>(json, "timeCCingOthers")?;
        let time_played = read_required::<i64>(json, "timePlayed")?;
        let total_ally_jungle_minions_killed = read_required::<i64>(
            json,
            "totalAllyJungleMinionsKilled",
        )?;
        let total_damage_dealt = read_required::<i64>(json, "totalDamageDealt")?;
        let total_damage_dealt_to_champions = read_required::<i64>(
            json,
            "totalDamageDealtToChampions",
        )?;
        let total_damage_shielded_on_teammates = read_required::<i64>(
            json,
            "totalDamageShieldedOnTeammates",
        )?;
        let total_damage_taken = read_required::<i64>(json, "totalDamageTaken")?;
        let total_enemy_jungle_minions_killed = read_required::<i64>(
            json,
            "totalEnemyJungleMinionsKilled",
        )?;
        let total_heal = read_required::<i64>(json, "totalHeal")?;
        let total_heals_on_teammates = read_required::<i64>(json, "totalHealsOnTeammates")?;
        let total_minions_killed = read_required::<i64>(json, "totalMinionsKilled")?;
        let total_time_cc_dealt = read_required::<i64>(json, "totalTimeCCDealt")?;
        let total_time_spent_dead = read_required::<i64>(json, "totalTimeSpentDead")?;
        let total_units_healed = read_required::<i64>(json, "totalUnitsHealed")?;
        let triple_kills = read_required::<i64>(json, "tripleKills")?;
        let true_damage_dealt = read_required::<i64>(json, "trueDamageDealt")?;
        let true_damage_dealt_to_champions = read_required::<i64>(
            json,
            "trueDamageDealtToChampions",
        )?;
        let true_damage_taken = read_required::<i64>(json, "trueDamageTaken")?;
        let turret_kills = read_required::<i64>(json, "turretKills")?;
        let turret_takedowns = read_required::<i64>(json, "turretTakedowns")?;
        let turrets_lost = read_required::<i64>(json, "turretsLost")?;
        let unreal_kills = read_required::<i64>(json, "unrealKills")?;
        let vision_score = read_required::<i64>(json, "visionScore")?;
        let vision_cleared_pings = read_required::<i64>(json, "visionClearedPings")?;
        let vision_wards_bought_in_game = read_required::<i64>(json, "visionWardsBoughtInGame")?;
        let wards_killed = read_required::<i64>(json, "wardsKilled")?;
        let wards_placed = read_required::<i64>(json, "wardsPlaced")?;
        let win = read_required::<bool>(json, "win")?;
        Ok(
            Participant {
                all_in_pings,
                assist_me_pings,
                assists,
                baron_kills,
                bounty_level,
                champ_experience,
                champ_level,
                champion_id,
                champion_name,
                command_pings,
                champion_transform,
                consumables_purchased,
                challenges,
                damage_dealt_to_buildings,
                damage_dealt_to_objectives,
                damage_dealt_to_turrets,
                damage_self_mitigated,
                deaths,
                detector_wards_placed,
                double_kills,
                dragon_kills,
                eligible_for_progression,
                enemy_missing_pings,
                enemy_vision_pings,
                first_blood_assist,
                first_blood_kill,
                first_tower_assist,
                game_ended_in_early_surrender,
                game_ended_in_surrender,
                hold_pings,
                get_back_pings,
                gold_earned,
                gold_spent,
                individual_position,
                inhibitor_kills,
                inhibitor_takedowns,
                inhibitors_lost,
                item_0,
                item_1,
                item_2,
                item_3,
                item_4,
                item_5,
                item_6,
                items_purchased,
                killing_sprees,
                kills,
                lane,
                largest_critical_strike,
                largest_killing_spree,
                largest_multi_kill,
                longest_time_spent_living,
                magic_damage_dealt,
                magic_damage_dealt_to_champions,
                magic_damage_taken,
                missions,
                neutral_minions_killed,
                need_vision_pings,
                nexus_kills,
                nexus_takedowns,
                nexus_lost,
                objectives_stolen,
                objectives_stolen_assists,
                on_my_way_pings,
                participant_id,
                player_score0,
                player_score1,
                player_score2,
                player_score3,
                player_score4,
                player_score5,
                player_score6,
                player_score7,
                player_score8,
                player_score9,
                player_score10,
                player_score11,
                penta_kills,
                perks,
                physical_damage_dealt,
                physical_damage_dealt_to_champions,
                physical_damage_taken,
                placement,
                player_augment_1,
                player_augment_2,
                player_augment_3,
                player_augment_4,
                player_subteam_id,
                push_pings,
                profile_icon,
                puuid,
                quadra_kills,
                riot_id_game_name,
                riot_id_tagline,
                role,
                sight_wards_bought_in_game,
                spell1_casts,
                spell2_casts,
                spell3_casts,
                spell4_casts,
                subteam_placement,
                summoner1_casts,
                summoner1_id,
                summoner2_casts,
                summoner2_id,
                summoner_id,
                summoner_level,
                summoner_name,
                team_early_surrendered,
                team_id,
                team_position,
                time_ccing_others,
                time_played,
                total_ally_jungle_minions_killed,
                total_damage_dealt,
                total_damage_dealt_to_champions,
                total_damage_shielded_on_teammates,
                total_damage_taken,
                total_enemy_jungle_minions_killed,
                total_heal,
                total_heals_on_teammates,
                total_minions_killed,
                total_time_cc_dealt,
                total_time_spent_dead,
                total_units_healed,
                triple_kills,
                true_damage_dealt,
                true_damage_dealt_to_champions,
                true_damage_taken,
                turret_kills,
                turret_takedowns,
                turrets_lost,
                unreal_kills,
                vision_score,
                vision_cleared_pings,
                vision_wards_bought_in_game,
                wards_killed,
                wards_placed,
                win,
            },
        )
    }

    fn encode(&self) -> (json: Json) {
        let mut members = no_members();
        push_member::<i64>(&mut members, "allInPings", &self.all_in_pings);
        push_member::<i64>(&mut members, "assistMePings", &self.assist_me_pings);
        push_member::<i64>(&mut members, "assists", &self.assists);
        push_member::<i64>(&mut members, "baronKills", &self.baron_kills);
        push_member::<i64>(&mut members, "bountyLevel", &self.bounty_level);
        push_member::<i64>(&mut members, "champExperience", &self.champ_experience);
        push_member::<i64>(&mut members, "champLevel", &self.champ_level);
        push_member::<i64>(&mut members, "championId", &self.champion_id);
        push_member::<String>(&mut members, "championName", &self.champion_name);
        push_member::<i64>(&mut members, "commandPings", &self.command_pings);
        push_optional_member::<i64>(&mut members, "championTransform", &self.champion_transform);
        push_member::<i64>(&mut members, "consumablesPurchased", &self.consumables_purchased);
        push_member::<Challenges>(&mut members, "challenges", &self.challenges);
        push_member::<i64>(&mut members, "damageDealtToBuildings", &self.damage_dealt_to_buildings);
        push_member::<i64>(
            &mut members,
            "damageDealtToObjectives",
            &self.damage_dealt_to_objectives,
        );
        push_member::<i64>(&mut members, "damageDealtToTurrets", &self.damage_dealt_to_turrets);
        push_member::<i64>(&mut members, "damageSelfMitigated", &self.damage_self_mitigated);
        push_member::<i64>(&mut members, "deaths", &self.deaths);
        push_member::<i64>(&mut members, "detectorWardsPlaced", &self.detector_wards_placed);
        push_member::<i64>(&mut members, "doubleKills", &self.double_kills);
        push_member::<i64>(&mut members, "dragonKills", &self.dragon_kills);
        push_member::<bool>(&mut members, "eligibleForProgression", &self.eligible_for_progression);
        push_member::<i64>(&mut members, "enemyMissingPings", &self.enemy_missing_pings);
        push_member::<i64>(&mut members, "enemyVisionPings", &self.enemy_vision_pings);
        push_member::<bool>(&mut members, "firstBloodAssist", &self.first_blood_assist);
        push_member::<bool>(&mut members, "firstBloodKill", &self.first_blood_kill);
        push_member::<bool>(&mut members, "firstTowerAssist", &self.first_tower_assist);
        push_member::<bool>(
            &mut members,
            "gameEndedInEarlySurrender",
            &self.game_ended_in_early_surrender,
        );
        push_member::<bool>(&mut members, "gameEndedInSurrender", &self.game_ended_in_surrender);
        push_member::<i64>(&mut members, "holdPings", &self.hold_pings);
        push_member::<i64>(&mut members, "getBackPings", &self.get_back_pings);
        push_member::<i64>(&mut members, "goldEarned", &self.gold_earned);
        push_member::<i64>(&mut members, "goldSpent", &self.gold_spent);
        push_member::<String>(&mut members, "individualPosition", &self.individual_position);
        push_member::<i64>(&mut members, "inhibitorKills", &self.inhibitor_kills);
        push_member::<i64>(&mut members, "inhibitorTakedowns", &self.inhibitor_takedowns);
        push_member::<i64>(&mut members, "inhibitorsLost", &self.inhibitors_lost);
        push_member::<i64>(&mut members, "item0", &self.item_0);
        push_member::<i64>(&mut members, "item1", &self.item_1);
        push_member::<i64>(&mut members, "item2", &self.item_2);
        push_member::<i64>(&mut members, "item3", &self.item_3);
        push_member::<i64>(&mut members, "item4", &self.item_4);
        push_member::<i64>(&mut members, "item5", &self.item_5);
        push_member::<i64>(&mut members, "item6", &self.item_6);
        push_member::<i64>(&mut members, "itemsPurchased", &self.items_purchased);
        push_member::<i64>(&mut members, "killingSprees", &self.killing_sprees);
        push_member::<i64>(&mut members, "kills", &self.kills);
        push_member::<String>(&mut members, "lane", &self.lane);
        push_member::<i64>(&mut members, "largestCriticalStrike", &self.largest_critical_strike);
        push_member::<i64>(&mut members, "largestKillingSpree", &self.largest_killing_spree);
        push_member::<i64>(&mut members, "largestMultiKill", &self.largest_multi_kill);
        push_member::<i64>(&mut members, "longestTimeSpentLiving", &self.longest_time_spent_living);
        push_member::<i64>(&mut members, "magicDamageDealt", &self.magic_damage_dealt);
        push_member::<i64>(
            &mut members,
            "magicDamageDealtToChampions",
            &self.magic_damage_dealt_to_champions,
        );
        push_member::<i64>(&mut members, "magicDamageTaken", &self.magic_damage_taken);
        push_member::<Missions>(&mut members, "missions", &self.missions);
        push_member::<i64>(&mut members, "neutralMinionsKilled", &self.neutral_minions_killed);
        push_member::<i64>(&mut members, "needVisionPings", &self.need_vision_pings);
        push_member::<i64>(&mut members, "nexusKills", &self.nexus_kills);
        push_member::<i64>(&mut members, "nexusTakedowns", &self.nexus_takedowns);
        push_member::<i64>(&mut members, "nexusLost", &self.nexus_lost);
        push_member::<i64>(&mut members, "objectivesStolen", &self.objectives_stolen);
        push_member::<i64>(
            &mut members,
            "objectivesStolenAssists",
            &self.objectives_stolen_assists,
        );
        push_member::<i64>(&mut members, "onMyWayPings", &self.on_my_way_pings);
        push_member::<i64>(&mut members, "participantId", &self.participant_id);
        push_optional_member::<i64>(&mut members, "playerScore0", &self.player_score0);
        push_optional_member::<i64>(&mut members, "playerScore1", &self.player_score1);
        push_optional_member::<i64>(&mut members, "playerScore2", &self.player_score2);
        push_optional_member::<i64>(&mut members, "playerScore3", &self.player_score3);
        push_optional_member::<i64>(&mut members, "playerScore4", &self.player_score4);
        push_optional_member::<i64>(&mut members, "playerScore5", &self.player_score5);
        push_optional_member::<i64>(&mut members, "playerScore6", &self.player_score6);
        push_optional_member::<i64>(&mut members, "playerScore7", &self.player_score7);
        push_optional_member::<i64>(&mut members, "playerScore8", &self.player_score8);
        push_optional_member::<i64>(&mut members, "playerScore9", &self.player_score9);
        push_optional_member::<i64>(&mut members, "playerScore10", &self.player_score10);
        push_optional_member::<i64>(&mut members, "playerScore11", &self.player_score11);
        push_member::<i64>(&mut members, "pentaKills", &self.penta_kills);
        push_member::<Perks>(&mut members, "perks", &self.perks);
        push_member::<i64>(&mut members, "physicalDamageDealt", &self.physical_damage_dealt);
        push_member::<i64>(
            &mut members,
            "physicalDamageDealtToChampions",
            &self.physical_damage_dealt_to_champions,
        );
        push_member::<i64>(&mut members, "physicalDamageTaken", &self.physical_damage_taken);
        push_member::<i64>(&mut members, "placement", &self.placement);
        push_member::<i64>(&mut members, "playerAugment1", &self.player_augment_1);
        push_member::<i64>(&mut members, "playerAugment2", &self.player_augment_2);
        push_member::<i64>(&mut members, "playerAugment3", &self.player_augment_3);
        push_member::<i64>(&mut members, "playerAugment4", &self.player_augment_4);
        push_member::<i64>(&mut members, "playerSubteamId", &self.player_subteam_id);
        push_member::<i64>(&mut members, "pushPings", &self.push_pings);
        push_member::<i64>(&mut members, "profileIcon", &self.profile_icon);
        push_member::<String>(&mut members, "puuid", &self.puuid);
        push_member::<i64>(&mut members, "quadraKills", &self.quadra_kills);
        push_member::<String>(&mut members, "riotIdGameName", &self.riot_id_game_name);
        push_member::<String>(&mut members, "riotIdTagline", &self.riot_id_tagline);
        push_member::<String>(&mut members, "role", &self.role);
        push_member::<i64>(
            &mut members,
            "sightWardsBoughtInGame",
            &self.sight_wards_bought_in_game,
        );
        push_member::<i64>(&mut members, "spell1Casts", &self.spell1_casts);
        push_member::<i64>(&mut members, "spell2Casts", &self.spell2_casts);
        push_member::<i64>(&mut members, "spell3Casts", &self.spell3_casts);
        push_member::<i64>(&mut members, "spell4Casts", &self.spell4_casts);
        push_member::<i64>(&mut members, "subteamPlacement", &self.subteam_placement);
        push_member::<i64>(&mut members, "summoner1Casts", &self.summoner1_casts);
        push_member::<i64>(&mut members, "summoner1Id", &self.summoner1_id);
        push_member::<i64>(&mut members, "summoner2Casts", &self.summoner2_casts);
        push_member::<i64>(&mut members, "summoner2Id", &self.summoner2_id);
        push_member::<String>(&mut members, "summonerId", &self.summoner_id);
        push_member::<i64>(&mut members, "summonerLevel", &self.summoner_level);
        push_member::<String>(&mut members, "summonerName", &self.summoner_name);
        push_member::<bool>(&mut members, "teamEarlySurrendered", &self.team_early_surrendered);
        push_member::<i64>(&mut members, "teamId", &self.team_id);
        push_member::<String>(&mut members, "teamPosition", &self.team_position);
        push_member::<i64>(&mut members, "timeCCingOthers", &self.time_ccing_others);
        push_member::<i64>(&mut members, "timePlayed", &self.time_played);
        push_member::<i64>(
            &mut members,
            "totalAllyJungleMinionsKilled",
            &self.total_ally_jungle_minions_killed,
        );
        push_member::<i64>(&mut members, "totalDamageDealt", &self.total_damage_dealt);
        push_member::<i64>(
            &mut members,
            "totalDamageDealtToChampions",
            &self.total_damage_dealt_to_champions,
        );
        push_member::<i64>(
            &mut members,
            "totalDamageShieldedOnTeammates",
            &self.total_damage_shielded_on_teammates,
        );
        push_member::<i64>(&mut members, "totalDamageTaken", &self.total_damage_taken);
        push_member::<i64>(
            &mut members,
            "totalEnemyJungleMinionsKilled",
            &self.total_enemy_jungle_minions_killed,
        );
        push_member::<i64>(&mut members, "totalHeal", &self.total_heal);
        push_member::<i64>(&mut members, "totalHealsOnTeammates", &self.total_heals_on_teammates);
        push_member::<i64>(&mut members, "totalMinionsKilled", &self.total_minions_killed);
        push_member::<i64>(&mut members, "totalTimeCCDealt", &self.total_time_cc_dealt);
        push_member::<i64>(&mut members, "totalTimeSpentDead", &self.total_time_spent_dead);
        push_member::<i64>(&mut members, "totalUnitsHealed", &self.total_units_healed);
        push_member::<i64>(&mut members, "tripleKills", &self.triple_kills);
        push_member::<i64>(&mut members, "trueDamageDealt", &self.true_damage_dealt);
        push_member::<i64>(
            &mut members,
            "trueDamageDealtToChampions",
            &self.true_damage_dealt_to_champions,
        );
        push_member::<i64>(&mut members, "trueDamageTaken", &self.true_damage_taken);
        push_member::<i64>(&mut members, "turretKills", &self.turret_kills);
        push_member::<i64>(&mut members, "turretTakedowns", &self.turret_takedowns);
        push_member::<i64>(&mut members, "turretsLost", &self.turrets_lost);
        push_member::<i64>(&mut members, "unrealKills", &self.unreal_kills);
        push_member::<i64>(&mut members, "visionScore", &self.vision_score);
        push_member::<i64>(&mut members, "visionClearedPings", &self.vision_cleared_pings);
        push_member::<i64>(
            &mut members,
            "visionWardsBoughtInGame",
            &self.vision_wards_bought_in_game,
        );
        push_member::<i64>(&mut members, "wardsKilled", &self.wards_killed);
        push_member::<i64>(&mut members, "wardsPlaced", &self.wards_placed);
        push_member::<bool>(&mut members, "win", &self.win);
        object_of(members)
    }
}

/// The challenge counters of a participant.
#[derive(Clone, Debug, PartialEq, Eq)]
pub struct Challenges {
    pub n12assist_streak_count: Option<i64>,
    pub heal_from_map_sources: Number,
    pub infernal_scale_pickup: Option<i64>,
    pub swarm_defeat_aatrox: Option<i64>,
    pub swarm_defeat_briar: Option<i64>,
    pub swarm_defeat_mini_bosses: Option<i64>,
    pub swarm_evolve_weapon: Option<i64>,
    pub swarm_have3passives: Option<i64>,
    pub swarm_kill_enemy: Option<i64>,
    pub swarm_pickup_gold: Option<i64>,
    pub swarm_reach_level50: Option<i64>,
    pub swarm_survive15min: Option<i64>,
    pub swarm_win_with5evolved_weapons: Option<i64>,
    pub ability_uses: Option<i64>,
    pub aces_before15minutes: Option<i64>,
    pub allied_jungle_monster_kills: Option<i64>,
    pub baron_takedowns: Option<i64>,
    pub blast_cone_opposite_opponent_count: Option<i64>,
    pub bounty_gold: Option<Number>,
    pub buffs_stolen: Option<i64>,
    pub complete_support_quest_in_time: Option<i64>,
    pub control_ward_time_coverage_in_river_or_enemy_half: Option<Number>,
    pub control_wards_placed: Option<i64>,
    pub damage_per_minute: Number,
    pub damage_taken_on_team_percentage: Number,
    pub danced_with_rift_herald: Option<i64>,
    pub deaths_by_enemy_champs: Option<i64>,
    pub dodge_skill_shots_small_window: Option<i64>,
    pub double_aces: Option<i64>,
    pub dragon_takedowns: Option<i64>,
    pub early_laning_phase_gold_exp_advantage: Option<i64>,
    pub effective_heal_and_shielding: Number,
    pub elder_dragon_kills_with_opposing_soul: Option<i64>,
    pub elder_dragon_multikills: Option<i64>,
    pub enemy_champion_immobilizations: Option<i64>,
    pub enemy_jungle_monster_kills: Option<i64>,
    pub epic_monster_kills_near_enemy_jungler: Option<i64>,
    pub epic_monster_kills_within30seconds_of_spawn: Option<i64>,
    pub epic_monster_steals: Option<i64>,
    pub epic_monster_stolen_without_smite: Option<i64>,
    pub first_turret_killed: Option<i64>,
    pub fist_bump_participation: Option<i64>,
    pub flawless_aces: Option<i64>,
    pub full_team_takedown: Option<i64>,
    pub game_length: Number,
    pub get_takedowns_in_all_lanes_early_jungle_as_laner: Option<i64>,
    pub gold_per_minute: Number,
    pub had_open_nexus: Option<i64>,
    pub immobilize_and_kill_with_ally: Option<i64>,
    pub initial_buff_count: Option<i64>,
    pub initial_crab_count: Option<i64>,
    pub jungle_cs_before10minutes: Number,
    pub jungler_takedowns_near_damaged_epic_monster: Option<i64>,
    pub k_turrets_destroyed_before_plates_fall: Option<i64>,
    pub kda: Number,
    pub kill_after_hidden_with_ally: Option<i64>,
    pub kill_participation: Number,
    pub killed_champ_took_full_team_damage_survived: Option<i64>,
    pub killing_sprees: Option<i64>,
    pub kills_near_enemy_turret: Option<i64>,
    pub kills_on_other_lanes_early_jungle_as_laner: Option<i64>,
    pub kills_on_recently_healed_by_aram_pack: Option<i64>,
    pub kills_under_own_turret: Option<i64>,
    pub kills_with_help_from_epic_monster: Option<i64>,
    pub knock_enemy_into_team_and_kill: Option<i64>,
    pub land_skill_shots_early_game: Option<i64>,
    pub lane_minions_first10minutes: Option<i64>,
    pub laning_phase_gold_exp_advantage: Option<i64>,
    pub legendary_count: Option<i64>,
    pub legendary_item_used: Vec<i64>,
    pub lost_an_inhibitor: Option<i64>,
    pub max_cs_advantage_on_lane_opponent: Option<Number>,
    pub max_kill_deficit: Option<i64>,
    pub max_level_lead_lane_opponent: Option<i64>,
    pub mejais_full_stack_in_time: Option<i64>,
    pub more_enemy_jungle_than_opponent: Number,
    pub multi_kill_one_spell: Option<i64>,
    pub multi_turret_rift_herald_count: Option<i64>,
    pub multikills: Option<i64>,
    pub multikills_after_aggressive_flash: Option<i64>,
    pub outer_turret_executes_before10minutes: Option<i64>,
    pub outnumbered_kills: Option<i64>,
    pub outnumbered_nexus_kill: Option<i64>,
    pub perfect_dragon_souls_taken: Option<i64>,
    pub perfect_game: Option<i64>,
    pub pick_kill_with_ally: Option<i64>,
    pub played_champ_select_position: Option<i64>,
    pub poro_explosions: Option<i64>,
    pub quick_cleanse: Option<i64>,
    pub quick_first_turret: Option<i64>,
    pub quick_solo_kills: Option<i64>,
    pub rift_herald_takedowns: Option<i64>,
    pub save_ally_from_death: Option<i64>,
    pub scuttle_crab_kills: Option<i64>,
    pub skillshots_dodged: Option<i64>,
    pub skillshots_hit: Option<i64>,
    pub snowballs_hit: Option<i64>,
    pub solo_baron_kills: Option<i64>,
    pub solo_kills: Option<i64>,
    pub stealth_wards_placed: Option<i64>,
    pub survived_single_digit_hp_count: Option<i64>,
    pub survived_three_immobilizes_in_fight: Option<i64>,
    pub takedown_on_first_turret: Option<i64>,
    pub takedowns: Option<i64>,
    pub takedowns_after_gaining_level_advantage: Option<i64>,
    pub takedowns_before_jungle_minion_spawn: Option<i64>,
    pub takedowns_first_xminutes: Option<i64>,
    pub takedowns_in_alcove: Option<i64>,
    pub takedowns_in_enemy_fountain: Option<i64>,
    pub team_baron_kills: Option<i64>,
    pub team_damage_percentage: Number,
    pub team_elder_dragon_kills: Option<i64>,
    pub team_rift_herald_kills: Option<i64>,
    pub took_large_damage_survived: Option<i64>,
    pub turret_plates_taken: Option<i64>,
    pub turret_takedowns: Option<i64>,
    pub turrets_taken_with_rift_herald: Option<i64>,
    pub twenty_minions_in3seconds_count: Option<i64>,
    pub two_wards_one_sweeper_count: Option<i64>,
    pub unseen_recalls: Option<i64>,
    pub vision_score_advantage_lane_opponent: Number,
    pub vision_score_per_minute: Number,
    pub void_monster_kill: Option<i64>,
    pub ward_takedowns: Option<i64>,
    pub ward_takedowns_before20m: Option<i64>,
    pub wards_guarded: Option<i64>,
    pub earliest_dragon_takedown: Option<Number>,
    pub highest_crowd_control_score: Option<i64>,
    pub jungler_kills_early_jungle: Option<i64>,
    pub kills_on_laners_early_jungle_as_jungler: Option<i64>,
    pub teleport_takedowns: Option<i64>,
    pub baron_buff_gold_advantage_over_threshold: Option<i64>,
    pub earliest_baron: Option<Number>,
    pub earliest_elder_dragon: Option<Number>,
    pub first_turret_killed_time: Option<Number>,
    pub highest_champion_damage: Option<i64>,
    pub solo_turrets_lategame: Option<i64>,
    pub faster_support_quest_completion: Option<i64>,
    pub highest_ward_kills: Option<i64>,
}

/// The challenge counters of a participant, as plain data.
pub struct ChallengesView {
    pub n12assist_streak_count: Option<i64>,
    pub heal_from_map_sources: NumberView,
    pub infernal_scale_pickup: Option<i64>,
    pub swarm_defeat_aatrox: Option<i64>,
    pub swarm_defeat_briar: Option<i64>,
    pub swarm_defeat_mini_bosses: Option<i64>,
    pub swarm_evolve_weapon: Option<i64>,
    pub swarm_have3passives: Option<i64>,
    pub swarm_kill_enemy: Option<i64>,
    pub swarm_pickup_gold: Option<i64>,
    pub swarm_reach_level50: Option<i64>,
    pub swarm_survive15min: Option<i64>,
    pub swarm_win_with5evolved_weapons: Option<i64>,
    pub ability_uses: Option<i64>,
    pub aces_before15minutes: Option<i64>,
    pub allied_jungle_monster_kills: Option<i64>,
    pub baron_takedowns: Option<i64>,
    pub blast_cone_opposite_opponent_count: Option<i64>,
    pub bounty_gold: Option<NumberView>,
    pub buffs_stolen: Option<i64>,
    pub complete_support_quest_in_time: Option<i64>,
    pub control_ward_time_coverage_in_river_or_enemy_half: Option<NumberView>,
    pub control_wards_placed: Option<i64>,
    pub damage_per_minute: NumberView,
    pub damage_taken_on_team_percentage: NumberView,
    pub danced_with_rift_herald: Option<i64>,
    pub deaths_by_enemy_champs: Option<i64>,
    pub dodge_skill_shots_small_window: Option<i64>,
    pub double_aces: Option<i64>,
    pub dragon_takedowns: Option<i64>,
    pub early_laning_phase_gold_exp_advantage: Option<i64>,
    pub effective_heal_and_shielding: NumberView,
    pub elder_dragon_kills_with_opposing_soul: Option<i64>,
    pub elder_dragon_multikills: Option<i64>,
    pub enemy_champion_immobilizations: Option<i64>,
    pub enemy_jungle_monster_kills: Option<i64>,
    pub epic_monster_kills_near_enemy_jungler: Option<i64>,
    pub epic_monster_kills_within30seconds_of_spawn: Option<i64>,
    pub epic_monster_steals: Option<i64>,
    pub epic_monster_stolen_without_smite: Option<i64>,
    pub first_turret_killed: Option<i64>,
    pub fist_bump_participation: Option<i64>,
    pub flawless_aces: Option<i64>,
    pub full_team_takedown: Option<i64>,
    pub game_length: NumberView,
    pub get_takedowns_in_all_lanes_early_jungle_as_laner: Option<i64>,
    pub gold_per_minute: NumberView,
    pub had_open_nexus: Option<i64>,
    pub immobilize_and_kill_with_ally: Option<i64>,
    pub initial_buff_count: Option<i64>,
    pub initial_crab_count: Option<i64>,
    pub jungle_cs_before10minutes: NumberView,
    pub jungler_takedowns_near_damaged_epic_monster: Option<i64>,
    pub k_turrets_destroyed_before_plates_fall: Option<i64>,
    pub kda: NumberView,
    pub kill_after_hidden_with_ally: Option<i64>,
    pub kill_participation: NumberView,
    pub killed_champ_took_full_team_damage_survived: Option<i64>,
    pub killing_sprees: Option<i64>,
    pub kills_near_enemy_turret: Option<i64>,
    pub kills_on_other_lanes_early_jungle_as_laner: Option<i64>,
    pub kills_on_recently_healed_by_aram_pack: Option<i64>,
    pub kills_under_own_turret: Option<i64>,
    pub kills_with_help_from_epic_monster: Option<i64>,
    pub knock_enemy_into_team_and_kill: Option<i64>,
    pub land_skill_shots_early_game: Option<i64>,
    pub lane_minions_first10minutes: Option<i64>,
    pub laning_phase_gold_exp_advantage: Option<i64>,
    pub legendary_count: Option<i64>,
    pub legendary_item_used: Seq<i64>,
    pub lost_an_inhibitor: Option<i64>,
    pub max_cs_advantage_on_lane_opponent: Option<NumberView>,
    pub max_kill_deficit: Option<i64>,
    pub max_level_lead_lane_opponent: Option<i64>,
    pub mejais_full_stack_in_time: Option<i64>,
    pub more_enemy_jungle_than_opponent: NumberView,
    pub multi_kill_one_spell: Option<i64>,
    pub multi_turret_rift_herald_count: Option<i64>,
    pub multikills: Option<i64>,
    pub multikills_after_aggressive_flash: Option<i64>,
    pub outer_turret_executes_before10minutes: Option<i64>,
    pub outnumbered_kills: Option<i64>,
    pub outnumbered_nexus_kill: Option<i64>,
    pub perfect_dragon_souls_taken: Option<i64>,
    pub perfect_game: Option<i64>,
    pub pick_kill_with_ally: Option<i64>,
    pub played_champ_select_position: Option<i64>,
    pub poro_explosions: Option<i64>,
    pub quick_cleanse: Option<i64>,
    pub quick_first_turret: Option<i64>,
    pub quick_solo_kills: Option<i64>,
    pub rift_herald_takedowns: Option<i64>,
    pub save_ally_from_death: Option<i64>,
    pub scuttle_crab_kills: Option<i64>,
    pub skillshots_dodged: Option<i64>,
    pub skillshots_hit: Option<i64>,
    pub snowballs_hit: Option<i64>,
    pub solo_baron_kills: Option<i64>,
    pub solo_kills: Option<i64>,
    pub stealth_wards_placed: Option<i64>,
    pub survived_single_digit_hp_count: Option<i64>,
    pub survived_three_immobilizes_in_fight: Option<i64>,
    pub takedown_on_first_turret: Option<i64>,
    pub takedowns: Option<i64>,
    pub takedowns_after_gaining_level_advantage: Option<i64>,
    pub takedowns_before_jungle_minion_spawn: Option<i64>,
    pub takedowns_first_xminutes: Option<i64>,
    pub takedowns_in_alcove: Option<i64>,
    pub takedowns_in_enemy_fountain: Option<i64>,
    pub team_baron_kills: Option<i64>,
    pub team_damage_percentage: NumberView,
    pub team_elder_dragon_kills: Option<i64>,
    pub team_rift_herald_kills: Option<i64>,
    pub took_large_damage_survived: Option<i64>,
    pub turret_plates_taken: Option<i64>,
    pub turret_takedowns: Option<i64>,
    pub turrets_taken_with_rift_herald: Option<i64>,
    pub twenty_minions_in3seconds_count: Option<i64>,
    pub two_wards_one_sweeper_count: Option<i64>,
    pub unseen_recalls: Option<i64>,
    pub vision_score_advantage_lane_opponent: NumberView,
    pub vision_score_per_minute: NumberView,
    pub void_monster_kill: Option<i64>,
    pub ward_takedowns: Option<i64>,
    pub ward_takedowns_before20m: Option<i64>,
    pub wards_guarded: Option<i64>,
    pub earliest_dragon_takedown: Option<NumberView>,
    pub highest_crowd_control_score: Option<i64>,
    pub jungler_kills_early_jungle: Option<i64>,
    pub kills_on_laners_early_jungle_as_jungler: Option<i64>,
    pub teleport_takedowns: Option<i64>,
    pub baron_buff_gold_advantage_over_threshold: Option<i64>,
    pub earliest_baron: Option<NumberView>,
    pub earliest_elder_dragon: Option<NumberView>,
    pub first_turret_killed_time: Option<NumberView>,
    pub highest_champion_damage: Option<i64>,
    pub solo_turrets_lategame: Option<i64>,
    pub faster_support_quest_completion: Option<i64>,
    pub highest_ward_kills: Option<i64>,
}

impl DeepView for Challenges {
    type V = ChallengesView;

    open spec fn deep_view(&self) -> ChallengesView {
        ChallengesView {
            n12assist_streak_count: self.n12assist_streak_count.deep_view(),
            heal_from_map_sources: self.heal_from_map_sources.deep_view(),
            infernal_scale_pickup: self.infernal_scale_pickup.deep_view(),
            swarm_defeat_aatrox: self.swarm_defeat_aatrox.deep_view(),
            swarm_defeat_briar: self.swarm_defeat_briar.deep_view(),
            swarm_defeat_mini_bosses: self.swarm_defeat_mini_bosses.deep_view(),
            swarm_evolve_weapon: self.swarm_evolve_weapon.deep_view(),
            swarm_have3passives: self.swarm_have3passives.deep_view(),
            swarm_kill_enemy: self.swarm_kill_enemy.deep_view(),
            swarm_pickup_gold: self.swarm_pickup_gold.deep_view(),
            swarm_reach_level50: self.swarm_reach_level50.deep_view(),
            swarm_survive15min: self.swarm_survive15min.deep_view(),
            swarm_win_with5evolved_weapons: self.swarm_win_with5evolved_weapons.deep_view(),
            ability_uses: self.ability_uses.deep_view(),
            aces_before15minutes: self.aces_before15minutes.deep_view(),
            allied_jungle_monster_kills: self.allied_jungle_monster_kills.deep_view(),
            baron_takedowns: self.baron_takedowns.deep_view(),
            blast_cone_opposite_opponent_count: self.blast_cone_opposite_opponent_count.deep_view(),
            bounty_gold: self.bounty_gold.deep_view(),
            buffs_stolen: self.buffs_stolen.deep_view(),
            complete_support_quest_in_time: self.complete_support_quest_in_time.deep_view(),
            control_ward_time_coverage_in_river_or_enemy_half: self.control_ward_time_coverage_in_river_or_enemy_half.deep_view(),
            control_wards_placed: self.control_wards_placed.deep_view(),
            damage_per_minute: self.damage_per_minute.deep_view(),
            damage_taken_on_team_percentage: self.damage_taken_on_team_percentage.deep_view(),
            danced_with_rift_herald: self.danced_with_rift_herald.deep_view(),
            deaths_by_enemy_champs: self.deaths_by_enemy_champs.deep_view(),
            dodge_skill_shots_small_window: self.dodge_skill_shots_small_window.deep_view(),
            double_aces: self.double_aces.deep_view(),
            dragon_takedowns: self.dragon_takedowns.deep_view(),
            early_laning_phase_gold_exp_advantage: self.early_laning_phase_gold_exp_advantage.deep_view(),
            effective_heal_and_shielding: self.effective_heal_and_shielding.deep_view(),
            elder_dragon_kills_with_opposing_soul: self.elder_dragon_kills_with_opposing_soul.deep_view(),
            elder_dragon_multikills: self.elder_dragon_multikills.deep_view(),
            enemy_champion_immobilizations: self.enemy_champion_immobilizations.deep_view(),
            enemy_jungle_monster_kills: self.enemy_jungle_monster_kills.deep_view(),
            epic_monster_kills_near_enemy_jungler: self.epic_monster_kills_near_enemy_jungler.deep_view(),
            epic_monster_kills_within30seconds_of_spawn: self.epic_monster_kills_within30seconds_of_spawn.deep_view(),
            epic_monster_steals: self.epic_monster_steals.deep_view(),
            epic_monster_stolen_without_smite: self.epic_monster_stolen_without_smite.deep_view(),
            first_turret_killed: self.first_turret_killed.deep_view(),
            fist_bump_participation: self.fist_bump_participation.deep_view(),
            flawless_aces: self.flawless_aces.deep_view(),
            full_team_takedown: self.full_team_takedown.deep_view(),
            game_length: self.game_length.deep_view(),
            get_takedowns_in_all_lanes_early_jungle_as_laner: self.get_takedowns_in_all_lanes_early_jungle_as_laner.deep_view(),
            gold_per_minute: self.gold_per_minute.deep_view(),
            had_open_nexus: self.had_open_nexus.deep_view(),
            immobilize_and_kill_with_ally: self.immobilize_and_kill_with_ally.deep_view(),
            initial_buff_count: self.initial_buff_count.deep_view(),
            initial_crab_count: self.initial_crab_count.deep_view(),
            jungle_cs_before10minutes: self.jungle_cs_before10minutes.deep_view(),
            jungler_takedowns_near_damaged_epic_monster: self.jungler_takedowns_near_damaged_epic_monster.deep_view(),
            k_turrets_destroyed_before_plates_fall: self.k_turrets_destroyed_before_plates_fall.deep_view(),
            kda: self.kda.deep_view(),
            kill_after_hidden_with_ally: self.kill_after_hidden_with_ally.deep_view(),
            kill_participation: self.kill_participation.deep_view(),
            killed_champ_took_full_team_damage_survived: self.killed_champ_took_full_team_damage_survived.deep_view(),
            killing_sprees: self.killing_sprees.deep_view(),
            kills_near_enemy_turret: self.kills_near_enemy_turret.deep_view(),
            kills_on_other_lanes_early_jungle_as_laner: self.kills_on_other_lanes_early_jungle_as_laner.deep_view(),
            kills_on_recently_healed_by_aram_pack: self.kills_on_recently_healed_by_aram_pack.deep_view(),
            kills_under_own_turret: self.kills_under_own_turret.deep_view(),
            kills_with_help_from_epic_monster: self.kills_with_help_from_epic_monster.deep_view(),
            knock_enemy_into_team_and_kill: self.knock_enemy_into_team_and_kill.deep_view(),
            land_skill_shots_early_game: self.land_skill_shots_early_game.deep_view(),
            lane_minions_first10minutes: self.lane_minions_first10minutes.deep_view(),
            laning_phase_gold_exp_advantage: self.laning_phase_gold_exp_advantage.deep_view(),
            legendary_count: self.legendary_count.deep_view(),
            legendary_item_used: self.legendary_item_used.deep_view(),
            lost_an_inhibitor: self.lost_an_inhibitor.deep_view(),
            max_cs_advantage_on_lane_opponent: self.max_cs_advantage_on_lane_opponent.deep_view(),
            max_kill_deficit: self.max_kill_deficit.deep_view(),
            max_level_lead_lane_opponent: self.max_level_lead_lane_opponent.deep_view(),
            mejais_full_stack_in_time: self.mejais_full_stack_in_time.deep_view(),
            more_enemy_jungle_than_opponent: self.more_enemy_jungle_than_opponent.deep_view(),
            multi_kill_one_spell: self.multi_kill_one_spell.deep_view(),
            multi_turret_rift_herald_count: self.multi_turret_rift_herald_count.deep_view(),
            multikills: self.multikills.deep_view(),
            multikills_after_aggressive_flash: self.multikills_after_aggressive_flash.deep_view(),
            outer_turret_executes_before10minutes: self.outer_turret_executes_before10minutes.deep_view(),
            outnumbered_kills: self.outnumbered_kills.deep_view(),
            outnumbered_nexus_kill: self.outnumbered_nexus_kill.deep_view(),
            perfect_dragon_souls_taken: self.perfect_dragon_souls_taken.deep_view(),
            perfect_game: self.perfect_game.deep_view(),
            pick_kill_with_ally: self.pick_kill_with_ally.deep_view(),
            played_champ_select_position: self.played_champ_select_position.deep_view(),
            poro_explosions: self.poro_explosions.deep_view(),
            quick_cleanse: self.quick_cleanse.deep_view(),
            quick_first_turret: self.quick_first_turret.deep_view(),
            quick_solo_kills: self.quick_solo_kills.deep_view(),
            rift_herald_takedowns: self.rift_herald_takedowns.deep_view(),
            save_ally_from_death: self.save_ally_from_death.deep_view(),
            scuttle_crab_kills: self.scuttle_crab_kills.deep_view(),
            skillshots_dodged: self.skillshots_dodged.deep_view(),
            skillshots_hit: self.skillshots_hit.deep_view(),
            snowballs_hit: self.snowballs_hit.deep_view(),
            solo_baron_kills: self.solo_baron_kills.deep_view(),
            solo_kills: self.solo_kills.deep_view(),
            stealth_wards_placed: self.stealth_wards_placed.deep_view(),
            survived_single_digit_hp_count: self.survived_single_digit_hp_count.deep_view(),
            survived_three_immobilizes_in_fight: self.survived_three_immobilizes_in_fight.deep_view(),
            takedown_on_first_turret: self.takedown_on_first_turret.deep_view(),
            takedowns: self.takedowns.deep_view(),
            takedowns_after_gaining_level_advantage: self.takedowns_after_gaining_level_advantage.deep_view(),
            takedowns_before_jungle_minion_spawn: self.takedowns_before_jungle_minion_spawn.deep_view(),
            takedowns_first_xminutes: self.takedowns_first_xminutes.deep_view(),
            takedowns_in_alcove: self.takedowns_in_alcove.deep_view(),
            takedowns_in_enemy_fountain: self.takedowns_in_enemy_fountain.deep_view(),
            team_baron_kills: self.team_baron_kills.deep_view(),
            team_damage_percentage: self.team_damage_percentage.deep_view(),
            team_elder_dragon_kills: self.team_elder_dragon_kills.deep_view(),
            team_rift_herald_kills: self.team_rift_herald_kills.deep_view(),
            took_large_damage_survived: self.took_large_damage_survived.deep_view(),
            turret_plates_taken: self.turret_plates_taken.deep_view(),
            turret_takedowns: self.turret_takedowns.deep_view(),
            turrets_taken_with_rift_herald: self.turrets_taken_with_rift_herald.deep_view(),
            twenty_minions_in3seconds_count: self.twenty_minions_in3seconds_count.deep_view(),
            two_wards_one_sweeper_count: self.two_wards_one_sweeper_count.deep_view(),
            unseen_recalls: self.unseen_recalls.deep_view(),
            vision_score_advantage_lane_opponent: self.vision_score_advantage_lane_opponent.deep_view(),
            vision_score_per_minute: self.vision_score_per_minute.deep_view(),
            void_monster_kill: self.void_monster_kill.deep_view(),
            ward_takedowns: self.ward_takedowns.deep_view(),
            ward_takedowns_before20m: self.ward_takedowns_before20m.deep_view(),
            wards_guarded: self.wards_guarded.deep_view(),
            earliest_dragon_takedown: self.earliest_dragon_takedown.deep_view(),
            highest_crowd_control_score: self.highest_crowd_control_score.deep_view(),
            jungler_kills_early_jungle: self.jungler_kills_early_jungle.deep_view(),
            kills_on_laners_early_jungle_as_jungler: self.kills_on_laners_early_jungle_as_jungler.deep_view(),
            teleport_takedowns: self.teleport_takedowns.deep_view(),
            baron_buff_gold_advantage_over_threshold: self.baron_buff_gold_advantage_over_threshold.deep_view(),
            earliest_baron: self.earliest_baron.deep_view(),
            earliest_elder_dragon: self.earliest_elder_dragon.deep_view(),
            first_turret_killed_time: self.first_turret_killed_time.deep_view(),
            highest_champion_damage: self.highest_champion_damage.deep_view(),
            solo_turrets_lategame: self.solo_turrets_lategame.deep_view(),
            faster_support_quest_completion: self.faster_support_quest_completion.deep_view(),
            highest_ward_kills: self.highest_ward_kills.deep_view(),
        }
    }
}

impl Schema for Challenges {
    open spec fn decoded(json: JsonView) -> Result<ChallengesView, DecodeFailureView> {
        let n12assist_streak_count = optional::<i64>(json, "12AssistStreakCount"@);
        let heal_from_map_sources = required::<Number>(json, "HealFromMapSources"@);
        let infernal_scale_pickup = optional::<i64>(json, "InfernalScalePickup"@);
        let swarm_defeat_aatrox = optional::<i64>(json, "SWARM_DefeatAatrox"@);
        let swarm_defeat_briar = optional::<i64>(json, "SWARM_DefeatBriar"@);
        let swarm_defeat_mini_bosses = optional::<i64>(json, "SWARM_DefeatMiniBosses"@);
        let swarm_evolve_weapon = optional::<i64>(json, "SWARM_EvolveWeapon"@);
        let swarm_have3passives = optional::<i64>(json, "SWARM_Have3Passives"@);
        let swarm_kill_enemy = optional::<i64>(json, "SWARM_KillEnemy"@);
        let swarm_pickup_gold = optional::<i64>(json, "SWARM_PickupGold"@);
        let swarm_reach_level50 = optional::<i64>(json, "SWARM_ReachLevel50"@);
        let swarm_survive15min = optional::<i64>(json, "SWARM_Survive15Min"@);
        let swarm_win_with5evolved_weapons = optional::<i64>(json, "SWARM_WinWith5EvolvedWeapons"@);
        let ability_uses = optional::<i64>(json, "abilityUses"@);
        let aces_before15minutes = optional::<i64>(json, "acesBefore15Minutes"@);
        let allied_jungle_monster_kills = optional::<i64>(json, "alliedJungleMonsterKills"@);
        let baron_takedowns = optional::<i64>(json, "baronTakedowns"@);
        let blast_cone_opposite_opponent_count = optional::<i64>(
            json,
            "blastConeOppositeOpponentCount"@,
        );
        let bounty_gold = optional::<Number>(json, "bountyGold"@);
        let buffs_stolen = optional::<i64>(json, "buffsStolen"@);
        let complete_support_quest_in_time = optional::<i64>(json, "completeSupportQuestInTime"@);
        let control_ward_time_coverage_in_river_or_enemy_half = optional::<Number>(
            json,
            "controlWardTimeCoverageInRiverOrEnemyHalf"@,
        );
        let control_wards_placed = optional::<i64>(json, "controlWardsPlaced"@);
        let damage_per_minute = required::<Number>(json, "damagePerMinute"@);
        let damage_taken_on_team_percentage = required::<Number>(
            json,
            "damageTakenOnTeamPercentage"@,
        );
        let danced_with_rift_herald = optional::<i64>(json, "dancedWithRiftHerald"@);
        let deaths_by_enemy_champs = optional::<i64>(json, "deathsByEnemyChamps"@);
        let dodge_skill_shots_small_window = optional::<i64>(json, "dodgeSkillShotsSmallWindow"@);
        let double_aces = optional::<i64>(json, "doubleAces"@);
        let dragon_takedowns = optional::<i64>(json, "dragonTakedowns"@);
        let early_laning_phase_gold_exp_advantage = optional::<i64>(
            json,
            "earlyLaningPhaseGoldExpAdvantage"@,
        );
        let effective_heal_and_shielding = required::<Number>(json, "effectiveHealAndShielding"@);
        let elder_dragon_kills_with_opposing_soul = optional::<i64>(
            json,
            "elderDragonKillsWithOpposingSoul"@,
        );
        let elder_dragon_multikills = optional::<i64>(json, "elderDragonMultikills"@);
        let enemy_champion_immobilizations = optional::<i64>(json, "enemyChampionImmobilizations"@);
        let enemy_jungle_monster_kills = optional::<i64>(json, "enemyJungleMonsterKills"@);
        let epic_monster_kills_near_enemy_jungler = optional::<i64>(
            json,
            "epicMonsterKillsNearEnemyJungler"@,
        );
        let epic_monster_kills_within30seconds_of_spawn = optional::<i64>(
            json,
            "epicMonsterKillsWithin30SecondsOfSpawn"@,
        );
        let epic_monster_steals = optional::<i64>(json, "epicMonsterSteals"@);
        let epic_monster_stolen_without_smite = optional::<i64>(
            json,
            "epicMonsterStolenWithoutSmite"@,
        );
        let first_turret_killed = optional::<i64>(json, "firstTurretKilled"@);
        let fist_bump_participation = optional::<i64>(json, "fistBumpParticipation"@);
        let flawless_aces = optional::<i64>(json, "flawlessAces"@);
        let full_team_takedown = optional::<i64>(json, "fullTeamTakedown"@);
        let game_length = required::<Number>(json, "gameLength"@);
        let get_takedowns_in_all_lanes_early_jungle_as_laner = optional::<i64>(
            json,
            "getTakedownsInAllLanesEarlyJungleAsLaner"@,
        );
        let gold_per_minute = required::<Number>(json, "goldPerMinute"@);
        let had_open_nexus = optional::<i64>(json, "hadOpenNexus"@);
        let immobilize_and_kill_with_ally = optional::<i64>(json, "immobilizeAndKillWithAlly"@);
        let initial_buff_count = optional::<i64>(json, "initialBuffCount"@);
        let initial_crab_count = optional::<i64>(json, "initialCrabCount"@);
        let jungle_cs_before10minutes = required::<Number>(json, "jungleCsBefore10Minutes"@);
        let jungler_takedowns_near_damaged_epic_monster = optional::<i64>(
            json,
            "junglerTakedownsNearDamagedEpicMonster"@,
        );
        let k_turrets_destroyed_before_plates_fall = optional::<i64>(
            json,
            "kTurretsDestroyedBeforePlatesFall"@,
        );
        let kda = required::<Number>(json, "kda"@);
        let kill_after_hidden_with_ally = optional::<i64>(json, "killAfterHiddenWithAlly"@);
        let kill_participation = required::<Number>(json, "killParticipation"@);
        let killed_champ_took_full_team_damage_survived = optional::<i64>(
            json,
            "killedChampTookFullTeamDamageSurvived"@,
        );
        let killing_sprees = optional::<i64>(json, "killingSprees"@);
        let kills_near_enemy_turret = optional::<i64>(json, "killsNearEnemyTurret"@);
        let kills_on_other_lanes_early_jungle_as_laner = optional::<i64>(
            json,
            "killsOnOtherLanesEarlyJungleAsLaner"@,
        );
        let kills_on_recently_healed_by_aram_pack = optional::<i64>(
            json,
            "killsOnRecentlyHealedByAramPack"@,
        );
        let kills_under_own_turret = optional::<i64>(json, "killsUnderOwnTurret"@);
        let kills_with_help_from_epic_monster = optional::<i64>(
            json,
            "killsWithHelpFromEpicMonster"@,
        );
        let knock_enemy_into_team_and_kill = optional::<i64>(json, "knockEnemyIntoTeamAndKill"@);
        let land_skill_shots_early_game = optional::<i64>(json, "landSkillShotsEarlyGame"@);
        let lane_minions_first10minutes = optional::<i64>(json, "laneMinionsFirst10Minutes"@);
        let laning_phase_gold_exp_advantage = optional::<i64>(json, "laningPhaseGoldExpAdvantage"@);
        let legendary_count = optional::<i64>(json, "legendaryCount"@);
        let legendary_item_used = required::<Vec<i64>>(json, "legendaryItemUsed"@);
        let lost_an_inhibitor = optional::<i64>(json, "lostAnInhibitor"@);
        let max_cs_advantage_on_lane_opponent = optional::<Number>(
            json,
            "maxCsAdvantageOnLaneOpponent"@,
        );
        let max_kill_deficit = optional::<i64>(json, "maxKillDeficit"@);
        let max_level_lead_lane_opponent = optional::<i64>(json, "maxLevelLeadLaneOpponent"@);
        let mejais_full_stack_in_time = optional::<i64>(json, "mejaisFullStackInTime"@);
        let more_enemy_jungle_than_opponent = required::<Number>(
            json,
            "moreEnemyJungleThanOpponent"@,
        );
        let multi_kill_one_spell = optional::<i64>(json, "multiKillOneSpell"@);
        let multi_turret_rift_herald_count = optional::<i64>(json, "multiTurretRiftHeraldCount"@);
        let multikills = optional::<i64>(json, "multikills"@);
        let multikills_after_aggressive_flash = optional::<i64>(
            json,
            "multikillsAfterAggressiveFlash"@,
        );
        let outer_turret_executes_before10minutes = optional::<i64>(
            json,
            "outerTurretExecutesBefore10Minutes"@,
        );
        let outnumbered_kills = optional::<i64>(json, "outnumberedKills"@);
        let outnumbered_nexus_kill = optional::<i64>(json, "outnumberedNexusKill"@);
        let perfect_dragon_souls_taken = optional::<i64>(json, "perfectDragonSoulsTaken"@);
        let perfect_game = optional::<i64>(json, "perfectGame"@);
        let pick_kill_with_ally = optional::<i64>(json, "pickKillWithAlly"@);
        let played_champ_select_position = optional::<i64>(json, "playedChampSelectPosition"@);
        let poro_explosions = optional::<i64>(json, "poroExplosions"@);
        let quick_cleanse = optional::<i64>(json, "quickCleanse"@);
        let quick_first_turret = optional::<i64>(json, "quickFirstTurret"@);
        let quick_solo_kills = optional::<i64>(json, "quickSoloKills"@);
        let rift_herald_takedowns = optional::<i64>(json, "riftHeraldTakedowns"@);
        let save_ally_from_death = optional::<i64>(json, "saveAllyFromDeath"@);
        let scuttle_crab_kills = optional::<i64>(json, "scuttleCrabKills"@);
        let skillshots_dodged = optional::<i64>(json, "skillshotsDodged"@);
        let skillshots_hit = optional::<i64>(json, "skillshotsHit"@);
        let snowballs_hit = optional::<i64>(json, "snowballsHit"@);
        let solo_baron_kills = optional::<i64>(json, "soloBaronKills"@);
        let solo_kills = optional::<i64>(json, "soloKills"@);
        let stealth_wards_placed = optional::<i64>(json, "stealthWardsPlaced"@);
        let survived_single_digit_hp_count = optional::<i64>(json, "survivedSingleDigitHpCount"@);
        let survived_three_immobilizes_in_fight = optional::<i64>(
            json,
            "survivedThreeImmobilizesInFight"@,
        );
        let takedown_on_first_turret = optional::<i64>(json, "takedownOnFirstTurret"@);
        let takedowns = optional::<i64>(json, "takedowns"@);
        let takedowns_after_gaining_level_advantage = optional::<i64>(
            json,
            "takedownsAfterGainingLevelAdvantage"@,
        );
        let takedowns_before_jungle_minion_spawn = optional::<i64>(
            json,
            "takedownsBeforeJungleMinionSpawn"@,
        );
        let takedowns_first_xminutes = optional::<i64>(json, "takedownsFirstXMinutes"@);
        let takedowns_in_alcove = optional::<i64>(json, "takedownsInAlcove"@);
        let takedowns_in_enemy_fountain = optional::<i64>(json, "takedownsInEnemyFountain"@);
        let team_baron_kills = optional::<i64>(json, "teamBaronKills"@);
        let team_damage_percentage = required::<Number>(json, "teamDamagePercentage"@);
        let team_elder_dragon_kills = optional::<i64>(json, "teamElderDragonKills"@);
        let team_rift_herald_kills = optional::<i64>(json, "teamRiftHeraldKills"@);
        let took_large_damage_survived = optional::<i64>(json, "tookLargeDamageSurvived"@);
        let turret_plates_taken = optional::<i64>(json, "turretPlatesTaken"@);
        let turret_takedowns = optional::<i64>(json, "turretTakedowns"@);
        let turrets_taken_with_rift_herald = optional::<i64>(json, "turretsTakenWithRiftHerald"@);
        let twenty_minions_in3seconds_count = optional::<i64>(
            json,
            "twentyMinionsIn3SecondsCount"@,
        );
        let two_wards_one_sweeper_count = optional::<i64>(json, "twoWardsOneSweeperCount"@);
        let unseen_recalls = optional::<i64>(json, "unseenRecalls"@);
        let vision_score_advantage_lane_opponent = required::<Number>(
            json,
            "visionScoreAdvantageLaneOpponent"@,
        );
        let vision_score_per_minute = required::<Number>(json, "visionScorePerMinute"@);
        let void_monster_kill = optional::<i64>(json, "voidMonsterKill"@);
        let ward_takedowns = optional::<i64>(json, "wardTakedowns"@);
        let ward_takedowns_before20m = optional::<i64>(json, "wardTakedownsBefore20M"@);
        let wards_guarded = optional::<i64>(json, "wardsGuarded"@);
        let earliest_dragon_takedown = optional::<Number>(json, "earliestDragonTakedown"@);
        let highest_crowd_control_score = optional::<i64>(json, "highestCrowdControlScore"@);
        let jungler_kills_early_jungle = optional::<i64>(json, "junglerKillsEarlyJungle"@);
        let kills_on_laners_early_jungle_as_jungler = optional::<i64>(
            json,
            "killsOnLanersEarlyJungleAsJungler"@,
        );
        let teleport_takedowns = optional::<i64>(json, "teleportTakedowns"@);
        let baron_buff_gold_advantage_over_threshold = optional::<i64>(
            json,
            "baronBuffGoldAdvantageOverThreshold"@,
        );
        let earliest_baron = optional::<Number>(json, "earliestBaron"@);
        let earliest_elder_dragon = optional::<Number>(json, "earliestElderDragon"@);
        let first_turret_killed_time = optional::<Number>(json, "firstTurretKilledTime"@);
        let highest_champion_damage = optional::<i64>(json, "highestChampionDamage"@);
        let solo_turrets_lategame = optional::<i64>(json, "soloTurretsLategame"@);
        let faster_support_quest_completion = optional::<i64>(
            json,
            "fasterSupportQuestCompletion"@,
        );
        let highest_ward_kills = optional::<i64>(json, "highestWardKills"@);
        if n12assist_streak_count is Err {
            Err(n12assist_streak_count->Err_0)
        } else if heal_from_map_sources is Err {
            Err(heal_from_map_sources->Err_0)
        } else if infernal_scale_pickup is Err {
            Err(infernal_scale_pickup->Err_0)
        } else if swarm_defeat_aatrox is Err {
            Err(swarm_defeat_aatrox->Err_0)
        } else if swarm_defeat_briar is Err {
            Err(swarm_defeat_briar->Err_0)
        } else if swarm_defeat_mini_bosses is Err {
            Err(swarm_defeat_mini_bosses->Err_0)
        } else if swarm_evolve_weapon is Err {
            Err(swarm_evolve_weapon->Err_0)
        } else if swarm_have3passives is Err {
            Err(swarm_have3passives->Err_0)
        } else if swarm_kill_enemy is Err {
            Err(swarm_kill_enemy->Err_0)
        } else if swarm_pickup_gold is Err {
            Err(swarm_pickup_gold->Err_0)
        } else if swarm_reach_level50 is Err {
            Err(swarm_reach_level50->Err_0)
        } else if swarm_survive15min is Err {
            Err(swarm_survive15min->Err_0)
        } else if swarm_win_with5evolved_weapons is Err {
            Err(swarm_win_with5evolved_weapons->Err_0)
        } else if ability_uses is Err {
            Err(ability_uses->Err_0)
        } else if aces_before15minutes is Err {
            Err(aces_before15minutes->Err_0)
        } else if allied_jungle_monster_kills is Err {
            Err(allied_jungle_monster_kills->Err_0)
        } else if baron_takedowns is Err {
            Err(baron_takedowns->Err_0)
        } else if blast_cone_opposite_opponent_count is Err {
            Err(blast_cone_opposite_opponent_count->Err_0)
        } else if bounty_gold is Err {
            Err(bounty_gold->Err_0)
        } else if buffs_stolen is Err {
            Err(buffs_stolen->Err_0)
        } else if complete_support_quest_in_time is Err {
            Err(complete_support_quest_in_time->Err_0)
        } else if control_ward_time_coverage_in_river_or_enemy_half is Err {
            Err(control_ward_time_coverage_in_river_or_enemy_half->Err_0)
        } else if control_wards_placed is Err {
            Err(control_wards_placed->Err_0)
        } else if damage_per_minute is Err {
            Err(damage_per_minute->Err_0)
        } else if damage_taken_on_team_percentage is Err {
            Err(damage_taken_on_team_percentage->Err_0)
        } else if danced_with_rift_herald is Err {
            Err(danced_with_rift_herald->Err_0)
        } else if deaths_by_enemy_champs is Err {
            Err(deaths_by_enemy_champs->Err_0)
        } else if dodge_skill_shots_small_window is Err {
            Err(dodge_skill_shots_small_window->Err_0)
        } else if double_aces is Err {
            Err(double_aces->Err_0)
        } else if dragon_takedowns is Err {
            Err(dragon_takedowns->Err_0)
        } else if early_laning_phase_gold_exp_advantage is Err {
            Err(early_laning_phase_gold_exp_advantage->Err_0)
        } else if effective_heal_and_shielding is Err {
            Err(effective_heal_and_shielding->Err_0)
        } else if elder_dragon_kills_with_opposing_soul is Err {
            Err(elder_dragon_kills_with_opposing_soul->Err_0)
        } else if elder_dragon_multikills is Err {
            Err(elder_dragon_multikills->Err_0)
        } else if enemy_champion_immobilizations is Err {
            Err(enemy_champion_immobilizations->Err_0)
        } else if enemy_jungle_monster_kills is Err {
            Err(enemy_jungle_monster_kills->Err_0)
        } else if epic_monster_kills_near_enemy_jungler is Err {
            Err(epic_monster_kills_near_enemy_jungler->Err_0)
        } else if epic_monster_kills_within30seconds_of_spawn is Err {
            Err(epic_monster_kills_within30seconds_of_spawn->Err_0)
        } else if epic_monster_steals is Err {
            Err(epic_monster_steals->Err_0)
        } else if epic_monster_stolen_without_smite is Err {
            Err(epic_monster_stolen_without_smite->Err_0)
        } else if first_turret_killed is Err {
            Err(first_turret_killed->Err_0)
        } else if fist_bump_participation is Err {
            Err(fist_bump_participation->Err_0)
        } else if flawless_aces is Err {
            Err(flawless_aces->Err_0)
        } else if full_team_takedown is Err {
            Err(full_team_takedown->Err_0)
        } else if game_length is Err {
            Err(game_length->Err_0)
        } else if get_takedowns_in_all_lanes_early_jungle_as_laner is Err {
            Err(get_takedowns_in_all_lanes_early_jungle_as_laner->Err_0)
        } else if gold_per_minute is Err {
            Err(gold_per_minute->Err_0)
        } else if had_open_nexus is Err {
            Err(had_open_nexus->Err_0)
        } else if immobilize_and_kill_with_ally is Err {
            Err(immobilize_and_kill_with_ally->Err_0)
        } else if initial_buff_count is Err {
            Err(initial_buff_count->Err_0)
        } else if initial_crab_count is Err {
            Err(initial_crab_count->Err_0)
        } else if jungle_cs_before10minutes is Err {
            Err(jungle_cs_before10minutes->Err_0)
        } else if jungler_takedowns_near_damaged_epic_monster is Err {
            Err(jungler_takedowns_near_damaged_epic_monster->Err_0)
        } else if k_turrets_destroyed_before_plates_fall is Err {
            Err(k_turrets_destroyed_before_plates_fall->Err_0)
        } else if kda is Err {
            Err(kda->Err_0)
        } else if kill_after_hidden_with_ally is Err {
            Err(kill_after_hidden_with_ally->Err_0)
        } else if kill_participation is Err {
            Err(kill_participation->Err_0)
        } else if killed_champ_took_full_team_damage_survived is Err {
            Err(killed_champ_took_full_team_damage_survived->Err_0)
        } else if killing_sprees is Err {
            Err(killing_sprees->Err_0)
        } else if kills_near_enemy_turret is Err {
            Err(kills_near_enemy_turret->Err_0)
        } else if kills_on_other_lanes_early_jungle_as_laner is Err {
            Err(kills_on_other_lanes_early_jungle_as_laner->Err_0)
        } else if kills_on_recently_healed_by_aram_pack is Err {
            Err(kills_on_recently_healed_by_aram_pack->Err_0)
        } else if kills_under_own_turret is Err {
            Err(kills_under_own_turret->Err_0)
        } else if kills_with_help_from_epic_monster is Err {
            Err(kills_with_help_from_epic_monster->Err_0)
        } else if knock_enemy_into_team_and_kill is Err {
            Err(knock_enemy_into_team_and_kill->Err_0)
        } else if land_skill_shots_early_game is Err {
            Err(land_skill_shots_early_game->Err_0)
        } else if lane_minions_first10minutes is Err {
            Err(lane_minions_first10minutes->Err_0)
        } else if laning_phase_gold_exp_advantage is Err {
            Err(laning_phase_gold_exp_advantage->Err_0)
        } else if legendary_count is Err {
            Err(legendary_count->Err_0)
        } else if legendary_item_used is Err {
            Err(legendary_item_used->Err_0)
        } else if lost_an_inhibitor is Err {
            Err(lost_an_inhibitor->Err_0)
        } else if max_cs_advantage_on_lane_opponent is Err {
            Err(max_cs_advantage_on_lane_opponent->Err_0)
        } else if max_kill_deficit is Err {
            Err(max_kill_deficit->Err_0)
        } else if max_level_lead_lane_opponent is Err {
            Err(max_level_lead_lane_opponent->Err_0)
        } else if mejais_full_stack_in_time is Err {
            Err(mejais_full_stack_in_time->Err_0)
        } else if more_enemy_jungle_than_opponent is Err {
            Err(more_enemy_jungle_than_opponent->Err_0)
        } else if multi_kill_one_spell is Err {
            Err(multi_kill_one_spell->Err_0)
        } else if multi_turret_rift_herald_count is Err {
            Err(multi_turret_rift_herald_count->Err_0)
        } else if multikills is Err {
            Err(multikills->Err_0)
        } else if multikills_after_aggressive_flash is Err {
            Err(multikills_after_aggressive_flash->Err_0)
        } else if outer_turret_executes_before10minutes is Err {
            Err(outer_turret_executes_before10minutes->Err_0)
        } else if outnumbered_kills is Err {
            Err(outnumbered_kills->Err_0)
        } else if outnumbered_nexus_kill is Err {
            Err(outnumbered_nexus_kill->Err_0)
        } else if perfect_dragon_souls_taken is Err {
            Err(perfect_dragon_souls_taken->Err_0)
        } else if perfect_game is Err {
            Err(perfect_game->Err_0)
        } else if pick_kill_with_ally is Err {
            Err(pick_kill_with_ally->Err_0)
        } else if played_champ_select_position is Err {
            Err(played_champ_select_position->Err_0)
        } else if poro_explosions is Err {
            Err(poro_explosions->Err_0)
        } else if quick_cleanse is Err {
            Err(quick_cleanse->Err_0)
        } else if quick_first_turret is Err {
            Err(quick_first_turret->Err_0)
        } else if quick_solo_kills is Err {
            Err(quick_solo_kills->Err_0)
        } else if rift_herald_takedowns is Err {
            Err(rift_herald_takedowns->Err_0)
        } else if save_ally_from_death is Err {
            Err(save_ally_from_death->Err_0)
        } else if scuttle_crab_kills is Err {
            Err(scuttle_crab_kills->Err_0)
        } else if skillshots_dodged is Err {
            Err(skillshots_dodged->Err_0)
        } else if skillshots_hit is Err {
            Err(skillshots_hit->Err_0)
        } else if snowballs_hit is Err {
            Err(snowballs_hit->Err_0)
        } else if solo_baron_kills is Err {
            Err(solo_baron_kills->Err_0)
        } else if solo_kills is Err {
            Err(solo_kills->Err_0)
        } else if stealth_wards_placed is Err {
            Err(stealth_wards_placed->Err_0)
        } else if survived_single_digit_hp_count is Err {
            Err(survived_single_digit_hp_count->Err_0)
        } else if survived_three_immobilizes_in_fight is Err {
            Err(survived_three_immobilizes_in_fight->Err_0)
        } else if takedown_on_first_turret is Err {
            Err(takedown_on_first_turret->Err_0)
        } else if takedowns is Err {
            Err(takedowns->Err_0)
        } else if takedowns_after_gaining_level_advantage is Err {
            Err(takedowns_after_gaining_level_advantage->Err_0)
        } else if takedowns_before_jungle_minion_spawn is Err {
            Err(takedowns_before_jungle_minion_spawn->Err_0)
        } else if takedowns_first_xminutes is Err {
            Err(takedowns_first_xminutes->Err_0)
        } else if takedowns_in_alcove is Err {
            Err(takedowns_in_alcove->Err_0)
        } else if takedowns_in_enemy_fountain is Err {
            Err(takedowns_in_enemy_fountain->Err_0)
        } else if team_baron_kills is Err {
            Err(team_baron_kills->Err_0)
        } else if team_damage_percentage is Err {
            Err(team_damage_percentage->Err_0)
        } else if team_elder_dragon_kills is Err {
            Err(team_elder_dragon_kills->Err_0)
        } else if team_rift_herald_kills is Err {
            Err(team_rift_herald_kills->Err_0)
        } else if took_large_damage_survived is Err {
            Err(took_large_damage_survived->Err_0)
        } else if turret_plates_taken is Err {
            Err(turret_plates_taken->Err_0)
        } else if turret_takedowns is Err {
            Err(turret_takedowns->Err_0)
        } else if turrets_taken_with_rift_herald is Err {
            Err(turrets_taken_with_rift_herald->Err_0)
        } else if twenty_minions_in3seconds_count is Err {
            Err(twenty_minions_in3seconds_count->Err_0)
        } else if two_wards_one_sweeper_count is Err {
            Err(two_wards_one_sweeper_count->Err_0)
        } else if unseen_recalls is Err {
            Err(unseen_recalls->Err_0)
        } else if vision_score_advantage_lane_opponent is Err {
            Err(vision_score_advantage_lane_opponent->Err_0)
        } else if vision_score_per_minute is Err {
            Err(vision_score_per_minute->Err_0)
        } else if void_monster_kill is Err {
            Err(void_monster_kill->Err_0)
        } else if ward_takedowns is Err {
            Err(ward_takedowns->Err_0)
        } else if ward_takedowns_before20m is Err {
            Err(ward_takedowns_before20m->Err_0)
        } else if wards_guarded is Err {
            Err(wards_guarded->Err_0)
        } else if earliest_dragon_takedown is Err {
            Err(earliest_dragon_takedown->Err_0)
        } else if highest_crowd_control_score is Err {
            Err(highest_crowd_control_score->Err_0)
        } else if jungler_kills_early_jungle is Err {
            Err(jungler_kills_early_jungle->Err_0)
        } else if kills_on_laners_early_jungle_as_jungler is Err {
            Err(kills_on_laners_early_jungle_as_jungler->Err_0)
        } else if teleport_takedowns is Err {
            Err(teleport_takedowns->Err_0)
        } else if baron_buff_gold_advantage_over_threshold is Err {
            Err(baron_buff_gold_advantage_over_threshold->Err_0)
        } else if earliest_baron is Err {
            Err(earliest_baron->Err_0)
        } else if earliest_elder_dragon is Err {
            Err(earliest_elder_dragon->Err_0)
        } else if first_turret_killed_time is Err {
            Err(first_turret_killed_time->Err_0)
        } else if highest_champion_damage is Err {
            Err(highest_champion_damage->Err_0)
        } else if solo_turrets_lategame is Err {
            Err(solo_turrets_lategame->Err_0)
        } else if faster_support_quest_completion is Err {
            Err(faster_support_quest_completion->Err_0)
        } else if highest_ward_kills is Err {
            Err(highest_ward_kills->Err_0)
        } else {
            Ok(
                ChallengesView {
                    n12assist_streak_count: n12assist_streak_count->Ok_0,
                    heal_from_map_sources: heal_from_map_sources->Ok_0,
                    infernal_scale_pickup: infernal_scale_pickup->Ok_0,
                    swarm_defeat_aatrox: swarm_defeat_aatrox->Ok_0,
                    swarm_defeat_briar: swarm_defeat_briar->Ok_0,
                    swarm_defeat_mini_bosses: swarm_defeat_mini_bosses->Ok_0,
                    swarm_evolve_weapon: swarm_evolve_weapon->Ok_0,
                    swarm_have3passives: swarm_have3passives->Ok_0,
                    swarm_kill_enemy: swarm_kill_enemy->Ok_0,
                    swarm_pickup_gold: swarm_pickup_gold->Ok_0,
                    swarm_reach_level50: swarm_reach_level50->Ok_0,
                    swarm_survive15min: swarm_survive15min->Ok_0,
                    swarm_win_with5evolved_weapons: swarm_win_with5evolved_weapons->Ok_0,
                    ability_uses: ability_uses->Ok_0,
                    aces_before15minutes: aces_before15minutes->Ok_0,
                    allied_jungle_monster_kills: allied_jungle_monster_kills->Ok_0,
                    baron_takedowns: baron_takedowns->Ok_0,
                    blast_cone_opposite_opponent_count: blast_cone_opposite_opponent_count->Ok_0,
                    bounty_gold: bounty_gold->Ok_0,
                    buffs_stolen: buffs_stolen->Ok_0,
                    complete_support_quest_in_time: complete_support_quest_in_time->Ok_0,
                    control_ward_time_coverage_in_river_or_enemy_half: control_ward_time_coverage_in_river_or_enemy_half->Ok_0,
                    control_wards_placed: control_wards_placed->Ok_0,
                    damage_per_minute: damage_per_minute->Ok_0,
                    damage_taken_on_team_percentage: damage_taken_on_team_percentage->Ok_0,
                    danced_with_rift_herald: danced_with_rift_herald->Ok_0,
                    deaths_by_enemy_champs: deaths_by_enemy_champs->Ok_0,
                    dodge_skill_shots_small_window: dodge_skill_shots_small_window->Ok_0,
                    double_aces: double_aces->Ok_0,
                    dragon_takedowns: dragon_takedowns->Ok_0,
                    early_laning_phase_gold_exp_advantage: early_laning_phase_gold_exp_advantage->Ok_0,
                    effective_heal_and_shielding: effective_heal_and_shielding->Ok_0,
                    elder_dragon_kills_with_opposing_soul: elder_dragon_kills_with_opposing_soul->Ok_0,
                    elder_dragon_multikills: elder_dragon_multikills->Ok_0,
                    enemy_champion_immobilizations: enemy_champion_immobilizations->Ok_0,
                    enemy_jungle_monster_kills: enemy_jungle_monster_kills->Ok_0,
                    epic_monster_kills_near_enemy_jungler: epic_monster_kills_near_enemy_jungler->Ok_0,
                    epic_monster_kills_within30seconds_of_spawn: epic_monster_kills_within30seconds_of_spawn->Ok_0,
                    epic_monster_steals: epic_monster_steals->Ok_0,
                    epic_monster_stolen_without_smite: epic_monster_stolen_without_smite->Ok_0,
                    first_turret_killed: first_turret_killed->Ok_0,
                    fist_bump_participation: fist_bump_participation->Ok_0,
                    flawless_aces: flawless_aces->Ok_0,
                    full_team_takedown: full_team_takedown->Ok_0,
                    game_length: game_length->Ok_0,
                    get_takedowns_in_all_lanes_early_jungle_as_laner: get_takedowns_in_all_lanes_early_jungle_as_laner->Ok_0,
                    gold_per_minute: gold_per_minute->Ok_0,
                    had_open_nexus: had_open_nexus->Ok_0,
                    immobilize_and_kill_with_ally: immobilize_and_kill_with_ally->Ok_0,
                    initial_buff_count: initial_buff_count->Ok_0,
                    initial_crab_count: initial_crab_count->Ok_0,
                    jungle_cs_before10minutes: jungle_cs_before10minutes->Ok_0,
                    jungler_takedowns_near_damaged_epic_monster: jungler_takedowns_near_damaged_epic_monster->Ok_0,
                    k_turrets_destroyed_before_plates_fall: k_turrets_destroyed_before_plates_fall->Ok_0,
                    kda: kda->Ok_0,
                    kill_after_hidden_with_ally: kill_after_hidden_with_ally->Ok_0,
                    kill_participation: kill_participation->Ok_0,
                    killed_champ_took_full_team_damage_survived: killed_champ_took_full_team_damage_survived->Ok_0,
                    killing_sprees: killing_sprees->Ok_0,
                    kills_near_enemy_turret: kills_near_enemy_turret->Ok_0,
                    kills_on_other_lanes_early_jungle_as_laner: kills_on_other_lanes_early_jungle_as_laner->Ok_0,
                    kills_on_recently_healed_by_aram_pack: kills_on_recently_healed_by_aram_pack->Ok_0,
                    kills_under_own_turret: kills_under_own_turret->Ok_0,
                    kills_with_help_from_epic_monster: kills_with_help_from_epic_monster->Ok_0,
                    knock_enemy_into_team_and_kill: knock_enemy_into_team_and_kill->Ok_0,
                    land_skill_shots_early_game: land_skill_shots_early_game->Ok_0,
                    lane_minions_first10minutes: lane_minions_first10minutes->Ok_0,
                    laning_phase_gold_exp_advantage: laning_phase_gold_exp_advantage->Ok_0,
                    legendary_count: legendary_count->Ok_0,
                    legendary_item_used: legendary_item_used->Ok_0,
                    lost_an_inhibitor: lost_an_inhibitor->Ok_0,
                    max_cs_advantage_on_lane_opponent: max_cs_advantage_on_lane_opponent->Ok_0,
                    max_kill_deficit: max_kill_deficit->Ok_0,
                    max_level_lead_lane_opponent: max_level_lead_lane_opponent->Ok_0,
                    mejais_full_stack_in_time: mejais_full_stack_in_time->Ok_0,
                    more_enemy_jungle_than_opponent: more_enemy_jungle_than_opponent->Ok_0,
                    multi_kill_one_spell: multi_kill_one_spell->Ok_0,
                    multi_turret_rift_herald_count: multi_turret_rift_herald_count->Ok_0,
                    multikills: multikills->Ok_0,
                    multikills_after_aggressive_flash: multikills_after_aggressive_flash->Ok_0,
                    outer_turret_executes_before10minutes: outer_turret_executes_before10minutes->Ok_0,
                    outnumbered_kills: outnumbered_kills->Ok_0,
                    outnumbered_nexus_kill: outnumbered_nexus_kill->Ok_0,
                    perfect_dragon_souls_taken: perfect_dragon_souls_taken->Ok_0,
                    perfect_game: perfect_game->Ok_0,
                    pick_kill_with_ally: pick_kill_with_ally->Ok_0,
                    played_champ_select_position: played_champ_select_position->Ok_0,
                    poro_explosions: poro_explosions->Ok_0,
                    quick_cleanse: quick_cleanse->Ok_0,
                    quick_first_turret: quick_first_turret->Ok_0,
                    quick_solo_kills: quick_solo_kills->Ok_0,
                    rift_herald_takedowns: rift_herald_takedowns->Ok_0,
                    save_ally_from_death: save_ally_from_death->Ok_0,
                    scuttle_crab_kills: scuttle_crab_kills->Ok_0,
                    skillshots_dodged: skillshots_dodged->Ok_0,
                    skillshots_hit: skillshots_hit->Ok_0,
                    snowballs_hit: snowballs_hit->Ok_0,
                    solo_baron_kills: solo_baron_kills->Ok_0,
                    solo_kills: solo_kills->Ok_0,
                    stealth_wards_placed: stealth_wards_placed->Ok_0,
                    survived_single_digit_hp_count: survived_single_digit_hp_count->Ok_0,
                    survived_three_immobilizes_in_fight: survived_three_immobilizes_in_fight->Ok_0,
                    takedown_on_first_turret: takedown_on_first_turret->Ok_0,
                    takedowns: takedowns->Ok_0,
                    takedowns_after_gaining_level_advantage: takedowns_after_gaining_level_advantage->Ok_0,
                    takedowns_before_jungle_minion_spawn: takedowns_before_jungle_minion_spawn->Ok_0,
                    takedowns_first_xminutes: takedowns_first_xminutes->Ok_0,
                    takedowns_in_alcove: takedowns_in_alcove->Ok_0,
                    takedowns_in_enemy_fountain: takedowns_in_enemy_fountain->Ok_0,
                    team_baron_kills: team_baron_kills->Ok_0,
                    team_damage_percentage: team_damage_percentage->Ok_0,
                    team_elder_dragon_kills: team_elder_dragon_kills->Ok_0,
                    team_rift_herald_kills: team_rift_herald_kills->Ok_0,
                    took_large_damage_survived: took_large_damage_survived->Ok_0,
                    turret_plates_taken: turret_plates_taken->Ok_0,
                    turret_takedowns: turret_takedowns->Ok_0,
                    turrets_taken_with_rift_herald: turrets_taken_with_rift_herald->Ok_0,
                    twenty_minions_in3seconds_count: twenty_minions_in3seconds_count->Ok_0,
                    two_wards_one_sweeper_count: two_wards_one_sweeper_count->Ok_0,
                    unseen_recalls: unseen_recalls->Ok_0,
                    vision_score_advantage_lane_opponent: vision_score_advantage_lane_opponent->Ok_0,
                    vision_score_per_minute: vision_score_per_minute->Ok_0,
                    void_monster_kill: void_monster_kill->Ok_0,
                    ward_takedowns: ward_takedowns->Ok_0,
                    ward_takedowns_before20m: ward_takedowns_before20m->Ok_0,
                    wards_guarded: wards_guarded->Ok_0,
                    earliest_dragon_takedown: earliest_dragon_takedown->Ok_0,
                    highest_crowd_control_score: highest_crowd_control_score->Ok_0,
                    jungler_kills_early_jungle: jungler_kills_early_jungle->Ok_0,
                    kills_on_laners_early_jungle_as_jungler: kills_on_laners_early_jungle_as_jungler->Ok_0,
                    teleport_takedowns: teleport_takedowns->Ok_0,
                    baron_buff_gold_advantage_over_threshold: baron_buff_gold_advantage_over_threshold->Ok_0,
                    earliest_baron: earliest_baron->Ok_0,
                    earliest_elder_dragon: earliest_elder_dragon->Ok_0,
                    first_turret_killed_time: first_turret_killed_time->Ok_0,
                    highest_champion_damage: highest_champion_damage->Ok_0,
                    solo_turrets_lategame: solo_turrets_lategame->Ok_0,
                    faster_support_quest_completion: faster_support_quest_completion->Ok_0,
                    highest_ward_kills: highest_ward_kills->Ok_0,
                },
            )
        }
    }

    open spec fn encoded(value: ChallengesView) -> JsonView {
        JsonView::Object(
            Seq::empty()
                .push(("12AssistStreakCount"@, encoded_option::<i64>(value.n12assist_streak_count)))
                .push(("HealFromMapSources"@, <Number>::encoded(value.heal_from_map_sources)))
                .push(("InfernalScalePickup"@, encoded_option::<i64>(value.infernal_scale_pickup)))
                .push(("SWARM_DefeatAatrox"@, encoded_option::<i64>(value.swarm_defeat_aatrox)))
                .push(("SWARM_DefeatBriar"@, encoded_option::<i64>(value.swarm_defeat_briar)))
                .push(
                    (
                        "SWARM_DefeatMiniBosses"@,
                        encoded_option::<i64>(value.swarm_defeat_mini_bosses),
                    ),
                )
                .push(("SWARM_EvolveWeapon"@, encoded_option::<i64>(value.swarm_evolve_weapon)))
                .push(("SWARM_Have3Passives"@, encoded_option::<i64>(value.swarm_have3passives)))
                .push(("SWARM_KillEnemy"@, encoded_option::<i64>(value.swarm_kill_enemy)))
                .push(("SWARM_PickupGold"@, encoded_option::<i64>(value.swarm_pickup_gold)))
                .push(("SWARM_ReachLevel50"@, encoded_option::<i64>(value.swarm_reach_level50)))
                .push(("SWARM_Survive15Min"@, encoded_option::<i64>(value.swarm_survive15min)))
                .push(
                    (
                        "SWARM_WinWith5EvolvedWeapons"@,
                        encoded_option::<i64>(value.swarm_win_with5evolved_weapons),
                    ),
                )
                .push(("abilityUses"@, encoded_option::<i64>(value.ability_uses)))
                .push(("acesBefore15Minutes"@, encoded_option::<i64>(value.aces_before15minutes)))
                .push(
                    (
                        "alliedJungleMonsterKills"@,
                        encoded_option::<i64>(value.allied_jungle_monster_kills),
                    ),
                )
                .push(("baronTakedowns"@, encoded_option::<i64>(value.baron_takedowns)))
                .push(
                    (
                        "blastConeOppositeOpponentCount"@,
                        encoded_option::<i64>(value.blast_cone_opposite_opponent_count),
                    ),
                )
                .push(("bountyGold"@, encoded_option::<Number>(value.bounty_gold)))
                .push(("buffsStolen"@, encoded_option::<i64>(value.buffs_stolen)))
                .push(
                    (
                        "completeSupportQuestInTime"@,
                        encoded_option::<i64>(value.complete_support_quest_in_time),
                    ),
                )
                .push(
                    (
                        "controlWardTimeCoverageInRiverOrEnemyHalf"@,
                        encoded_option::<Number>(value.control_ward_time_coverage_in_river_or_enemy_half),
                    ),
                )
                .push(("controlWardsPlaced"@, encoded_option::<i64>(value.control_wards_placed)))
                .push(("damagePerMinute"@, <Number>::encoded(value.damage_per_minute)))
                .push(
                    (
                        "damageTakenOnTeamPercentage"@,
                        <Number>::encoded(value.damage_taken_on_team_percentage),
                    ),
                )
                .push(
                    (
                        "dancedWithRiftHerald"@,
                        encoded_option::<i64>(value.danced_with_rift_herald),
                    ),
                )
                .push(("deathsByEnemyChamps"@, encoded_option::<i64>(value.deaths_by_enemy_champs)))
                .push(
                    (
                        "dodgeSkillShotsSmallWindow"@,
                        encoded_option::<i64>(value.dodge_skill_shots_small_window),
                    ),
                )
                .push(("doubleAces"@, encoded_option::<i64>(value.double_aces)))
                .push(("dragonTakedowns"@, encoded_option::<i64>(value.dragon_takedowns)))
                .push(
                    (
                        "earlyLaningPhaseGoldExpAdvantage"@,
                        encoded_option::<i64>(value.early_laning_phase_gold_exp_advantage),
                    ),
                )
                .push(
                    (
                        "effectiveHealAndShielding"@,
                        <Number>::encoded(value.effective_heal_and_shielding),
                    ),
                )
                .push(
                    (
                        "elderDragonKillsWithOpposingSoul"@,
                        encoded_option::<i64>(value.elder_dragon_kills_with_opposing_soul),
                    ),
                )
                .push(
                    (
                        "elderDragonMultikills"@,
                        encoded_option::<i64>(value.elder_dragon_multikills),
                    ),
                )
                .push(
                    (
                        "enemyChampionImmobilizations"@,
                        encoded_option::<i64>(value.enemy_champion_immobilizations),
                    ),
                )
                .push(
                    (
                        "enemyJungleMonsterKills"@,
                        encoded_option::<i64>(value.enemy_jungle_monster_kills),
                    ),
                )
                .push(
                    (
                        "epicMonsterKillsNearEnemyJungler"@,
                        encoded_option::<i64>(value.epic_monster_kills_near_enemy_jungler),
                    ),
                )
                .push(
                    (
                        "epicMonsterKillsWithin30SecondsOfSpawn"@,
                        encoded_option::<i64>(value.epic_monster_kills_within30seconds_of_spawn),
                    ),
                )
                .push(("epicMonsterSteals"@, encoded_option::<i64>(value.epic_monster_steals)))
                .push(
                    (
                        "epicMonsterStolenWithoutSmite"@,
                        encoded_option::<i64>(value.epic_monster_stolen_without_smite),
                    ),
                )
                .push(("firstTurretKilled"@, encoded_option::<i64>(value.first_turret_killed)))
                .push(
                    (
                        "fistBumpParticipation"@,
                        encoded_option::<i64>(value.fist_bump_participation),
                    ),
                )
                .push(("flawlessAces"@, encoded_option::<i64>(value.flawless_aces)))
                .push(("fullTeamTakedown"@, encoded_option::<i64>(value.full_team_takedown)))
                .push(("gameLength"@, <Number>::encoded(value.game_length)))
                .push(
                    (
                        "getTakedownsInAllLanesEarlyJungleAsLaner"@,
                        encoded_option::<i64>(value.get_takedowns_in_all_lanes_early_jungle_as_laner),
                    ),
                )
                .push(("goldPerMinute"@, <Number>::encoded(value.gold_per_minute)))
                .push(("hadOpenNexus"@, encoded_option::<i64>(value.had_open_nexus)))
                .push(
                    (
                        "immobilizeAndKillWithAlly"@,
                        encoded_option::<i64>(value.immobilize_and_kill_with_ally),
                    ),
                )
                .push(("initialBuffCount"@, encoded_option::<i64>(value.initial_buff_count)))
                .push(("initialCrabCount"@, encoded_option::<i64>(value.initial_crab_count)))
                .push(
                    (
                        "jungleCsBefore10Minutes"@,
                        <Number>::encoded(value.jungle_cs_before10minutes),
                    ),
                )
                .push(
                    (
                        "junglerTakedownsNearDamagedEpicMonster"@,
                        encoded_option::<i64>(value.jungler_takedowns_near_damaged_epic_monster),
                    ),
                )
                .push(
                    (
                        "kTurretsDestroyedBeforePlatesFall"@,
                        encoded_option::<i64>(value.k_turrets_destroyed_before_plates_fall),
                    ),
                )
                .push(("kda"@, <Number>::encoded(value.kda)))
                .push(
                    (
                        "killAfterHiddenWithAlly"@,
                        encoded_option::<i64>(value.kill_after_hidden_with_ally),
                    ),
                )
                .push(("killParticipation"@, <Number>::encoded(value.kill_participation)))
                .push(
                    (
                        "killedChampTookFullTeamDamageSurvived"@,
                        encoded_option::<i64>(value.killed_champ_took_full_team_damage_survived),
                    ),
                )
                .push(("killingSprees"@, encoded_option::<i64>(value.killing_sprees)))
                .push(
                    (
                        "killsNearEnemyTurret"@,
                        encoded_option::<i64>(value.kills_near_enemy_turret),
                    ),
                )
                .push(
                    (
                        "killsOnOtherLanesEarlyJungleAsLaner"@,
                        encoded_option::<i64>(value.kills_on_other_lanes_early_jungle_as_laner),
                    ),
                )
                .push(
                    (
                        "killsOnRecentlyHealedByAramPack"@,
                        encoded_option::<i64>(value.kills_on_recently_healed_by_aram_pack),
                    ),
                )
                .push(("killsUnderOwnTurret"@, encoded_option::<i64>(value.kills_under_own_turret)))
                .push(
                    (
                        "killsWithHelpFromEpicMonster"@,
                        encoded_option::<i64>(value.kills_with_help_from_epic_monster),
                    ),
                )
                .push(
                    (
                        "knockEnemyIntoTeamAndKill"@,
                        encoded_option::<i64>(value.knock_enemy_into_team_and_kill),
                    ),
                )
                .push(
                    (
                        "landSkillShotsEarlyGame"@,
                        encoded_option::<i64>(value.land_skill_shots_early_game),
                    ),
                )
                .push(
                    (
                        "laneMinionsFirst10Minutes"@,
                        encoded_option::<i64>(value.lane_minions_first10minutes),
                    ),
                )
                .push(
                    (
                        "laningPhaseGoldExpAdvantage"@,
                        encoded_option::<i64>(value.laning_phase_gold_exp_advantage),
                    ),
                )
                .push(("legendaryCount"@, encoded_option::<i64>(value.legendary_count)))
                .push(("legendaryItemUsed"@, <Vec<i64>>::encoded(value.legendary_item_used)))
                .push(("lostAnInhibitor"@, encoded_option::<i64>(value.lost_an_inhibitor)))
                .push(
                    (
                        "maxCsAdvantageOnLaneOpponent"@,
                        encoded_option::<Number>(value.max_cs_advantage_on_lane_opponent),
                    ),
                )
                .push(("maxKillDeficit"@, encoded_option::<i64>(value.max_kill_deficit)))
                .push(
                    (
                        "maxLevelLeadLaneOpponent"@,
                        encoded_option::<i64>(value.max_level_lead_lane_opponent),
                    ),
                )
                .push(
                    (
                        "mejaisFullStackInTime"@,
                        encoded_option::<i64>(value.mejais_full_stack_in_time),
                    ),
                )
                .push(
                    (
                        "moreEnemyJungleThanOpponent"@,
                        <Number>::encoded(value.more_enemy_jungle_than_opponent),
                    ),
                )
                .push(("multiKillOneSpell"@, encoded_option::<i64>(value.multi_kill_one_spell)))
                .push(
                    (
                        "multiTurretRiftHeraldCount"@,
                        encoded_option::<i64>(value.multi_turret_rift_herald_count),
                    ),
                )
                .push(("multikills"@, encoded_option::<i64>(value.multikills)))
                .push(
                    (
                        "multikillsAfterAggressiveFlash"@,
                        encoded_option::<i64>(value.multikills_after_aggressive_flash),
                    ),
                )
                .push(
                    (
                        "outerTurretExecutesBefore10Minutes"@,
                        encoded_option::<i64>(value.outer_turret_executes_before10minutes),
                    ),
                )
                .push(("outnumberedKills"@, encoded_option::<i64>(value.outnumbered_kills)))
                .push(
                    (
                        "outnumberedNexusKill"@,
                        encoded_option::<i64>(value.outnumbered_nexus_kill),
                    ),
                )
                .push(
                    (
                        "perfectDragonSoulsTaken"@,
                        encoded_option::<i64>(value.perfect_dragon_souls_taken),
                    ),
                )
                .push(("perfectGame"@, encoded_option::<i64>(value.perfect_game)))
                .push(("pickKillWithAlly"@, encoded_option::<i64>(value.pick_kill_with_ally)))
                .push(
                    (
                        "playedChampSelectPosition"@,
                        encoded_option::<i64>(value.played_champ_select_position),
                    ),
                )
                .push(("poroExplosions"@, encoded_option::<i64>(value.poro_explosions)))
                .push(("quickCleanse"@, encoded_option::<i64>(value.quick_cleanse)))
                .push(("quickFirstTurret"@, encoded_option::<i64>(value.quick_first_turret)))
                .push(("quickSoloKills"@, encoded_option::<i64>(value.quick_solo_kills)))
                .push(("riftHeraldTakedowns"@, encoded_option::<i64>(value.rift_herald_takedowns)))
                .push(("saveAllyFromDeath"@, encoded_option::<i64>(value.save_ally_from_death)))
                .push(("scuttleCrabKills"@, encoded_option::<i64>(value.scuttle_crab_kills)))
                .push(("skillshotsDodged"@, encoded_option::<i64>(value.skillshots_dodged)))
                .push(("skillshotsHit"@, encoded_option::<i64>(value.skillshots_hit)))
                .push(("snowballsHit"@, encoded_option::<i64>(value.snowballs_hit)))
                .push(("soloBaronKills"@, encoded_option::<i64>(value.solo_baron_kills)))
                .push(("soloKills"@, encoded_option::<i64>(value.solo_kills)))
                .push(("stealthWardsPlaced"@, encoded_option::<i64>(value.stealth_wards_placed)))
                .push(
                    (
                        "survivedSingleDigitHpCount"@,
                        encoded_option::<i64>(value.survived_single_digit_hp_count),
                    ),
                )
                .push(
                    (
                        "survivedThreeImmobilizesInFight"@,
                        encoded_option::<i64>(value.survived_three_immobilizes_in_fight),
                    ),
                )
                .push(
                    (
                        "takedownOnFirstTurret"@,
                        encoded_option::<i64>(value.takedown_on_first_turret),
                    ),
                )
                .push(("takedowns"@, encoded_option::<i64>(value.takedowns)))
                .push(
                    (
                        "takedownsAfterGainingLevelAdvantage"@,
                        encoded_option::<i64>(value.takedowns_after_gaining_level_advantage),
                    ),
                )
                .push(
                    (
                        "takedownsBeforeJungleMinionSpawn"@,
                        encoded_option::<i64>(value.takedowns_before_jungle_minion_spawn),
                    ),
                )
                .push(
                    (
                        "takedownsFirstXMinutes"@,
                        encoded_option::<i64>(value.takedowns_first_xminutes),
                    ),
                )
                .push(("takedownsInAlcove"@, encoded_option::<i64>(value.takedowns_in_alcove)))
                .push(
                    (
                        "takedownsInEnemyFountain"@,
                        encoded_option::<i64>(value.takedowns_in_enemy_fountain),
                    ),
                )
                .push(("teamBaronKills"@, encoded_option::<i64>(value.team_baron_kills)))
                .push(("teamDamagePercentage"@, <Number>::encoded(value.team_damage_percentage)))
                .push(
                    (
                        "teamElderDragonKills"@,
                        encoded_option::<i64>(value.team_elder_dragon_kills),
                    ),
                )
                .push(("teamRiftHeraldKills"@, encoded_option::<i64>(value.team_rift_herald_kills)))
                .push(
                    (
                        "tookLargeDamageSurvived"@,
                        encoded_option::<i64>(value.took_large_damage_survived),
                    ),
                )
                .push(("turretPlatesTaken"@, encoded_option::<i64>(value.turret_plates_taken)))
                .push(("turretTakedowns"@, encoded_option::<i64>(value.turret_takedowns)))
                .push(
                    (
                        "turretsTakenWithRiftHerald"@,
                        encoded_option::<i64>(value.turrets_taken_with_rift_herald),
                    ),
                )
                .push(
                    (
                        "twentyMinionsIn3SecondsCount"@,
                        encoded_option::<i64>(value.twenty_minions_in3seconds_count),
                    ),
                )
                .push(
                    (
                        "twoWardsOneSweeperCount"@,
                        encoded_option::<i64>(value.two_wards_one_sweeper_count),
                    ),
                )
                .push(("unseenRecalls"@, encoded_option::<i64>(value.unseen_recalls)))
                .push(
                    (
                        "visionScoreAdvantageLaneOpponent"@,
                        <Number>::encoded(value.vision_score_advantage_lane_opponent),
                    ),
                )
                .push(("visionScorePerMinute"@, <Number>::encoded(value.vision_score_per_minute)))
                .push(("voidMonsterKill"@, encoded_option::<i64>(value.void_monster_kill)))
                .push(("wardTakedowns"@, encoded_option::<i64>(value.ward_takedowns)))
                .push(
                    (
                        "wardTakedownsBefore20M"@,
                        encoded_option::<i64>(value.ward_takedowns_before20m),
                    ),
                )
                .push(("wardsGuarded"@, encoded_option::<i64>(value.wards_guarded)))
                .push(
                    (
                        "earliestDragonTakedown"@,
                        encoded_option::<Number>(value.earliest_dragon_takedown),
                    ),
                )
                .push(
                    (
                        "highestCrowdControlScore"@,
                        encoded_option::<i64>(value.highest_crowd_control_score),
                    ),
                )
                .push(
                    (
                        "junglerKillsEarlyJungle"@,
                        encoded_option::<i64>(value.jungler_kills_early_jungle),
                    ),
                )
                .push(
                    (
                        "killsOnLanersEarlyJungleAsJungler"@,
                        encoded_option::<i64>(value.kills_on_laners_early_jungle_as_jungler),
                    ),
                )
                .push(("teleportTakedowns"@, encoded_option::<i64>(value.teleport_takedowns)))
                .push(
                    (
                        "baronBuffGoldAdvantageOverThreshold"@,
                        encoded_option::<i64>(value.baron_buff_gold_advantage_over_threshold),
                    ),
                )
                .push(("earliestBaron"@, encoded_option::<Number>(value.earliest_baron)))
                .push(
                    (
                        "earliestElderDragon"@,
                        encoded_option::<Number>(value.earliest_elder_dragon),
                    ),
                )
                .push(
                    (
                        "firstTurretKilledTime"@,
                        encoded_option::<Number>(value.first_turret_killed_time),
                    ),
                )
                .push(
                    (
                        "highestChampionDamage"@,
                        encoded_option::<i64>(value.highest_champion_damage),
                    ),
                )
                .push(("soloTurretsLategame"@, encoded_option::<i64>(value.solo_turrets_lategame)))
                .push(
                    (
                        "fasterSupportQuestCompletion"@,
                        encoded_option::<i64>(value.faster_support_quest_completion),
                    ),
                )
                .push(("highestWardKills"@, encoded_option::<i64>(value.highest_ward_kills))),
        )
    }

    fn decode(json: &Json) -> (outcome: Result<Self, DecodeFailure>) {
        let n12assist_streak_count = read_optional::<i64>(json, "12AssistStreakCount")?;
        let heal_from_map_sources = read_required::<Number>(json, "HealFromMapSources")?;
        let infernal_scale_pickup = read_optional::<i64>(json, "InfernalScalePickup")?;
        let swarm_defeat_aatrox = read_optional::<i64>(json, "SWARM_DefeatAatrox")?;
        let swarm_defeat_briar = read_optional::<i64>(json, "SWARM_DefeatBriar")?;
        let swarm_defeat_mini_bosses = read_optional::<i64>(json, "SWARM_DefeatMiniBosses")?;
        let swarm_evolve_weapon = read_optional::<i64>(json, "SWARM_EvolveWeapon")?;
        let swarm_have3passives = read_optional::<i64>(json, "SWARM_Have3Passives")?;
        let swarm_kill_enemy = read_optional::<i64>(json, "SWARM_KillEnemy")?;
        let swarm_pickup_gold = read_optional::<i64>(json, "SWARM_PickupGold")?;
        let swarm_reach_level50 = read_optional::<i64>(json, "SWARM_ReachLevel50")?;
        let swarm_survive15min = read_optional::<i64>(json, "SWARM_Survive15Min")?;
        let swarm_win_with5evolved_weapons = read_optional::<i64>(
            json,
            "SWARM_WinWith5EvolvedWeapons",
        )?;
        let ability_uses = read_optional::<i64>(json, "abilityUses")?;
        let aces_before15minutes = read_optional::<i64>(json, "acesBefore15Minutes")?;
        let allied_jungle_monster_kills = read_optional::<i64>(json, "alliedJungleMonsterKills")?;
        let baron_takedowns = read_optional::<i64>(json, "baronTakedowns")?;
        let blast_cone_opposite_opponent_count = read_optional::<i64>(
            json,
            "blastConeOppositeOpponentCount",
        )?;
        let bounty_gold = read_optional::<Number>(json, "bountyGold")?;
        let buffs_stolen = read_optional::<i64>(json, "buffsStolen")?;
        let complete_support_quest_in_time = read_optional::<i64>(
            json,
            "completeSupportQuestInTime",
        )?;
        let control_ward_time_coverage_in_river_or_enemy_half = read_optional::<Number>(
            json,
            "controlWardTimeCoverageInRiverOrEnemyHalf",
        )?;
        let control_wards_placed = read_optional::<i64>(json, "controlWardsPlaced")?;
        let damage_per_minute = read_required::<Number>(json, "damagePerMinute")?;
        let damage_taken_on_team_percentage = read_required::<Number>(
            json,
            "damageTakenOnTeamPercentage",
        )?;
        let danced_with_rift_herald = read_optional::<i64>(json, "dancedWithRiftHerald")?;
        let deaths_by_enemy_champs = read_optional::<i64>(json, "deathsByEnemyChamps")?;
        let dodge_skill_shots_small_window = read_optional::<i64>(
            json,
            "dodgeSkillShotsSmallWindow",
        )?;
        let double_aces = read_optional::<i64>(json, "doubleAces")?;
        let dragon_takedowns = read_optional::<i64>(json, "dragonTakedowns")?;
        let early_laning_phase_gold_exp_advantage = read_optional::<i64>(
            json,
            "earlyLaningPhaseGoldExpAdvantage",
        )?;
        let effective_heal_and_shielding = read_required::<Number>(
            json,
            "effectiveHealAndShielding",
        )?;
        let elder_dragon_kills_with_opposing_soul = read_optional::<i64>(
            json,
            "elderDragonKillsWithOpposingSoul",
        )?;
        let elder_dragon_multikills = read_optional::<i64>(json, "elderDragonMultikills")?;
        let enemy_champion_immobilizations = read_optional::<i64>(
            json,
            "enemyChampionImmobilizations",
        )?;
        let enemy_jungle_monster_kills = read_optional::<i64>(json, "enemyJungleMonsterKills")?;
        let epic_monster_kills_near_enemy_jungler = read_optional::<i64>(
            json,
            "epicMonsterKillsNearEnemyJungler",
        )?;
        let epic_monster_kills_within30seconds_of_spawn = read_optional::<i64>(
            json,
            "epicMonsterKillsWithin30SecondsOfSpawn",
        )?;
        let epic_monster_steals = read_optional::<i64>(json, "epicMonsterSteals")?;
        let epic_monster_stolen_without_smite = read_optional::<i64>(
            json,
            "epicMonsterStolenWithoutSmite",
        )?;
        let first_turret_killed = read_optional::<i64>(json, "firstTurretKilled")?;
        let fist_bump_participation = read_optional::<i64>(json, "fistBumpParticipation")?;
        let flawless_aces = read_optional::<i64>(json, "flawlessAces")?;
        let full_team_takedown = read_optional::<i64>(json, "fullTeamTakedown")?;
        let game_length = read_required::<Number>(json, "gameLength")?;
        let get_takedowns_in_all_lanes_early_jungle_as_laner = read_optional::<i64>(
            json,
            "getTakedownsInAllLanesEarlyJungleAsLaner",
        )?;
        let gold_per_minute = read_required::<Number>(json, "goldPerMinute")?;
        let had_open_nexus = read_optional::<i64>(json, "hadOpenNexus")?;
        let immobilize_and_kill_with_ally = read_optional::<i64>(
            json,
            "immobilizeAndKillWithAlly",
        )?;
        let initial_buff_count = read_optional::<i64>(json, "initialBuffCount")?;
        let initial_crab_count = read_optional::<i64>(json, "initialCrabCount")?;
        let jungle_cs_before10minutes = read_required::<Number>(json, "jungleCsBefore10Minutes")?;
        let jungler_takedowns_near_damaged_epic_monster = read_optional::<i64>(
            json,
            "junglerTakedownsNearDamagedEpicMonster",
        )?;
        let k_turrets_destroyed_before_plates_fall = read_optional::<i64>(
            json,
            "kTurretsDestroyedBeforePlatesFall",
        )?;
        let kda = read_required::<Number>(json, "kda")?;
        let kill_after_hidden_with_ally = read_optional::<i64>(json, "killAfterHiddenWithAlly")?;
        let kill_participation = read_required::<Number>(json, "killParticipation")?;
        let killed_champ_took_full_team_damage_survived = read_optional::<i64>(
            json,
            "killedChampTookFullTeamDamageSurvived",
        )?;
        let killing_sprees = read_optional::<i64>(json, "killingSprees")?;
        let kills_near_enemy_turret = read_optional::<i64>(json, "killsNearEnemyTurret")?;
        let kills_on_other_lanes_early_jungle_as_laner = read_optional::<i64>(
            json,
            "killsOnOtherLanesEarlyJungleAsLaner",
        )?;
        let kills_on_recently_healed_by_aram_pack = read_optional::<i64>(
            json,
            "killsOnRecentlyHealedByAramPack",
        )?;
        let kills_under_own_turret = read_optional::<i64>(json, "killsUnderOwnTurret")?;
        let kills_with_help_from_epic_monster = read_optional::<i64>(
            json,
            "killsWithHelpFromEpicMonster",
        )?;
        let knock_enemy_into_team_and_kill = read_optional::<i64>(
            json,
            "knockEnemyIntoTeamAndKill",
        )?;
        let land_skill_shots_early_game = read_optional::<i64>(json, "landSkillShotsEarlyGame")?;
        let lane_minions_first10minutes = read_optional::<i64>(json, "laneMinionsFirst10Minutes")?;
        let laning_phase_gold_exp_advantage = read_optional::<i64>(
            json,
            "laningPhaseGoldExpAdvantage",
        )?;
        let legendary_count = read_optional::<i64>(json, "legendaryCount")?;
        let legendary_item_used = read_required::<Vec<i64>>(json, "legendaryItemUsed")?;
        let lost_an_inhibitor = read_optional::<i64>(json, "lostAnInhibitor")?;
        let max_cs_advantage_on_lane_opponent = read_optional::<Number>(
            json,
            "maxCsAdvantageOnLaneOpponent",
        )?;
        let max_kill_deficit = read_optional::<i64>(json, "maxKillDeficit")?;
        let max_level_lead_lane_opponent = read_optional::<i64>(json, "maxLevelLeadLaneOpponent")?;
        let mejais_full_stack_in_time = read_optional::<i64>(json, "mejaisFullStackInTime")?;
        let more_enemy_jungle_than_opponent = read_required::<Number>(
            json,
            "moreEnemyJungleThanOpponent",
        )?;
        let multi_kill_one_spell = read_optional::<i64>(json, "multiKillOneSpell")?;
        let multi_turret_rift_herald_count = read_optional::<i64>(
            json,
            "multiTurretRiftHeraldCount",
        )?;
        let multikills = read_optional::<i64>(json, "multikills")?;
        let multikills_after_aggressive_flash = read_optional::<i64>(
            json,
            "multikillsAfterAggressiveFlash",
        )?;
        let outer_turret_executes_before10minutes = read_optional::<i64>(
            json,
            "outerTurretExecutesBefore10Minutes",
        )?;
        let outnumbered_kills = read_optional::<i64>(json, "outnumberedKills")?;
        let outnumbered_nexus_kill = read_optional::<i64>(json, "outnumberedNexusKill")?;
        let perfect_dragon_souls_taken = read_optional::<i64>(json, "perfectDragonSoulsTaken")?;
        let perfect_game = read_optional::<i64>(json, "perfectGame")?;
        let pick_kill_with_ally = read_optional::<i64>(json, "pickKillWithAlly")?;
        let played_champ_select_position = read_optional::<i64>(json, "playedChampSelectPosition")?;
        let poro_explosions = read_optional::<i64>(json, "poroExplosions")?;
        let quick_cleanse = read_optional::<i64>(json, "quickCleanse")?;
        let quick_first_turret = read_optional::<i64>(json, "quickFirstTurret")?;
        let quick_solo_kills = read_optional::<i64>(json, "quickSoloKills")?;
        let rift_herald_takedowns = read_optional::<i64>(json, "riftHeraldTakedowns")?;
        let save_ally_from_death = read_optional::<i64>(json, "saveAllyFromDeath")?;
        let scuttle_crab_kills = read_optional::<i64>(json, "scuttleCrabKills")?;
        let skillshots_dodged = read_optional::<i64>(json, "skillshotsDodged")?;
        let skillshots_hit = read_optional::<i64>(json, "skillshotsHit")?;
        let snowballs_hit = read_optional::<i64>(json, "snowballsHit")?;
        let solo_baron_kills = read_optional::<i64>(json, "soloBaronKills")?;
        let solo_kills = read_optional::<i64>(json, "soloKills")?;
        let stealth_wards_placed = read_optional::<i64>(json, "stealthWardsPlaced")?;
        let survived_single_digit_hp_count = read_optional::<i64>(
            json,
            "survivedSingleDigitHpCount",
        )?;
        let survived_three_immobilizes_in_fight = read_optional::<i64>(
            json,
            "survivedThreeImmobilizesInFight",
        )?;
        let takedown_on_first_turret = read_optional::<i64>(json, "takedownOnFirstTurret")?;
        let takedowns = read_optional::<i64>(json, "takedowns")?;
        let takedowns_after_gaining_level_advantage = read_optional::<i64>(
            json,
            "takedownsAfterGainingLevelAdvantage",
        )?;
        let takedowns_before_jungle_minion_spawn = read_optional::<i64>(
            json,
            "takedownsBeforeJungleMinionSpawn",
        )?;
        let takedowns_first_xminutes = read_optional::<i64>(json, "takedownsFirstXMinutes")?;
        let takedowns_in_alcove = read_optional::<i64>(json, "takedownsInAlcove")?;
        let takedowns_in_enemy_fountain = read_optional::<i64>(json, "takedownsInEnemyFountain")?;
        let team_baron_kills = read_optional::<i64>(json, "teamBaronKills")?;
        let team_damage_percentage = read_required::<Number>(json, "teamDamagePercentage")?;
        let team_elder_dragon_kills = read_optional::<i64>(json, "teamElderDragonKills")?;
        let team_rift_herald_kills = read_optional::<i64>(json, "teamRiftHeraldKills")?;
        let took_large_damage_survived = read_optional::<i64>(json, "tookLargeDamageSurvived")?;
        let turret_plates_taken = read_optional::<i64>(json, "turretPlatesTaken")?;
        let turret_takedowns = read_optional::<i64>(json, "turretTakedowns")?;
        let turrets_taken_with_rift_herald = read_optional::<i64>(
            json,
            "turretsTakenWithRiftHerald",
        )?;
        let twenty_minions_in3seconds_count = read_optional::<i64>(
            json,
            "twentyMinionsIn3SecondsCount",
        )?;
        let two_wards_one_sweeper_count = read_optional::<i64>(json, "twoWardsOneSweeperCount")?;
        let unseen_recalls = read_optional::<i64>(json, "unseenRecalls")?;
        let vision_score_advantage_lane_opponent = read_required::<Number>(
            json,
            "visionScoreAdvantageLaneOpponent",
        )?;
        let vision_score_per_minute = read_required::<Number>(json, "visionScorePerMinute")?;
        let void_monster_kill = read_optional::<i64>(json, "voidMonsterKill")?;
        let ward_takedowns = read_optional::<i64>(json, "wardTakedowns")?;
        let ward_takedowns_before20m = read_optional::<i64>(json, "wardTakedownsBefore20M")?;
        let wards_guarded = read_optional::<i64>(json, "wardsGuarded")?;
        let earliest_dragon_takedown = read_optional::<Number>(json, "earliestDragonTakedown")?;
        let highest_crowd_control_score = read_optional::<i64>(json, "highestCrowdControlScore")?;
        let jungler_kills_early_jungle = read_optional::<i64>(json, "junglerKillsEarlyJungle")?;
        let kills_on_laners_early_jungle_as_jungler = read_optional::<i64>(
            json,
            "killsOnLanersEarlyJungleAsJungler",
        )?;
        let teleport_takedowns = read_optional::<i64>(json, "teleportTakedowns")?;
        let baron_buff_gold_advantage_over_threshold = read_optional::<i64>(
            json,
            "baronBuffGoldAdvantageOverThreshold",
        )?;
        let earliest_baron = read_optional::<Number>(json, "earliestBaron")?;
        let earliest_elder_dragon = read_optional::<Number>(json, "earliestElderDragon")?;
        let first_turret_killed_time = read_optional::<Number>(json, "firstTurretKilledTime")?;
        let highest_champion_damage = read_optional::<i64>(json, "highestChampionDamage")?;
        let solo_turrets_lategame = read_optional::<i64>(json, "soloTurretsLategame")?;
        let faster_support_quest_completion = read_optional::<i64>(
            json,
            "fasterSupportQuestCompletion",
        )?;
        let highest_ward_kills = read_optional::<i64>(json, "highestWardKills")?;
        Ok(
            Challenges {
                n12assist_streak_count,
                heal_from_map_sources,
                infernal_scale_pickup,
                swarm_defeat_aatrox,
                swarm_defeat_briar,
                swarm_defeat_mini_bosses,
                swarm_evolve_weapon,
                swarm_have3passives,
                swarm_kill_enemy,
                swarm_pickup_gold,
                swarm_reach_level50,
                swarm_survive15min,
                swarm_win_with5evolved_weapons,
                ability_uses,
                aces_before15minutes,
                allied_jungle_monster_kills,
                baron_takedowns,
                blast_cone_opposite_opponent_count,
                bounty_gold,
                buffs_stolen,
                complete_support_quest_in_time,
                control_ward_time_coverage_in_river_or_enemy_half,
                control_wards_placed,
                damage_per_minute,
                damage_taken_on_team_percentage,
                danced_with_rift_herald,
                deaths_by_enemy_champs,
                dodge_skill_shots_small_window,
                double_aces,
                dragon_takedowns,
                early_laning_phase_gold_exp_advantage,
                effective_heal_and_shielding,
                elder_dragon_kills_with_opposing_soul,
                elder_dragon_multikills,
                enemy_champion_immobilizations,
                enemy_jungle_monster_kills,
                epic_monster_kills_near_enemy_jungler,
                epic_monster_kills_within30seconds_of_spawn,
                epic_monster_steals,
                epic_monster_stolen_without_smite,
                first_turret_killed,
                fist_bump_participation,
                flawless_aces,
                full_team_takedown,
                game_length,
                get_takedowns_in_all_lanes_early_jungle_as_laner,
                gold_per_minute,
                had_open_nexus,
                immobilize_and_kill_with_ally,
                initial_buff_count,
                initial_crab_count,
                jungle_cs_before10minutes,
                jungler_takedowns_near_damaged_epic_monster,
                k_turrets_destroyed_before_plates_fall,
                kda,
                kill_after_hidden_with_ally,
                kill_participation,
                killed_champ_took_full_team_damage_survived,
                killing_sprees,
                kills_near_enemy_turret,
                kills_on_other_lanes_early_jungle_as_laner,
                kills_on_recently_healed_by_aram_pack,
                kills_under_own_turret,
                kills_with_help_from_epic_monster,
                knock_enemy_into_team_and_kill,
                land_skill_shots_early_game,
                lane_minions_first10minutes,
                laning_phase_gold_exp_advantage,
                legendary_count,
                legendary_item_used,
                lost_an_inhibitor,
                max_cs_advantage_on_lane_opponent,
                max_kill_deficit,
                max_level_lead_lane_opponent,
                mejais_full_stack_in_time,
                more_enemy_jungle_than_opponent,
                multi_kill_one_spell,
                multi_turret_rift_herald_count,
                multikills,
                multikills_after_aggressive_flash,
                outer_turret_executes_before10minutes,
                outnumbered_kills,
                outnumbered_nexus_kill,
                perfect_dragon_souls_taken,
                perfect_game,
                pick_kill_with_ally,
                played_champ_select_position,
                poro_explosions,
                quick_cleanse,
                quick_first_turret,
                quick_solo_kills,
                rift_herald_takedowns,
                save_ally_from_death,
                scuttle_crab_kills,
                skillshots_dodged,
                skillshots_hit,
                snowballs_hit,
                solo_baron_kills,
                solo_kills,
                stealth_wards_placed,
                survived_single_digit_hp_count,
                survived_three_immobilizes_in_fight,
                takedown_on_first_turret,
                takedowns,
                takedowns_after_gaining_level_advantage,
                takedowns_before_jungle_minion_spawn,
                takedowns_first_xminutes,
                takedowns_in_alcove,
                takedowns_in_enemy_fountain,
                team_baron_kills,
                team_damage_percentage,
                team_elder_dragon_kills,
                team_rift_herald_kills,
                took_large_damage_survived,
                turret_plates_taken,
                turret_takedowns,
                turrets_taken_with_rift_herald,
                twenty_minions_in3seconds_count,
                two_wards_one_sweeper_count,
                unseen_recalls,
                vision_score_advantage_lane_opponent,
                vision_score_per_minute,
                void_monster_kill,
                ward_takedowns,
                ward_takedowns_before20m,
                wards_guarded,
                earliest_dragon_takedown,
                highest_crowd_control_score,
                jungler_kills_early_jungle,
                kills_on_laners_early_jungle_as_jungler,
                teleport_takedowns,
                baron_buff_gold_advantage_over_threshold,
                earliest_baron,
                earliest_elder_dragon,
                first_turret_killed_time,
                highest_champion_damage,
                solo_turrets_lategame,
                faster_support_quest_completion,
                highest_ward_kills,
            },
        )
    }

    fn encode(&self) -> (json: Json) {
        let mut members = no_members();
        push_optional_member::<i64>(
            &mut members,
            "12AssistStreakCount",
            &self.n12assist_streak_count,
        );
        push_member::<Number>(&mut members, "HealFromMapSources", &self.heal_from_map_sources);
        push_optional_member::<i64>(
            &mut members,
            "InfernalScalePickup",
            &self.infernal_scale_pickup,
        );
        push_optional_member::<i64>(&mut members, "SWARM_DefeatAatrox", &self.swarm_defeat_aatrox);
        push_optional_member::<i64>(&mut members, "SWARM_DefeatBriar", &self.swarm_defeat_briar);
        push_optional_member::<i64>(
            &mut members,
            "SWARM_DefeatMiniBosses",
            &self.swarm_defeat_mini_bosses,
        );
        push_optional_member::<i64>(&mut members, "SWARM_EvolveWeapon", &self.swarm_evolve_weapon);
        push_optional_member::<i64>(&mut members, "SWARM_Have3Passives", &self.swarm_have3passives);
        push_optional_member::<i64>(&mut members, "SWARM_KillEnemy", &self.swarm_kill_enemy);
        push_optional_member::<i64>(&mut members, "SWARM_PickupGold", &self.swarm_pickup_gold);
        push_optional_member::<i64>(&mut members, "SWARM_ReachLevel50", &self.swarm_reach_level50);
        push_optional_member::<i64>(&mut members, "SWARM_Survive15Min", &self.swarm_survive15min);
        push_optional_member::<i64>(
            &mut members,
            "SWARM_WinWith5EvolvedWeapons",
            &self.swarm_win_with5evolved_weapons,
        );
        push_optional_member::<i64>(&mut members, "abilityUses", &self.ability_uses);
        push_optional_member::<i64>(
            &mut members,
            "acesBefore15Minutes",
            &self.aces_before15minutes,
        );
        push_optional_member::<i64>(
            &mut members,
            "alliedJungleMonsterKills",
            &self.allied_jungle_monster_kills,
        );
        push_optional_member::<i64>(&mut members, "baronTakedowns", &self.baron_takedowns);
        push_optional_member::<i64>(
            &mut members,
            "blastConeOppositeOpponentCount",
            &self.blast_cone_opposite_opponent_count,
        );
        push_optional_member::<Number>(&mut members, "bountyGold", &self.bounty_gold);
        push_optional_member::<i64>(&mut members, "buffsStolen", &self.buffs_stolen);
        push_optional_member::<i64>(
            &mut members,
            "completeSupportQuestInTime",
            &self.complete_support_quest_in_time,
        );
        push_optional_member::<Number>(
            &mut members,
            "controlWardTimeCoverageInRiverOrEnemyHalf",
            &self.control_ward_time_coverage_in_river_or_enemy_half,
        );
        push_optional_member::<i64>(&mut members, "controlWardsPlaced", &self.control_wards_placed);
        push_member::<Number>(&mut members, "damagePerMinute", &self.damage_per_minute);
        push_member::<Number>(
            &mut members,
            "damageTakenOnTeamPercentage",
            &self.damage_taken_on_team_percentage,
        );
        push_optional_member::<i64>(
            &mut members,
            "dancedWithRiftHerald",
            &self.danced_with_rift_herald,
        );
        push_optional_member::<i64>(
            &mut members,
            "deathsByEnemyChamps",
            &self.deaths_by_enemy_champs,
        );
        push_optional_member::<i64>(
            &mut members,
            "dodgeSkillShotsSmallWindow",
            &self.dodge_skill_shots_small_window,
        );
        push_optional_member::<i64>(&mut members, "doubleAces", &self.double_aces);
        push_optional_member::<i64>(&mut members, "dragonTakedowns", &self.dragon_takedowns);
        push_optional_member::<i64>(
            &mut members,
            "earlyLaningPhaseGoldExpAdvantage",
            &self.early_laning_phase_gold_exp_advantage,
        );
        push_member::<Number>(
            &mut members,
            "effectiveHealAndShielding",
            &self.effective_heal_and_shielding,
        );
        push_optional_member::<i64>(
            &mut members,
            "elderDragonKillsWithOpposingSoul",
            &self.elder_dragon_kills_with_opposing_soul,
        );
        push_optional_member::<i64>(
            &mut members,
            "elderDragonMultikills",
            &self.elder_dragon_multikills,
        );
        push_optional_member::<i64>(
            &mut members,
            "enemyChampionImmobilizations",
            &self.enemy_champion_immobilizations,
        );
        push_optional_member::<i64>(
            &mut members,
            "enemyJungleMonsterKills",
            &self.enemy_jungle_monster_kills,
        );
        push_optional_member::<i64>(
            &mut members,
            "epicMonsterKillsNearEnemyJungler",
            &self.epic_monster_kills_near_enemy_jungler,
        );
        push_optional_member::<i64>(
            &mut members,
            "epicMonsterKillsWithin30SecondsOfSpawn",
            &self.epic_monster_kills_within30seconds_of_spawn,
        );
        push_optional_member::<i64>(&mut members, "epicMonsterSteals", &self.epic_monster_steals);
        push_optional_member::<i64>(
            &mut members,
            "epicMonsterStolenWithoutSmite",
            &self.epic_monster_stolen_without_smite,
        );
        push_optional_member::<i64>(&mut members, "firstTurretKilled", &self.first_turret_killed);
        push_optional_member::<i64>(
            &mut members,
            "fistBumpParticipation",
            &self.fist_bump_participation,
        );
        push_optional_member::<i64>(&mut members, "flawlessAces", &self.flawless_aces);
        push_optional_member::<i64>(&mut members, "fullTeamTakedown", &self.full_team_takedown);
        push_member::<Number>(&mut members, "gameLength", &self.game_length);
        push_optional_member::<i64>(
            &mut members,
            "getTakedownsInAllLanesEarlyJungleAsLaner",
            &self.get_takedowns_in_all_lanes_early_jungle_as_laner,
        );
        push_member::<Number>(&mut members, "goldPerMinute", &self.gold_per_minute);
        push_optional_member::<i64>(&mut members, "hadOpenNexus", &self.had_open_nexus);
        push_optional_member::<i64>(
            &mut members,
            "immobilizeAndKillWithAlly",
            &self.immobilize_and_kill_with_ally,
        );
        push_optional_member::<i64>(&mut members, "initialBuffCount", &self.initial_buff_count);
        push_optional_member::<i64>(&mut members, "initialCrabCount", &self.initial_crab_count);
        push_member::<Number>(
            &mut members,
            "jungleCsBefore10Minutes",
            &self.jungle_cs_before10minutes,
        );
        push_optional_member::<i64>(
            &mut members,
            "junglerTakedownsNearDamagedEpicMonster",
            &self.jungler_takedowns_near_damaged_epic_monster,
        );
        push_optional_member::<i64>(
            &mut members,
            "kTurretsDestroyedBeforePlatesFall",
            &self.k_turrets_destroyed_before_plates_fall,
        );
        push_member::<Number>(&mut members, "kda", &self.kda);
        push_optional_member::<i64>(
            &mut members,
            "killAfterHiddenWithAlly",
            &self.kill_after_hidden_with_ally,
        );
        push_member::<Number>(&mut members, "killParticipation", &self.kill_participation);
        push_optional_member::<i64>(
            &mut members,
            "killedChampTookFullTeamDamageSurvived",
            &self.killed_champ_took_full_team_damage_survived,
        );
        push_optional_member::<i64>(&mut members, "killingSprees", &self.killing_sprees);
        push_optional_member::<i64>(
            &mut members,
            "killsNearEnemyTurret",
            &self.kills_near_enemy_turret,
        );
        push_optional_member::<i64>(
            &mut members,
            "killsOnOtherLanesEarlyJungleAsLaner",
            &self.kills_on_other_lanes_early_jungle_as_laner,
        );
        push_optional_member::<i64>(
            &mut members,
            "killsOnRecentlyHealedByAramPack",
            &self.kills_on_recently_healed_by_aram_pack,
        );
        push_optional_member::<i64>(
            &mut members,
            "killsUnderOwnTurret",
            &self.kills_under_own_turret,
        );
        push_optional_member::<i64>(
            &mut members,
            "killsWithHelpFromEpicMonster",
            &self.kills_with_help_from_epic_monster,
        );
        push_optional_member::<i64>(
            &mut members,
            "knockEnemyIntoTeamAndKill",
            &self.knock_enemy_into_team_and_kill,
        );
        push_optional_member::<i64>(
            &mut members,
            "landSkillShotsEarlyGame",
            &self.land_skill_shots_early_game,
        );
        push_optional_member::<i64>(
            &mut members,
            "laneMinionsFirst10Minutes",
            &self.lane_minions_first10minutes,
        );
        push_optional_member::<i64>(
            &mut members,
            "laningPhaseGoldExpAdvantage",
            &self.laning_phase_gold_exp_advantage,
        );
        push_optional_member::<i64>(&mut members, "legendaryCount", &self.legendary_count);
        push_member::<Vec<i64>>(&mut members, "legendaryItemUsed", &self.legendary_item_used);
        push_optional_member::<i64>(&mut members, "lostAnInhibitor", &self.lost_an_inhibitor);
        push_optional_member::<Number>(
            &mut members,
            "maxCsAdvantageOnLaneOpponent",
            &self.max_cs_advantage_on_lane_opponent,
        );
        push_optional_member::<i64>(&mut members, "maxKillDeficit", &self.max_kill_deficit);
        push_optional_member::<i64>(
            &mut members,
            "maxLevelLeadLaneOpponent",
            &self.max_level_lead_lane_opponent,
        );
        push_optional_member::<i64>(
            &mut members,
            "mejaisFullStackInTime",
            &self.mejais_full_stack_in_time,
        );
        push_member::<Number>(
            &mut members,
            "moreEnemyJungleThanOpponent",
            &self.more_enemy_jungle_than_opponent,
        );
        push_optional_member::<i64>(&mut members, "multiKillOneSpell", &self.multi_kill_one_spell);
        push_optional_member::<i64>(
            &mut members,
            "multiTurretRiftHeraldCount",
            &self.multi_turret_rift_herald_count,
        );
        push_optional_member::<i64>(&mut members, "multikills", &self.multikills);
        push_optional_member::<i64>(
            &mut members,
            "multikillsAfterAggressiveFlash",
            &self.multikills_after_aggressive_flash,
        );
        push_optional_member::<i64>(
            &mut members,
            "outerTurretExecutesBefore10Minutes",
            &self.outer_turret_executes_before10minutes,
        );
        push_optional_member::<i64>(&mut members, "outnumberedKills", &self.outnumbered_kills);
        push_optional_member::<i64>(
            &mut members,
            "outnumberedNexusKill",
            &self.outnumbered_nexus_kill,
        );
        push_optional_member::<i64>(
            &mut members,
            "perfectDragonSoulsTaken",
            &self.perfect_dragon_souls_taken,
        );
        push_optional_member::<i64>(&mut members, "perfectGame", &self.perfect_game);
        push_optional_member::<i64>(&mut members, "pickKillWithAlly", &self.pick_kill_with_ally);
        push_optional_member::<i64>(
            &mut members,
            "playedChampSelectPosition",
            &self.played_champ_select_position,
        );
        push_optional_member::<i64>(&mut members, "poroExplosions", &self.poro_explosions);
        push_optional_member::<i64>(&mut members, "quickCleanse", &self.quick_cleanse);
        push_optional_member::<i64>(&mut members, "quickFirstTurret", &self.quick_first_turret);
        push_optional_member::<i64>(&mut members, "quickSoloKills", &self.quick_solo_kills);
        push_optional_member::<i64>(
            &mut members,
            "riftHeraldTakedowns",
            &self.rift_herald_takedowns,
        );
        push_optional_member::<i64>(&mut members, "saveAllyFromDeath", &self.save_ally_from_death);
        push_optional_member::<i64>(&mut members, "scuttleCrabKills", &self.scuttle_crab_kills);
        push_optional_member::<i64>(&mut members, "skillshotsDodged", &self.skillshots_dodged);
        push_optional_member::<i64>(&mut members, "skillshotsHit", &self.skillshots_hit);
        push_optional_member::<i64>(&mut members, "snowballsHit", &self.snowballs_hit);
        push_optional_member::<i64>(&mut members, "soloBaronKills", &self.solo_baron_kills);
        push_optional_member::<i64>(&mut members, "soloKills", &self.solo_kills);
        push_optional_member::<i64>(&mut members, "stealthWardsPlaced", &self.stealth_wards_placed);
        push_optional_member::<i64>(
            &mut members,
            "survivedSingleDigitHpCount",
            &self.survived_single_digit_hp_count,
        );
        push_optional_member::<i64>(
            &mut members,
            "survivedThreeImmobilizesInFight",
            &self.survived_three_immobilizes_in_fight,
        );
        push_optional_member::<i64>(
            &mut members,
            "takedownOnFirstTurret",
            &self.takedown_on_first_turret,
        );
        push_optional_member::<i64>(&mut members, "takedowns", &self.takedowns);
        push_optional_member::<i64>(
            &mut members,
            "takedownsAfterGainingLevelAdvantage",
            &self.takedowns_after_gaining_level_advantage,
        );
        push_optional_member::<i64>(
            &mut members,
            "takedownsBeforeJungleMinionSpawn",
            &self.takedowns_before_jungle_minion_spawn,
        );
        push_optional_member::<i64>(
            &mut members,
            "takedownsFirstXMinutes",
            &self.takedowns_first_xminutes,
        );
        push_optional_member::<i64>(&mut members, "takedownsInAlcove", &self.takedowns_in_alcove);
        push_optional_member::<i64>(
            &mut members,
            "takedownsInEnemyFountain",
            &self.takedowns_in_enemy_fountain,
        );
        push_optional_member::<i64>(&mut members, "teamBaronKills", &self.team_baron_kills);
        push_member::<Number>(&mut members, "teamDamagePercentage", &self.team_damage_percentage);
        push_optional_member::<i64>(
            &mut members,
            "teamElderDragonKills",
            &self.team_elder_dragon_kills,
        );
        push_optional_member::<i64>(
            &mut members,
            "teamRiftHeraldKills",
            &self.team_rift_herald_kills,
        );
        push_optional_member::<i64>(
            &mut members,
            "tookLargeDamageSurvived",
            &self.took_large_damage_survived,
        );
        push_optional_member::<i64>(&mut members, "turretPlatesTaken", &self.turret_plates_taken);
        push_optional_member::<i64>(&mut members, "turretTakedowns", &self.turret_takedowns);
        push_optional_member::<i64>(
            &mut members,
            "turretsTakenWithRiftHerald",
            &self.turrets_taken_with_rift_herald,
        );
        push_optional_member::<i64>(
            &mut members,
            "twentyMinionsIn3SecondsCount",
            &self.twenty_minions_in3seconds_count,
        );
        push_optional_member::<i64>(
            &mut members,
            "twoWardsOneSweeperCount",
            &self.two_wards_one_sweeper_count,
        );
        push_optional_member::<i64>(&mut members, "unseenRecalls", &self.unseen_recalls);
        push_member::<Number>(
            &mut members,
            "visionScoreAdvantageLaneOpponent",
            &self.vision_score_advantage_lane_opponent,
        );
        push_member::<Number>(&mut members, "visionScorePerMinute", &self.vision_score_per_minute);
        push_optional_member::<i64>(&mut members, "voidMonsterKill", &self.void_monster_kill);
        push_optional_member::<i64>(&mut members, "wardTakedowns", &self.ward_takedowns);
        push_optional_member::<i64>(
            &mut members,
            "wardTakedownsBefore20M",
            &self.ward_takedowns_before20m,
        );
        push_optional_member::<i64>(&mut members, "wardsGuarded", &self.wards_guarded);
        push_optional_member::<Number>(
            &mut members,
            "earliestDragonTakedown",
            &self.earliest_dragon_takedown,
        );
        push_optional_member::<i64>(
            &mut members,
            "highestCrowdControlScore",
            &self.highest_crowd_control_score,
        );
        push_optional_member::<i64>(
            &mut members,
            "junglerKillsEarlyJungle",
            &self.jungler_kills_early_jungle,
        );
        push_optional_member::<i64>(
            &mut members,
            "killsOnLanersEarlyJungleAsJungler",
            &self.kills_on_laners_early_jungle_as_jungler,
        );
        push_optional_member::<i64>(&mut members, "teleportTakedowns", &self.teleport_takedowns);
        push_optional_member::<i64>(
            &mut members,
            "baronBuffGoldAdvantageOverThreshold",
            &self.baron_buff_gold_advantage_over_threshold,
        );
        push_optional_member::<Number>(&mut members, "earliestBaron", &self.earliest_baron);
        push_optional_member::<Number>(
            &mut members,
            "earliestElderDragon",
            &self.earliest_elder_dragon,
        );
        push_optional_member::<Number>(
            &mut members,
            "firstTurretKilledTime",
            &self.first_turret_killed_time,
        );
        push_optional_member::<i64>(
            &mut members,
            "highestChampionDamage",
            &self.highest_champion_damage,
        );
        push_optional_member::<i64>(
            &mut members,
            "soloTurretsLategame",
            &self.solo_turrets_lategame,
        );
        push_optional_member::<i64>(
            &mut members,
            "fasterSupportQuestCompletion",
            &self.faster_support_quest_completion,
        );
        push_optional_member::<i64>(&mut members, "highestWardKills", &self.highest_ward_kills);
        object_of(members)
    }
}

/// The mission scores of a participant.
#[derive(Clone, Copy, Debug, PartialEq, Eq)]
pub struct Missions {
    pub player_score0: i64,
    pub player_score1: i64,
    pub player_score2: i64,
    pub player_score3: i64,
    pub player_score4: i64,
    pub player_score5: i64,
    pub player_score6: i64,
    pub player_score7: i64,
    pub player_score8: i64,
    pub player_score9: i64,
    pub player_score10: i64,
    pub player_score11: i64,
}

impl DeepView for Missions {
    type V = Missions;

    open spec fn deep_view(&self) -> Missions {
        *self
    }
}

impl Schema for Missions {
    open spec fn decoded(json: JsonView) -> Result<Missions, DecodeFailureView> {
        let player_score0 = required::<i64>(json, "playerScore0"@);
        let player_score1 = required::<i64>(json, "playerScore1"@);
        let player_score2 = required::<i64>(json, "playerScore2"@);
        let player_score3 = required::<i64>(json, "playerScore3"@);
        let player_score4 = required::<i64>(json, "playerScore4"@);
        let player_score5 = required::<i64>(json, "playerScore5"@);
        let player_score6 = required::<i64>(json, "playerScore6"@);
        let player_score7 = required::<i64>(json, "playerScore7"@);
        let player_score8 = required::<i64>(json, "playerScore8"@);
        let player_score9 = required::<i64>(json, "playerScore9"@);
        let player_score10 = required::<i64>(json, "playerScore10"@);
        let player_score11 = required::<i64>(json, "playerScore11"@);
        if player_score0 is Err {
            Err(player_score0->Err_0)
        } else if player_score1 is Err {
            Err(player_score1->Err_0)
        } else if player_score2 is Err {
            Err(player_score2->Err_0)
        } else if player_score3 is Err {
            Err(player_score3->Err_0)
        } else if player_score4 is Err {
            Err(player_score4->Err_0)
        } else if player_score5 is Err {
            Err(player_score5->Err_0)
        } else if player_score6 is Err {
            Err(player_score6->Err_0)
        } else if player_score7 is Err {
            Err(player_score7->Err_0)
        } else if player_score8 is Err {
            Err(player_score8->Err_0)
        } else if player_score9 is Err {
            Err(player_score9->Err_0)
        } else if player_score10 is Err {
            Err(player_score10->Err_0)
        } else if player_score11 is Err {
            Err(player_score11->Err_0)
        } else {
            Ok(
                Missions {
                    player_score0: player_score0->Ok_0,
                    player_score1: player_score1->Ok_0,
                    player_score2: player_score2->Ok_0,
                    player_score3: player_score3->Ok_0,
                    player_score4: player_score4->Ok_0,
                    player_score5: player_score5->Ok_0,
                    player_score6: player_score6->Ok_0,
                    player_score7: player_score7->Ok_0,
                    player_score8: player_score8->Ok_0,
                    player_score9: player_score9->Ok_0,
                    player_score10: player_score10->Ok_0,
                    player_score11: player_score11->Ok_0,
                },
            )
        }
    }

    open spec fn encoded(value: Missions) -> JsonView {
        JsonView::Object(
            Seq::empty()
                .push(("playerScore0"@, <i64>::encoded(value.player_score0)))
                .push(("playerScore1"@, <i64>::encoded(value.player_score1)))
                .push(("playerScore2"@, <i64>::encoded(value.player_score2)))
                .push(("playerScore3"@, <i64>::encoded(value.player_score3)))
                .push(("playerScore4"@, <i64>::encoded(value.player_score4)))
                .push(("playerScore5"@, <i64>::encoded(value.player_score5)))
                .push(("playerScore6"@, <i64>::encoded(value.player_score6)))
                .push(("playerScore7"@, <i64>::encoded(value.player_score7)))
                .push(("playerScore8"@, <i64>::encoded(value.player_score8)))
                .push(("playerScore9"@, <i64>::encoded(value.player_score9)))
                .push(("playerScore10"@, <i64>::encoded(value.player_score10)))
                .push(("playerScore11"@, <i64>::encoded(value.player_score11))),
        )
    }

    fn decode(json: &Json) -> (outcome: Result<Self, DecodeFailure>) {
        let player_score0 = read_required::<i64>(json, "playerScore0")?;
        let player_score1 = read_required::<i64>(json, "playerScore1")?;
        let player_score2 = read_required::<i64>(json, "playerScore2")?;
        let player_score3 = read_required::<i64>(json, "playerScore3")?;
        let player_score4 = read_required::<i64>(json, "playerScore4")?;
        let player_score5 = read_required::<i64>(json, "playerScore5")?;
        let player_score6 = read_required::<i64>(json, "playerScore6")?;
        let player_score7 = read_required::<i64>(json, "playerScore7")?;
        let player_score8 = read_required::<i64>(json, "playerScore8")?;
        let player_score9 = read_required::<i64>(json, "playerScore9")?;
        let player_score10 = read_required::<i64>(json, "playerScore10")?;
        let player_score11 = read_required::<i64>(json, "playerScore11")?;
        Ok(
            Missions {
                player_score0,
                player_score1,
                player_score2,
                player_score3,
                player_score4,
                player_score5,
                player_score6,
                player_score7,
                player_score8,
                player_score9,
                player_score10,
                player_score11,
            },
        )
    }

    fn encode(&self) -> (json: Json) {
        let mut members = no_members();
        push_member::<i64>(&mut members, "playerScore0", &self.player_score0);
        push_member::<i64>(&mut members, "playerScore1", &self.player_score1);
        push_member::<i64>(&mut members, "playerScore2", &self.player_score2);
        push_member::<i64>(&mut members, "playerScore3", &self.player_score3);
        push_member::<i64>(&mut members, "playerScore4", &self.player_score4);
        push_member::<i64>(&mut members, "playerScore5", &self.player_score5);
        push_member::<i64>(&mut members, "playerScore6", &self.player_score6);
        push_member::<i64>(&mut members, "playerScore7", &self.player_score7);
        push_member::<i64>(&mut members, "playerScore8", &self.player_score8);
        push_member::<i64>(&mut members, "playerScore9", &self.player_score9);
        push_member::<i64>(&mut members, "playerScore10", &self.player_score10);
        push_member::<i64>(&mut members, "playerScore11", &self.player_score11);
        object_of(members)
    }
}

impl RoundTrip for Missions {
    proof fn lemma_round_trip(value: Missions) {
        let members = Self::encoded(value)->Object_0;
        reveal_strlit("playerScore0");
        reveal_strlit("playerScore1");
        reveal_strlit("playerScore2");
        reveal_strlit("playerScore3");
        reveal_strlit("playerScore4");
        reveal_strlit("playerScore5");
        reveal_strlit("playerScore6");
        reveal_strlit("playerScore7");
        reveal_strlit("playerScore8");
        reveal_strlit("playerScore9");
        reveal_strlit("playerScore10");
        reveal_strlit("playerScore11");
        assert("playerScore0"@.len() == 12 && "playerScore0"@[11] == '0');
        assert("playerScore1"@.len() == 12 && "playerScore1"@[11] == '1');
        assert("playerScore2"@.len() == 12 && "playerScore2"@[11] == '2');
        assert("playerScore3"@.len() == 12 && "playerScore3"@[11] == '3');
        assert("playerScore4"@.len() == 12 && "playerScore4"@[11] == '4');
        assert("playerScore5"@.len() == 12 && "playerScore5"@[11] == '5');
        assert("playerScore6"@.len() == 12 && "playerScore6"@[11] == '6');
        assert("playerScore7"@.len() == 12 && "playerScore7"@[11] == '7');
        assert("playerScore8"@.len() == 12 && "playerScore8"@[11] == '8');
        assert("playerScore9"@.len() == 12 && "playerScore9"@[11] == '9');
        assert("playerScore10"@.len() == 13 && "playerScore10"@[12] == '0');
        assert("playerScore11"@.len() == 13 && "playerScore11"@[12] == '1');
        lemma_lookup_unfolds();
        lemma_required_reads::<i64>(members, "playerScore0"@, value.player_score0);
        lemma_required_reads::<i64>(members, "playerScore1"@, value.player_score1);
        lemma_required_reads::<i64>(members, "playerScore2"@, value.player_score2);
        lemma_required_reads::<i64>(members, "playerScore3"@, value.player_score3);
        lemma_required_reads::<i64>(members, "playerScore4"@, value.player_score4);
        lemma_required_reads::<i64>(members, "playerScore5"@, value.player_score5);
        lemma_required_reads::<i64>(members, "playerScore6"@, value.player_score6);
        lemma_required_reads::<i64>(members, "playerScore7"@, value.player_score7);
        lemma_required_reads::<i64>(members, "playerScore8"@, value.player_score8);
        lemma_required_reads::<i64>(members, "playerScore9"@, value.player_score9);
        lemma_required_reads::<i64>(members, "playerScore10"@, value.player_score10);
        lemma_required_reads::<i64>(members, "playerScore11"@, value.player_score11);
    }
}

/// The runes of a participant.
#[derive(Clone, Debug, PartialEq, Eq)]
pub struct Perks {
    pub stat_perks: PerkStats,
    pub styles: Vec<PerkStyle>,
}

/// The runes of a participant, as plain data.
pub struct PerksView {
    pub stat_perks: PerkStats,
    pub styles: Seq<PerkStyleView>,
}

impl DeepView for Perks {
    type V = PerksView;

    open spec fn deep_view(&self) -> PerksView {
        PerksView {
            stat_perks: self.stat_perks.deep_view(),
            styles: self.styles.deep_view(),
        }
    }
}

impl Schema for Perks {
    open spec fn decoded(json: JsonView) -> Result<PerksView, DecodeFailureView> {
        let stat_perks = required::<PerkStats>(json, "statPerks"@);
        let styles = required::<Vec<PerkStyle>>(json, "styles"@);
        if stat_perks is Err {
            Err(stat_perks->Err_0)
        } else if styles is Err {
            Err(styles->Err_0)
        } else {
            Ok(
                PerksView {
                    stat_perks: stat_perks->Ok_0,
                    styles: styles->Ok_0,
                },
            )
        }
    }

    open spec fn encoded(value: PerksView) -> JsonView {
        JsonView::Object(
            Seq::empty()
                .push(("statPerks"@, <PerkStats>::encoded(value.stat_perks)))
                .push(("styles"@, <Vec<PerkStyle>>::encoded(value.styles))),
        )
    }

    fn decode(json: &Json) -> (outcome: Result<Self, DecodeFailure>) {
        let stat_perks = read_required::<PerkStats>(json, "statPerks")?;
        let styles = read_required::<Vec<PerkStyle>>(json, "styles")?;
        Ok(Perks { stat_perks, styles })
    }

    fn encode(&self) -> (json: Json) {
        let mut members = no_members();
        push_member::<PerkStats>(&mut members, "statPerks", &self.stat_perks);
        push_member::<Vec<PerkStyle>>(&mut members, "styles", &self.styles);
        object_of(members)
    }
}

impl RoundTrip for Perks {
    proof fn lemma_round_trip(value: PerksView) {
        let members = Self::encoded(value)->Object_0;
        reveal_strlit("statPerks");
        reveal_strlit("styles");
        assert("statPerks"@.len() == 9);
        assert("styles"@.len() == 6);
        lemma_lookup_unfolds();
        lemma_required_reads::<PerkStats>(members, "statPerks"@, value.stat_perks);
        lemma_required_reads::<Vec<PerkStyle>>(members, "styles"@, value.styles);
    }
}

/// The stat runes of a participant.
#[derive(Clone, Copy, Debug, PartialEq, Eq)]
pub struct PerkStats {
    pub defense: i64,
    pub flex: i64,
    pub offense: i64,
}

impl DeepView for PerkStats {
    type V = PerkStats;

    open spec fn deep_view(&self) -> PerkStats {
        *self
    }
}

impl Schema for PerkStats {
    open spec fn decoded(json: JsonView) -> Result<PerkStats, DecodeFailureView> {
        let defense = required::<i64>(json, "defense"@);
        let flex = required::<i64>(json, "flex"@);
        let offense = required::<i64>(json, "offense"@);
        if defense is Err {
            Err(defense->Err_0)
        } else if flex is Err {
            Err(flex->Err_0)
        } else if offense is Err {
            Err(offense->Err_0)
        } else {
            Ok(
                PerkStats {
                    defense: defense->Ok_0,
                    flex: flex->Ok_0,
                    offense: offense->Ok_0,
                },
            )
        }
    }

    open spec fn encoded(value: PerkStats) -> JsonView {
        JsonView::Object(
            Seq::empty()
                .push(("defense"@, <i64>::encoded(value.defense)))
                .push(("flex"@, <i64>::encoded(value.flex)))
                .push(("offense"@, <i64>::encoded(value.offense))),
        )
    }

    fn decode(json: &Json) -> (outcome: Result<Self, DecodeFailure>) {
        let defense = read_required::<i64>(json, "defense")?;
        let flex = read_required::<i64>(json, "flex")?;
        let offense = read_required::<i64>(json, "offense")?;
        Ok(PerkStats { defense, flex, offense })
    }

    fn encode(&self) -> (json: Json) {
        let mut members = no_members();
        push_member::<i64>(&mut members, "defense", &self.defense);
        push_member::<i64>(&mut members, "flex", &self.flex);
        push_member::<i64>(&mut members, "offense", &self.offense);
        object_of(members)
    }
}

impl RoundTrip for PerkStats {
    proof fn lemma_round_trip(value: PerkStats) {
        let members = Self::encoded(value)->Object_0;
        reveal_strlit("defense");
        reveal_strlit("flex");
        reveal_strlit("offense");
        assert("defense"@.len() == 7 && "defense"@[0] == 'd');
        assert("flex"@.len() == 4);
        assert("offense"@.len() == 7 && "offense"@[0] == 'o');
        lemma_lookup_unfolds();
        lemma_required_reads::<i64>(members, "defense"@, value.defense);
        lemma_required_reads::<i64>(members, "flex"@, value.flex);
        lemma_required_reads::<i64>(members, "offense"@, value.offense);
    }
}

/// A rune style with the runes selected from it.
#[derive(Clone, Debug, PartialEq, Eq)]
pub struct PerkStyle {
    pub description: String,
    pub selections: Vec<PerkStyleSelection>,
    pub style: i64,
}

/// A rune style with the runes selected from it, as plain data.
pub struct PerkStyleView {
    pub description: Seq<char>,
    pub selections: Seq<PerkStyleSelection>,
    pub style: i64,
}

impl DeepView for PerkStyle {
    type V = PerkStyleView;

    open spec fn deep_view(&self) -> PerkStyleView {
        PerkStyleView {
            description: self.description.deep_view(),
            selections: self.selections.deep_view(),
            style: self.style.deep_view(),
        }
    }
}

impl Schema for PerkStyle {
    open spec fn decoded(json: JsonView) -> Result<PerkStyleView, DecodeFailureView> {
        let description = required::<String>(json, "description"@);
        let selections = required::<Vec<PerkStyleSelection>>(json, "selections"@);
        let style = required::<i64>(json, "style"@);
        if description is Err {
            Err(description->Err_0)
        } else if selections is Err {
            Err(selections->Err_0)
        } else if style is Err {
            Err(style->Err_0)
        } else {
            Ok(
                PerkStyleView {
                    description: description->Ok_0,
                    selections: selections->Ok_0,
                    style: style->Ok_0,
                },
            )
        }
    }

    open spec fn encoded(value: PerkStyleView) -> JsonView {
        JsonView::Object(
            Seq::empty()
                .push(("description"@, <String>::encoded(value.description)))
                .push(("selections"@, <Vec<PerkStyleSelection>>::encoded(value.selections)))
                .push(("style"@, <i64>::encoded(value.style))),
        )
    }

    fn decode(json: &Json) -> (outcome: Result<Self, DecodeFailure>) {
        let description = read_required::<String>(json, "description")?;
        let selections = read_required::<Vec<PerkStyleSelection>>(json, "selections")?;
        let style = read_required::<i64>(json, "style")?;
        Ok(PerkStyle { description, selections, style })
    }

    fn encode(&self) -> (json: Json) {
        let mut members = no_members();
        push_member::<String>(&mut members, "description", &self.description);
        push_member::<Vec<PerkStyleSelection>>(&mut members, "selections", &self.selections);
        push_member::<i64>(&mut members, "style", &self.style);
        object_of(members)
    }
}

impl RoundTrip for PerkStyle {
    proof fn lemma_round_trip(value: PerkStyleView) {
        let members = Self::encoded(value)->Object_0;
        reveal_strlit("description");
        reveal_strlit("selections");
        reveal_strlit("style");
        assert("description"@.len() == 11);
        assert("selections"@.len() == 10);
        assert("style"@.len() == 5);
        lemma_lookup_unfolds();
        lemma_required_reads::<String>(members, "description"@, value.description);
        lemma_required_reads::<Vec<PerkStyleSelection>>(members, "selections"@, value.selections);
        lemma_required_reads::<i64>(members, "style"@, value.style);
    }
}

/// One rune of a rune style, with its counters.
#[derive(Clone, Copy, Debug, PartialEq, Eq)]
pub struct PerkStyleSelection {
    pub perk: i64,
    pub var1: i64,
    pub var2: i64,
    pub var3: i64,
}

impl DeepView for PerkStyleSelection {
    type V = PerkStyleSelection;

    open spec fn deep_view(&self) -> PerkStyleSelection {
        *self
    }
}

impl Schema for PerkStyleSelection {
    open spec fn decoded(json: JsonView) -> Result<PerkStyleSelection, DecodeFailureView> {
        let perk = required::<i64>(json, "perk"@);
        let var1 = required::<i64>(json, "var1"@);
        let var2 = required::<i64>(json, "var2"@);
        let var3 = required::<i64>(json, "var3"@);
        if perk is Err {
            Err(perk->Err_0)
        } else if var1 is Err {
            Err(var1->Err_0)
        } else if var2 is Err {
            Err(var2->Err_0)
        } else if var3 is Err {
            Err(var3->Err_0)
        } else {
            Ok(
                PerkStyleSelection {
                    perk: perk->Ok_0,
                    var1: var1->Ok_0,
                    var2: var2->Ok_0,
                    var3: var3->Ok_0,
                },
            )
        }
    }

    open spec fn encoded(value: PerkStyleSelection) -> JsonView {
        JsonView::Object(
            Seq::empty()
                .push(("perk"@, <i64>::encoded(value.perk)))
                .push(("var1"@, <i64>::encoded(value.var1)))
                .push(("var2"@, <i64>::encoded(value.var2)))
                .push(("var3"@, <i64>::encoded(value.var3))),
        )
    }

    fn decode(json: &Json) -> (outcome: Result<Self, DecodeFailure>) {
        let perk = read_required::<i64>(json, "perk")?;
        let var1 = read_required::<i64>(json, "var1")?;
        let var2 = read_required::<i64>(json, "var2")?;
        let var3 = read_required::<i64>(json, "var3")?;
        Ok(PerkStyleSelection { perk, var1, var2, var3 })
    }

    fn encode(&self) -> (json: Json) {
        let mut members = no_members();
        push_member::<i64>(&mut members, "perk", &self.perk);
        push_member::<i64>(&mut members, "var1", &self.var1);
        push_member::<i64>(&mut members, "var2", &self.var2);
        push_member::<i64>(&mut members, "var3", &self.var3);
        object_of(members)
    }
}

impl RoundTrip for PerkStyleSelection {
    proof fn lemma_round_trip(value: PerkStyleSelection) {
        let members = Self::encoded(value)->Object_0;
        reveal_strlit("perk");
        reveal_strlit("var1");
        reveal_strlit("var2");
        reveal_strlit("var3");
        assert("perk"@.len() == 4 && "perk"@[0] == 'p');
        assert("var1"@.len() == 4 && "var1"@[0] == 'v' && "var1"@[3] == '1');
        assert("var2"@.len() == 4 && "var2"@[0] == 'v' && "var2"@[3] == '2');
        assert("var3"@.len() == 4 && "var3"@[0] == 'v' && "var3"@[3] == '3');
        lemma_lookup_unfolds();
        lemma_required_reads::<i64>(members, "perk"@, value.perk);
        lemma_required_reads::<i64>(members, "var1"@, value.var1);
        lemma_required_reads::<i64>(members, "var2"@, value.var2);
        lemma_required_reads::<i64>(members, "var3"@, value.var3);
    }
}

/// One of the teams of a match.
#[derive(Clone, Debug, PartialEq, Eq)]
pub struct Team {
    pub bans: Vec<Ban>,
    pub objectives: Objectives,
    pub team_id: i64,
    pub win: bool,
}

/// One of the teams of a match, as plain data.
pub struct TeamView {
    pub bans: Seq<Ban>,
    pub objectives: Objectives,
    pub team_id: i64,
    pub win: bool,
}

impl DeepView for Team {
    type V = TeamView;

    open spec fn deep_view(&self) -> TeamView {
        TeamView {
            bans: self.bans.deep_view(),
            objectives: self.objectives.deep_view(),
            team_id: self.team_id.deep_view(),
            win: self.win.deep_view(),
        }
    }
}

impl Schema for Team {
    open spec fn decoded(json: JsonView) -> Result<TeamView, DecodeFailureView> {
        let bans = required::<Vec<Ban>>(json, "bans"@);
        let objectives = required::<Objectives>(json, "objectives"@);
        let team_id = required::<i64>(json, "teamId"@);
        let win = required::<bool>(json, "win"@);
        if bans is Err {
            Err(bans->Err_0)
        } else if objectives is Err {
            Err(objectives->Err_0)
        } else if team_id is Err {
            Err(team_id->Err_0)
        } else if win is Err {
            Err(win->Err_0)
        } else {
            Ok(
                TeamView {
                    bans: bans->Ok_0,
                    objectives: objectives->Ok_0,
                    team_id: team_id->Ok_0,
                    win: win->Ok_0,
                },
            )
        }
    }

    open spec fn encoded(value: TeamView) -> JsonView {
        JsonView::Object(
            Seq::empty()
                .push(("bans"@, <Vec<Ban>>::encoded(value.bans)))
                .push(("objectives"@, <Objectives>::encoded(value.objectives)))
                .push(("teamId"@, <i64>::encoded(value.team_id)))
                .push(("win"@, <bool>::encoded(value.win))),
        )
    }

    fn decode(json: &Json) -> (outcome: Result<Self, DecodeFailure>) {
        let bans = read_required::<Vec<Ban>>(json, "bans")?;
        let objectives = read_required::<Objectives>(json, "objectives")?;
        let team_id = read_required::<i64>(json, "teamId")?;
        let win = read_required::<bool>(json, "win")?;
        Ok(Team { bans, objectives, team_id, win })
    }

    fn encode(&self) -> (json: Json) {
        let mut members = no_members();
        push_member::<Vec<Ban>>(&mut members, "bans", &self.bans);
        push_member::<Objectives>(&mut members, "objectives", &self.objectives);
        push_member::<i64>(&mut members, "teamId", &self.team_id);
        push_member::<bool>(&mut members, "win", &self.win);
        object_of(members)
    }
}

impl RoundTrip for Team {
    proof fn lemma_round_trip(value: TeamView) {
        let members = Self::encoded(value)->Object_0;
        reveal_strlit("bans");
        reveal_strlit("objectives");
        reveal_strlit("teamId");
        reveal_strlit("win");
        assert("bans"@.len() == 4);
        assert("objectives"@.len() == 10);
        assert("teamId"@.len() == 6);
        assert("win"@.len() == 3);
        lemma_lookup_unfolds();
        lemma_required_reads::<Vec<Ban>>(members, "bans"@, value.bans);
        lemma_required_reads::<Objectives>(members, "objectives"@, value.objectives);
        lemma_required_reads::<i64>(members, "teamId"@, value.team_id);
        lemma_required_reads::<bool>(members, "win"@, value.win);
    }
}

/// A champion that a team banned, and the turn in which it did.
#[derive(Clone, Copy, Debug, PartialEq, Eq)]
pub struct Ban {
    pub champion_id: i64,
    pub pick_turn: i64,
}

impl DeepView for Ban {
    type V = Ban;

    open spec fn deep_view(&self) -> Ban {
        *self
    }
}

impl Schema for Ban {
    open spec fn decoded(json: JsonView) -> Result<Ban, DecodeFailureView> {
        let champion_id = required::<i64>(json, "championId"@);
        let pick_turn = required::<i64>(json, "pickTurn"@);
        if champion_id is Err {
            Err(champion_id->Err_0)
        } else if pick_turn is Err {
            Err(pick_turn->Err_0)
        } else {
            Ok(
                Ban {
                    champion_id: champion_id->Ok_0,
                    pick_turn: pick_turn->Ok_0,
                },
            )
        }
    }

    open spec fn encoded(value: Ban) -> JsonView {
        JsonView::Object(
            Seq::empty()
                .push(("championId"@, <i64>::encoded(value.champion_id)))
                .push(("pickTurn"@, <i64>::encoded(value.pick_turn))),
        )
    }

    fn decode(json: &Json) -> (outcome: Result<Self, DecodeFailure>) {
        let champion_id = read_required::<i64>(json, "championId")?;
        let pick_turn = read_required::<i64>(json, "pickTurn")?;
        Ok(Ban { champion_id, pick_turn })
    }

    fn encode(&self) -> (json: Json) {
        let mut members = no_members();
        push_member::<i64>(&mut members, "championId", &self.champion_id);
        push_member::<i64>(&mut members, "pickTurn", &self.pick_turn);
        object_of(members)
    }
}

impl RoundTrip for Ban {
    proof fn lemma_round_trip(value: Ban) {
        let members = Self::encoded(value)->Object_0;
        reveal_strlit("championId");
        reveal_strlit("pickTurn");
        assert("championId"@.len() == 10);
        assert("pickTurn"@.len() == 8);
        lemma_lookup_unfolds();
        lemma_required_reads::<i64>(members, "championId"@, value.champion_id);
        lemma_required_reads::<i64>(members, "pickTurn"@, value.pick_turn);
    }
}

/// How a team fared on each kind of objective.
#[derive(Clone, Copy, Debug, PartialEq, Eq)]
pub struct Objectives {
    pub baron: Objective,
    pub champion: Objective,
    pub dragon: Objective,
    pub horde: Objective,
    pub inhibitor: Objective,
    pub rift_herald: Objective,
    pub tower: Objective,
}

impl DeepView for Objectives {
    type V = Objectives;

    open spec fn deep_view(&self) -> Objectives {
        *self
    }
}

impl Schema for Objectives {
    open spec fn decoded(json: JsonView) -> Result<Objectives, DecodeFailureView> {
        let baron = required::<Objective>(json, "baron"@);
        let champion = required::<Objective>(json, "champion"@);
        let dragon = required::<Objective>(json, "dragon"@);
        let horde = required::<Objective>(json, "horde"@);
        let inhibitor = required::<Objective>(json, "inhibitor"@);
        let rift_herald = required::<Objective>(json, "riftHerald"@);
        let tower = required::<Objective>(json, "tower"@);
        if baron is Err {
            Err(baron->Err_0)
        } else if champion is Err {
            Err(champion->Err_0)
        } else if dragon is Err {
            Err(dragon->Err_0)
        } else if horde is Err {
            Err(horde->Err_0)
        } else if inhibitor is Err {
            Err(inhibitor->Err_0)
        } else if rift_herald is Err {
            Err(rift_herald->Err_0)
        } else if tower is Err {
            Err(tower->Err_0)
        } else {
            Ok(
                Objectives {
                    baron: baron->Ok_0,
                    champion: champion->Ok_0,
                    dragon: dragon->Ok_0,
                    horde: horde->Ok_0,
                    inhibitor: inhibitor->Ok_0,
                    rift_herald: rift_herald->Ok_0,
                    tower: tower->Ok_0,
                },
            )
        }
    }

    open spec fn encoded(value: Objectives) -> JsonView {
        JsonView::Object(
            Seq::empty()
                .push(("baron"@, <Objective>::encoded(value.baron)))
                .push(("champion"@, <Objective>::encoded(value.champion)))
                .push(("dragon"@, <Objective>::encoded(value.dragon)))
                .push(("horde"@, <Objective>::encoded(value.horde)))
                .push(("inhibitor"@, <Objective>::encoded(value.inhibitor)))
                .push(("riftHerald"@, <Objective>::encoded(value.rift_herald)))
                .push(("tower"@, <Objective>::encoded(value.tower))),
        )
    }

    fn decode(json: &Json) -> (outcome: Result<Self, DecodeFailure>) {
        let baron = read_required::<Objective>(json, "baron")?;
        let champion = read_required::<Objective>(json, "champion")?;
        let dragon = read_required::<Objective>(json, "dragon")?;
        let horde = read_required::<Objective>(json, "horde")?;
        let inhibitor = read_required::<Objective>(json, "inhibitor")?;
        let rift_herald = read_required::<Objective>(json, "riftHerald")?;
        let tower = read_required::<Objective>(json, "tower")?;
        Ok(Objectives { baron, champion, dragon, horde, inhibitor, rift_herald, tower })
    }

    fn encode(&self) -> (json: Json) {
        let mut members = no_members();
        push_member::<Objective>(&mut members, "baron", &self.baron);
        push_member::<Objective>(&mut members, "champion", &self.champion);
        push_member::<Objective>(&mut members, "dragon", &self.dragon);
        push_member::<Objective>(&mut members, "horde", &self.horde);
        push_member::<Objective>(&mut members, "inhibitor", &self.inhibitor);
        push_member::<Objective>(&mut members, "riftHerald", &self.rift_herald);
        push_member::<Objective>(&mut members, "tower", &self.tower);
        object_of(members)
    }
}

impl RoundTrip for Objectives {
    proof fn lemma_round_trip(value: Objectives) {
        let members = Self::encoded(value)->Object_0;
        reveal_strlit("baron");
        reveal_strlit("champion");
        reveal_strlit("dragon");
        reveal_strlit("horde");
        reveal_strlit("inhibitor");
        reveal_strlit("riftHerald");
        reveal_strlit("tower");
        assert("baron"@.len() == 5 && "baron"@[0] == 'b');
        assert("champion"@.len() == 8);
        assert("dragon"@.len() == 6);
        assert("horde"@.len() == 5 && "horde"@[0] == 'h');
        assert("inhibitor"@.len() == 9);
        assert("riftHerald"@.len() == 10);
        assert("tower"@.len() == 5 && "tower"@[0] == 't');
        lemma_lookup_unfolds();
        lemma_required_reads::<Objective>(members, "baron"@, value.baron);
        lemma_required_reads::<Objective>(members, "champion"@, value.champion);
        lemma_required_reads::<Objective>(members, "dragon"@, value.dragon);
        lemma_required_reads::<Objective>(members, "horde"@, value.horde);
        lemma_required_reads::<Objective>(members, "inhibitor"@, value.inhibitor);
        lemma_required_reads::<Objective>(members, "riftHerald"@, value.rift_herald);
        lemma_required_reads::<Objective>(members, "tower"@, value.tower);
    }
}

/// How a team fared on one kind of objective.
#[derive(Clone, Copy, Debug, PartialEq, Eq)]
pub struct Objective {
    /// Whether the team took the first one.
    pub first: bool,
    pub kills: i64,
}

impl DeepView for Objective {
    type V = Objective;

    open spec fn deep_view(&self) -> Objective {
        *self
    }
}

impl Schema for Objective {
    open spec fn decoded(json: JsonView) -> Result<Objective, DecodeFailureView> {
        let first = required::<bool>(json, "first"@);
        let kills = required::<i64>(json, "kills"@);
        if first is Err {
            Err(first->Err_0)
        } else if kills is Err {
            Err(kills->Err_0)
        } else {
            Ok(
                Objective {
                    first: first->Ok_0,
                    kills: kills->Ok_0,
                },
            )
        }
    }

    open spec fn encoded(value: Objective) -> JsonView {
        JsonView::Object(
            Seq::empty()
                .push(("first"@, <bool>::encoded(value.first)))
                .push(("kills"@, <i64>::encoded(value.kills))),
        )
    }

    fn decode(json: &Json) -> (outcome: Result<Self, DecodeFailure>) {
        let first = read_required::<bool>(json, "first")?;
        let kills = read_required::<i64>(json, "kills")?;
        Ok(Objective { first, kills })
    }

    fn encode(&self) -> (json: Json) {
        let mut members = no_members();
        push_member::<bool>(&mut members, "first", &self.first);
        push_member::<i64>(&mut members, "kills", &self.kills);
        object_of(members)
    }
}

impl RoundTrip for Objective {
    proof fn lemma_round_trip(value: Objective) {
        let members = Self::encoded(value)->Object_0;
        reveal_strlit("first");
        reveal_strlit("kills");
        assert("first"@.len() == 5 && "first"@[0] == 'f');
        assert("kills"@.len() == 5 && "kills"@[0] == 'k');
        lemma_lookup_unfolds();
        lemma_required_reads::<bool>(members, "first"@, value.first);
        lemma_required_reads::<i64>(members, "kills"@, value.kills);
    }
}

/// The timeline of a match.
#[derive(Clone, Debug, PartialEq, Eq)]
pub struct Timeline {
    pub metadata: MetadataTimeline,
    pub info: InfoTimeline,
}

/// The timeline of a match, as plain data.
pub struct TimelineView {
    pub metadata: MetadataTimelineView,
    pub info: InfoTimelineView,
}

impl DeepView for Timeline {
    type V = TimelineView;

    open spec fn deep_view(&self) -> TimelineView {
        TimelineView {
            metadata: self.metadata.deep_view(),
            info: self.info.deep_view(),
        }
    }
}

impl Schema for Timeline {
    open spec fn decoded(json: JsonView) -> Result<TimelineView, DecodeFailureView> {
        let metadata = required::<MetadataTimeline>(json, "metadata"@);
        let info = required::<InfoTimeline>(json, "info"@);
        if metadata is Err {
            Err(metadata->Err_0)
        } else if info is Err {
            Err(info->Err_0)
        } else {
            Ok(
                TimelineView {
                    metadata: metadata->Ok_0,
                    info: info->Ok_0,
                },
            )
        }
    }

    open spec fn encoded(value: TimelineView) -> JsonView {
        JsonView::Object(
            Seq::empty()
                .push(("metadata"@, <MetadataTimeline>::encoded(value.metadata)))
                .push(("info"@, <InfoTimeline>::encoded(value.info))),
        )
    }

    fn decode(json: &Json) -> (outcome: Result<Self, DecodeFailure>) {
        let metadata = read_required::<MetadataTimeline>(json, "metadata")?;
        let info = read_required::<InfoTimeline>(json, "info")?;
        Ok(Timeline { metadata, info })
    }

    fn encode(&self) -> (json: Json) {
        let mut members = no_members();
        push_member::<MetadataTimeline>(&mut members, "metadata", &self.metadata);
        push_member::<InfoTimeline>(&mut members, "info", &self.info);
        object_of(members)
    }
}

impl RoundTrip for Timeline {
    proof fn lemma_round_trip(value: TimelineView) {
        let members = Self::encoded(value)->Object_0;
        reveal_strlit("metadata");
        reveal_strlit("info");
        assert("metadata"@.len() == 8);
        assert("info"@.len() == 4);
        lemma_lookup_unfolds();
        lemma_required_reads::<MetadataTimeline>(members, "metadata"@, value.metadata);
        lemma_required_reads::<InfoTimeline>(members, "info"@, value.info);
    }
}

/// What identifies the match that a timeline belongs to.
#[derive(Clone, Debug, PartialEq, Eq)]
pub struct MetadataTimeline {
    pub data_version: String,
    pub match_id: String,
    /// The player identifiers of the participants.
    pub participants: Vec<String>,
}

/// What identifies the match that a timeline belongs to, as plain data.
pub struct MetadataTimelineView {
    pub data_version: Seq<char>,
    pub match_id: Seq<char>,
    pub participants: Seq<Seq<char>>,
}

impl DeepView for MetadataTimeline {
    type V = MetadataTimelineView;

    open spec fn deep_view(&self) -> MetadataTimelineView {
        MetadataTimelineView {
            data_version: self.data_version.deep_view(),
            match_id: self.match_id.deep_view(),
            participants: self.participants.deep_view(),
        }
    }
}

impl Schema for MetadataTimeline {
    open spec fn decoded(json: JsonView) -> Result<MetadataTimelineView, DecodeFailureView> {
        let data_version = required::<String>(json, "dataVersion"@);
        let match_id = required::<String>(json, "matchId"@);
        let participants = required::<Vec<String>>(json, "participants"@);
        if data_version is Err {
            Err(data_version->Err_0)
        } else if match_id is Err {
            Err(match_id->Err_0)
        } else if participants is Err {
            Err(participants->Err_0)
        } else {
            Ok(
                MetadataTimelineView {
                    data_version: data_version->Ok_0,
                    match_id: match_id->Ok_0,
                    participants: participants->Ok_0,
                },
            )
        }
    }

    open spec fn encoded(value: MetadataTimelineView) -> JsonView {
        JsonView::Object(
            Seq::empty()
                .push(("dataVersion"@, <String>::encoded(value.data_version)))
                .push(("matchId"@, <String>::encoded(value.match_id)))
                .push(("participants"@, <Vec<String>>::encoded(value.participants))),
        )
    }

    fn decode(json: &Json) -> (outcome: Result<Self, DecodeFailure>) {
        let data_version = read_required::<String>(json, "dataVersion")?;
        let match_id = read_required::<String>(json, "matchId")?;
        let participants = read_required::<Vec<String>>(json, "participants")?;
        Ok(MetadataTimeline { data_version, match_id, participants })
    }

    fn encode(&self) -> (json: Json) {
        let mut members = no_members();
        push_member::<String>(&mut members, "dataVersion", &self.data_version);
        push_member::<String>(&mut members, "matchId", &self.match_id);
        push_member::<Vec<String>>(&mut members, "participants", &self.participants);
        object_of(members)
    }
}

impl RoundTrip for MetadataTimeline {
    proof fn lemma_round_trip(value: MetadataTimelineView) {
        let members = Self::encoded(value)->Object_0;
        reveal_strlit("dataVersion");
        reveal_strlit("matchId");
        reveal_strlit("participants");
        assert("dataVersion"@.len() == 11);
        assert("matchId"@.len() == 7);
        assert("participants"@.len() == 12);
        lemma_lookup_unfolds();
        lemma_required_reads::<String>(members, "dataVersion"@, value.data_version);
        lemma_required_reads::<String>(members, "matchId"@, value.match_id);
        lemma_required_reads::<Vec<String>>(members, "participants"@, value.participants);
    }
}

/// The frames of a timeline and what they are spaced by.
#[derive(Clone, Debug, PartialEq, Eq)]
pub struct InfoTimeline {
    pub end_of_game_result: String,
    /// The time between two frames, in milliseconds.
    pub frame_interval: u64,
    pub game_id: u64,
    pub participants: Vec<ParticipantTimeline>,
    pub frames: Vec<FramesTimeline>,
}

/// The frames of a timeline and what they are spaced by, as plain data.
pub struct InfoTimelineView {
    pub end_of_game_result: Seq<char>,
    pub frame_interval: u64,
    pub game_id: u64,
    pub participants: Seq<ParticipantTimelineView>,
    pub frames: Seq<FramesTimelineView>,
}

impl DeepView for InfoTimeline {
    type V = InfoTimelineView;

    open spec fn deep_view(&self) -> InfoTimelineView {
        InfoTimelineView {
            end_of_game_result: self.end_of_game_result.deep_view(),
            frame_interval: self.frame_interval.deep_view(),
            game_id: self.game_id.deep_view(),
            participants: self.participants.deep_view(),
            frames: self.frames.deep_view(),
        }
    }
}

impl Schema for InfoTimeline {
    open spec fn decoded(json: JsonView) -> Result<InfoTimelineView, DecodeFailureView> {
        let end_of_game_result = required::<String>(json, "endOfGameResult"@);
        let frame_interval = required::<u64>(json, "frameInterval"@);
        let game_id = required::<u64>(json, "gameId"@);
        let participants = required::<Vec<ParticipantTimeline>>(json, "participants"@);
        let frames = required::<Vec<FramesTimeline>>(json, "frames"@);
        if end_of_game_result is Err {
            Err(end_of_game_result->Err_0)
        } else if frame_interval is Err {
            Err(frame_interval->Err_0)
        } else if game_id is Err {
            Err(game_id->Err_0)
        } else if participants is Err {
            Err(participants->Err_0)
        } else if frames is Err {
            Err(frames->Err_0)
        } else {
            Ok(
                InfoTimelineView {
                    end_of_game_result: end_of_game_result->Ok_0,
                    frame_interval: frame_interval->Ok_0,
                    game_id: game_id->Ok_0,
                    participants: participants->Ok_0,
                    frames: frames->Ok_0,
                },
            )
        }
    }

    open spec fn encoded(value: InfoTimelineView) -> JsonView {
        JsonView::Object(
            Seq::empty()
                .push(("endOfGameResult"@, <String>::encoded(value.end_of_game_result)))
                .push(("frameInterval"@, <u64>::encoded(value.frame_interval)))
                .push(("gameId"@, <u64>::encoded(value.game_id)))
                .push(("participants"@, <Vec<ParticipantTimeline>>::encoded(value.participants)))
                .push(("frames"@, <Vec<FramesTimeline>>::encoded(value.frames))),
        )
    }

    fn decode(json: &Json) -> (outcome: Result<Self, DecodeFailure>) {
        let end_of_game_result = read_required::<String>(json, "endOfGameResult")?;
        let frame_interval = read_required::<u64>(json, "frameInterval")?;
        let game_id = read_required::<u64>(json, "gameId")?;
        let participants = read_required::<Vec<ParticipantTimeline>>(json, "participants")?;
        let frames = read_required::<Vec<FramesTimeline>>(json, "frames")?;
        Ok(InfoTimeline { end_of_game_result, frame_interval, game_id, participants, frames })
    }

    fn encode(&self) -> (json: Json) {
        let mut members = no_members();
        push_member::<String>(&mut members, "endOfGameResult", &self.end_of_game_result);
        push_member::<u64>(&mut members, "frameInterval", &self.frame_interval);
        push_member::<u64>(&mut members, "gameId", &self.game_id);
        push_member::<Vec<ParticipantTimeline>>(&mut members, "participants", &self.participants);
        push_member::<Vec<FramesTimeline>>(&mut members, "frames", &self.frames);
        object_of(members)
    }
}

impl RoundTrip for InfoTimeline {
    proof fn lemma_round_trip(value: InfoTimelineView) {
        let members = Self::encoded(value)->Object_0;
        reveal_strlit("endOfGameResult");
        reveal_strlit("frameInterval");
        reveal_strlit("gameId");
        reveal_strlit("participants");
        reveal_strlit("frames");
        assert("endOfGameResult"@.len() == 15);
        assert("frameInterval"@.len() == 13);
        assert("gameId"@.len() == 6 && "gameId"@[0] == 'g');
        assert("participants"@.len() == 12);
        assert("frames"@.len() == 6 && "frames"@[0] == 'f');
        lemma_lookup_unfolds();
        lemma_required_reads::<String>(members, "endOfGameResult"@, value.end_of_game_result);
        lemma_required_reads::<u64>(members, "frameInterval"@, value.frame_interval);
        lemma_required_reads::<u64>(members, "gameId"@, value.game_id);
        lemma_required_reads::<Vec<ParticipantTimeline>>(
            members,
            "participants"@,
            value.participants,
        );
        lemma_required_reads::<Vec<FramesTimeline>>(members, "frames"@, value.frames);
    }
}

/// The number under which a timeline speaks of a player.
#[derive(Clone, Debug, PartialEq, Eq)]
pub struct ParticipantTimeline {
    pub participant_id: i64,
    pub puuid: String,
}

/// The number under which a timeline speaks of a player, as plain data.
pub struct ParticipantTimelineView {
    pub participant_id: i64,
    pub puuid: Seq<char>,
}

impl DeepView for ParticipantTimeline {
    type V = ParticipantTimelineView;

    open spec fn deep_view(&self) -> ParticipantTimelineView {
        ParticipantTimelineView {
            participant_id: self.participant_id.deep_view(),
            puuid: self.puuid.deep_view(),
        }
    }
}

impl Schema for ParticipantTimeline {
    open spec fn decoded(json: JsonView) -> Result<ParticipantTimelineView, DecodeFailureView> {
        let participant_id = required::<i64>(json, "participantId"@);
        let puuid = required::<String>(json, "puuid"@);
        if participant_id is Err {
            Err(participant_id->Err_0)
        } else if puuid is Err {
            Err(puuid->Err_0)
        } else {
            Ok(
                ParticipantTimelineView {
                    participant_id: participant_id->Ok_0,
                    puuid: puuid->Ok_0,
                },
            )
        }
    }

    open spec fn encoded(value: ParticipantTimelineView) -> JsonView {
        JsonView::Object(
            Seq::empty()
                .push(("participantId"@, <i64>::encoded(value.participant_id)))
                .push(("puuid"@, <String>::encoded(value.puuid))),
        )
    }

    fn decode(json: &Json) -> (outcome: Result<Self, DecodeFailure>) {
        let participant_id = read_required::<i64>(json, "participantId")?;
        let puuid = read_required::<String>(json, "puuid")?;
        Ok(ParticipantTimeline { participant_id, puuid })
    }

    fn encode(&self) -> (json: Json) {
        let mut members = no_members();
        push_member::<i64>(&mut members, "participantId", &self.participant_id);
        push_member::<String>(&mut members, "puuid", &self.puuid);
        object_of(members)
    }
}

impl RoundTrip for ParticipantTimeline {
    proof fn lemma_round_trip(value: ParticipantTimelineView) {
        let members = Self::encoded(value)->Object_0;
        reveal_strlit("participantId");
        reveal_strlit("puuid");
        assert("participantId"@.len() == 13);
        assert("puuid"@.len() == 5);
        lemma_lookup_unfolds();
        lemma_required_reads::<i64>(members, "participantId"@, value.participant_id);
        lemma_required_reads::<String>(members, "puuid"@, value.puuid);
    }
}

/// A frame of a timeline: the events since the frame before, and the state of each participant.
#[derive(Clone, Debug, PartialEq, Eq)]
pub struct FramesTimeline {
    pub events: Vec<EventsTimeline>,
    pub participant_frames: ParticipantFrames,
    pub timestamp: i64,
}

/// A frame of a timeline: the events since the frame before, and the state of each participant, as plain data.
pub struct FramesTimelineView {
    pub events: Seq<EventsTimelineView>,
    pub participant_frames: ParticipantFrames,
    pub timestamp: i64,
}

impl DeepView for FramesTimeline {
    type V = FramesTimelineView;

    open spec fn deep_view(&self) -> FramesTimelineView {
        FramesTimelineView {
            events: self.events.deep_view(),
            participant_frames: self.participant_frames.deep_view(),
            timestamp: self.timestamp.deep_view(),
        }
    }
}

impl Schema for FramesTimeline {
    open spec fn decoded(json: JsonView) -> Result<FramesTimelineView, DecodeFailureView> {
        let events = required::<Vec<EventsTimeline>>(json, "events"@);
        let participant_frames = required::<ParticipantFrames>(json, "participantFrames"@);
        let timestamp = required::<i64>(json, "timestamp"@);
        if events is Err {
            Err(events->Err_0)
        } else if participant_frames is Err {
            Err(participant_frames->Err_0)
        } else if timestamp is Err {
            Err(timestamp->Err_0)
        } else {
            Ok(
                FramesTimelineView {
                    events: events->Ok_0,
                    participant_frames: participant_frames->Ok_0,
                    timestamp: timestamp->Ok_0,
                },
            )
        }
    }

    open spec fn encoded(value: FramesTimelineView) -> JsonView {
        JsonView::Object(
            Seq::empty()
                .push(("events"@, <Vec<EventsTimeline>>::encoded(value.events)))
                .push(
                    (
                        "participantFrames"@,
                        <ParticipantFrames>::encoded(value.participant_frames),
                    ),
                )
                .push(("timestamp"@, <i64>::encoded(value.timestamp))),
        )
    }

    fn decode(json: &Json) -> (outcome: Result<Self, DecodeFailure>) {
        let events = read_required::<Vec<EventsTimeline>>(json, "events")?;
        let participant_frames = read_required::<ParticipantFrames>(json, "participantFrames")?;
        let timestamp = read_required::<i64>(json, "timestamp")?;
        Ok(FramesTimeline { events, participant_frames, timestamp })
    }

    fn encode(&self) -> (json: Json) {
        let mut members = no_members();
        push_member::<Vec<EventsTimeline>>(&mut members, "events", &self.events);
        push_member::<ParticipantFrames>(
            &mut members,
            "participantFrames",
            &self.participant_frames,
        );
        push_member::<i64>(&mut members, "timestamp", &self.timestamp);
        object_of(members)
    }
}

impl RoundTrip for FramesTimeline {
    proof fn lemma_round_trip(value: FramesTimelineView) {
        let members = Self::encoded(value)->Object_0;
        reveal_strlit("events");
        reveal_strlit("participantFrames");
        reveal_strlit("timestamp");
        assert("events"@.len() == 6);
        assert("participantFrames"@.len() == 17);
        assert("timestamp"@.len() == 9);
        lemma_lookup_unfolds();
        lemma_required_reads::<Vec<EventsTimeline>>(members, "events"@, value.events);
        lemma_required_reads::<ParticipantFrames>(
            members,
            "participantFrames"@,
            value.participant_frames,
        );
        lemma_required_reads::<i64>(members, "timestamp"@, value.timestamp);
    }
}

/// A discrete event in a frame of a timeline.
#[derive(Clone, Debug, PartialEq, Eq)]
pub struct EventsTimeline {
    pub timestamp: u64,
    pub real_timestamp: u64,
    pub event_type: String,
}

/// A discrete event in a frame of a timeline, as plain data.
pub struct EventsTimelineView {
    pub timestamp: u64,
    pub real_timestamp: u64,
    pub event_type: Seq<char>,
}

impl DeepView for EventsTimeline {
    type V = EventsTimelineView;

    open spec fn deep_view(&self) -> EventsTimelineView {
        EventsTimelineView {
            timestamp: self.timestamp.deep_view(),
            real_timestamp: self.real_timestamp.deep_view(),
            event_type: self.event_type.deep_view(),
        }
    }
}

impl Schema for EventsTimeline {
    open spec fn decoded(json: JsonView) -> Result<EventsTimelineView, DecodeFailureView> {
        let timestamp = required::<u64>(json, "timestamp"@);
        let real_timestamp = required::<u64>(json, "realTimestamp"@);
        let event_type = required::<String>(json, "type"@);
        if timestamp is Err {
            Err(timestamp->Err_0)
        } else if real_timestamp is Err {
            Err(real_timestamp->Err_0)
        } else if event_type is Err {
            Err(event_type->Err_0)
        } else {
            Ok(
                EventsTimelineView {
                    timestamp: timestamp->Ok_0,
                    real_timestamp: real_timestamp->Ok_0,
                    event_type: event_type->Ok_0,
                },
            )
        }
    }

    open spec fn encoded(value: EventsTimelineView) -> JsonView {
        JsonView::Object(
            Seq::empty()
                .push(("timestamp"@, <u64>::encoded(value.timestamp)))
                .push(("realTimestamp"@, <u64>::encoded(value.real_timestamp)))
                .push(("type"@, <String>::encoded(value.event_type))),
        )
    }

    fn decode(json: &Json) -> (outcome: Result<Self, DecodeFailure>) {
        let timestamp = read_required::<u64>(json, "timestamp")?;
        let real_timestamp = read_required::<u64>(json, "realTimestamp")?;
        let event_type = read_required::<String>(json, "type")?;
        Ok(EventsTimeline { timestamp, real_timestamp, event_type })
    }

    fn encode(&self) -> (json: Json) {
        let mut members = no_members();
        push_member::<u64>(&mut members, "timestamp", &self.timestamp);
        push_member::<u64>(&mut members, "realTimestamp", &self.real_timestamp);
        push_member::<String>(&mut members, "type", &self.event_type);
        object_of(members)
    }
}

impl RoundTrip for EventsTimeline {
    proof fn lemma_round_trip(value: EventsTimelineView) {
        let members = Self::encoded(value)->Object_0;
        reveal_strlit("timestamp");
        reveal_strlit("realTimestamp");
        reveal_strlit("type");
        assert("timestamp"@.len() == 9);
        assert("realTimestamp"@.len() == 13);
        assert("type"@.len() == 4);
        lemma_lookup_unfolds();
        lemma_required_reads::<u64>(members, "timestamp"@, value.timestamp);
        lemma_required_reads::<u64>(members, "realTimestamp"@, value.real_timestamp);
        lemma_required_reads::<String>(members, "type"@, value.event_type);
    }
}

/// The states of the participants in a frame of a timeline.
#[derive(Clone, Copy, Debug, PartialEq, Eq)]
pub struct ParticipantFrames {
    pub one: ParticipantFrame,
    pub two: ParticipantFrame,
    pub three: ParticipantFrame,
    pub four: ParticipantFrame,
    pub five: ParticipantFrame,
    pub six: ParticipantFrame,
    pub seven: ParticipantFrame,
    pub eight: ParticipantFrame,
    pub nine: ParticipantFrame,
}

impl DeepView for ParticipantFrames {
    type V = ParticipantFrames;

    open spec fn deep_view(&self) -> ParticipantFrames {
        *self
    }
}

impl Schema for ParticipantFrames {
    open spec fn decoded(json: JsonView) -> Result<ParticipantFrames, DecodeFailureView> {
        let one = required::<ParticipantFrame>(json, "one"@);
        let two = required::<ParticipantFrame>(json, "two"@);
        let three = required::<ParticipantFrame>(json, "three"@);
        let four = required::<ParticipantFrame>(json, "four"@);
        let five = required::<ParticipantFrame>(json, "five"@);
        let six = required::<ParticipantFrame>(json, "six"@);
        let seven = required::<ParticipantFrame>(json, "seven"@);
        let eight = required::<ParticipantFrame>(json, "eight"@);
        let nine = required::<ParticipantFrame>(json, "nine"@);
        if one is Err {
            Err(one->Err_0)
        } else if two is Err {
            Err(two->Err_0)
        } else if three is Err {
            Err(three->Err_0)
        } else if four is Err {
            Err(four->Err_0)
        } else if five is Err {
            Err(five->Err_0)
        } else if six is Err {
            Err(six->Err_0)
        } else if seven is Err {
            Err(seven->Err_0)
        } else if eight is Err {
            Err(eight->Err_0)
        } else if nine is Err {
            Err(nine->Err_0)
        } else {
            Ok(
                ParticipantFrames {
                    one: one->Ok_0,
                    two: two->Ok_0,
                    three: three->Ok_0,
                    four: four->Ok_0,
                    five: five->Ok_0,
                    six: six->Ok_0,
                    seven: seven->Ok_0,
                    eight: eight->Ok_0,
                    nine: nine->Ok_0,
                },
            )
        }
    }

    open spec fn encoded(value: ParticipantFrames) -> JsonView {
        JsonView::Object(
            Seq::empty()
                .push(("one"@, <ParticipantFrame>::encoded(value.one)))
                .push(("two"@, <ParticipantFrame>::encoded(value.two)))
                .push(("three"@, <ParticipantFrame>::encoded(value.three)))
                .push(("four"@, <ParticipantFrame>::encoded(value.four)))
                .push(("five"@, <ParticipantFrame>::encoded(value.five)))
                .push(("six"@, <ParticipantFrame>::encoded(value.six)))
                .push(("seven"@, <ParticipantFrame>::encoded(value.seven)))
                .push(("eight"@, <ParticipantFrame>::encoded(value.eight)))
                .push(("nine"@, <ParticipantFrame>::encoded(value.nine))),
        )
    }

    fn decode(json: &Json) -> (outcome: Result<Self, DecodeFailure>) {
        let one = read_required::<ParticipantFrame>(json, "one")?;
        let two = read_required::<ParticipantFrame>(json, "two")?;
        let three = read_required::<ParticipantFrame>(json, "three")?;
        let four = read_required::<ParticipantFrame>(json, "four")?;
        let five = read_required::<ParticipantFrame>(json, "five")?;
        let six = read_required::<ParticipantFrame>(json, "six")?;
        let seven = read_required::<ParticipantFrame>(json, "seven")?;
        let eight = read_required::<ParticipantFrame>(json, "eight")?;
        let nine = read_required::<ParticipantFrame>(json, "nine")?;
        Ok(ParticipantFrames { one, two, three, four, five, six, seven, eight, nine })
    }

    fn encode(&self) -> (json: Json) {
        let mut members = no_members();
        push_member::<ParticipantFrame>(&mut members, "one", &self.one);
        push_member::<ParticipantFrame>(&mut members, "two", &self.two);
        push_member::<ParticipantFrame>(&mut members, "three", &self.three);
        push_member::<ParticipantFrame>(&mut members, "four", &self.four);
        push_member::<ParticipantFrame>(&mut members, "five", &self.five);
        push_member::<ParticipantFrame>(&mut members, "six", &self.six);
        push_member::<ParticipantFrame>(&mut members, "seven", &self.seven);
        push_member::<ParticipantFrame>(&mut members, "eight", &self.eight);
        push_member::<ParticipantFrame>(&mut members, "nine", &self.nine);
        object_of(members)
    }
}

impl RoundTrip for ParticipantFrames {
    proof fn lemma_round_trip(value: ParticipantFrames) {
        let members = Self::encoded(value)->Object_0;
        reveal_strlit("one");
        reveal_strlit("two");
        reveal_strlit("three");
        reveal_strlit("four");
        reveal_strlit("five");
        reveal_strlit("six");
        reveal_strlit("seven");
        reveal_strlit("eight");
        reveal_strlit("nine");
        assert("one"@.len() == 3 && "one"@[0] == 'o');
        assert("two"@.len() == 3 && "two"@[0] == 't');
        assert("three"@.len() == 5 && "three"@[0] == 't');
        assert("four"@.len() == 4 && "four"@[0] == 'f' && "four"@[1] == 'o');
        assert("five"@.len() == 4 && "five"@[0] == 'f' && "five"@[1] == 'i');
        assert("six"@.len() == 3 && "six"@[0] == 's');
        assert("seven"@.len() == 5 && "seven"@[0] == 's');
        assert("eight"@.len() == 5 && "eight"@[0] == 'e');
        assert("nine"@.len() == 4 && "nine"@[0] == 'n');
        lemma_lookup_unfolds();
        lemma_required_reads::<ParticipantFrame>(members, "one"@, value.one);
        lemma_required_reads::<ParticipantFrame>(members, "two"@, value.two);
        lemma_required_reads::<ParticipantFrame>(members, "three"@, value.three);
        lemma_required_reads::<ParticipantFrame>(members, "four"@, value.four);
        lemma_required_reads::<ParticipantFrame>(members, "five"@, value.five);
        lemma_required_reads::<ParticipantFrame>(members, "six"@, value.six);
        lemma_required_reads::<ParticipantFrame>(members, "seven"@, value.seven);
        lemma_required_reads::<ParticipantFrame>(members, "eight"@, value.eight);
        lemma_required_reads::<ParticipantFrame>(members, "nine"@, value.nine);
    }
}

/// The state of one participant in a frame of a timeline.
#[derive(Clone, Copy, Debug, PartialEq, Eq)]
pub struct ParticipantFrame {
    pub champion_stats: ChampionStats,
    pub current_gold: i64,
    pub damage_stats: DamageStats,
    pub gold_per_second: i64,
    pub jungle_minions_killed: i64,
    pub level: i64,
    pub minions_killed: i64,
    pub participant_id: i64,
    pub position: Position,
    pub time_enemy_spent_controlled: i64,
    pub total_gold: i64,
    pub xp: i64,
}

impl DeepView for ParticipantFrame {
    type V = ParticipantFrame;

    open spec fn deep_view(&self) -> ParticipantFrame {
        *self
    }
}

impl Schema for ParticipantFrame {
    open spec fn decoded(json: JsonView) -> Result<ParticipantFrame, DecodeFailureView> {
        let champion_stats = required::<ChampionStats>(json, "championStats"@);
        let current_gold = required::<i64>(json, "currentGold"@);
        let damage_stats = required::<DamageStats>(json, "damageStats"@);
        let gold_per_second = required::<i64>(json, "goldPerSecond"@);
        let jungle_minions_killed = required::<i64>(json, "jungleMinionsKilled"@);
        let level = required::<i64>(json, "level"@);
        let minions_killed = required::<i64>(json, "minionsKilled"@);
        let participant_id = required::<i64>(json, "participantId"@);
        let position = required::<Position>(json, "position"@);
        let time_enemy_spent_controlled = required::<i64>(json, "timeEnemySpentControlled"@);
        let total_gold = required::<i64>(json, "totalGold"@);
        let xp = required::<i64>(json, "xp"@);
        if champion_stats is Err {
            Err(champion_stats->Err_0)
        } else if current_gold is Err {
            Err(current_gold->Err_0)
        } else if damage_stats is Err {
            Err(damage_stats->Err_0)
        } else if gold_per_second is Err {
            Err(gold_per_second->Err_0)
        } else if jungle_minions_killed is Err {
            Err(jungle_minions_killed->Err_0)
        } else if level is Err {
            Err(level->Err_0)
        } else if minions_killed is Err {
            Err(minions_killed->Err_0)
        } else if participant_id is Err {
            Err(participant_id->Err_0)
        } else if position is Err {
            Err(position->Err_0)
        } else if time_enemy_spent_controlled is Err {
            Err(time_enemy_spent_controlled->Err_0)
        } else if total_gold is Err {
            Err(total_gold->Err_0)
        } else if xp is Err {
            Err(xp->Err_0)
        } else {
            Ok(
                ParticipantFrame {
                    champion_stats: champion_stats->Ok_0,
                    current_gold: current_gold->Ok_0,
                    damage_stats: damage_stats->Ok_0,
                    gold_per_second: gold_per_second->Ok_0,
                    jungle_minions_killed: jungle_minions_killed->Ok_0,
                    level: level->Ok_0,
                    minions_killed: minions_killed->Ok_0,
                    participant_id: participant_id->Ok_0,
                    position: position->Ok_0,
                    time_enemy_spent_controlled: time_enemy_spent_controlled->Ok_0,
                    total_gold: total_gold->Ok_0,
                    xp: xp->Ok_0,
                },
            )
        }
    }

    open spec fn encoded(value: ParticipantFrame) -> JsonView {
        JsonView::Object(
            Seq::empty()
                .push(("championStats"@, <ChampionStats>::encoded(value.champion_stats)))
                .push(("currentGold"@, <i64>::encoded(value.current_gold)))
                .push(("damageStats"@, <DamageStats>::encoded(value.damage_stats)))
                .push(("goldPerSecond"@, <i64>::encoded(value.gold_per_second)))
                .push(("jungleMinionsKilled"@, <i64>::encoded(value.jungle_minions_killed)))
                .push(("level"@, <i64>::encoded(value.level)))
                .push(("minionsKilled"@, <i64>::encoded(value.minions_killed)))
                .push(("participantId"@, <i64>::encoded(value.participant_id)))
                .push(("position"@, <Position>::encoded(value.position)))
                .push(
                    (
                        "timeEnemySpentControlled"@,
                        <i64>::encoded(value.time_enemy_spent_controlled),
                    ),
                )
                .push(("totalGold"@, <i64>::encoded(value.total_gold)))
                .push(("xp"@, <i64>::encoded(value.xp))),
        )
    }

    fn decode(json: &Json) -> (outcome: Result<Self, DecodeFailure>) {
        let champion_stats = read_required::<ChampionStats>(json, "championStats")?;
        let current_gold = read_required::<i64>(json, "currentGold")?;
        let damage_stats = read_required::<DamageStats>(json, "damageStats")?;
        let gold_per_second = read_required::<i64>(json, "goldPerSecond")?;
        let jungle_minions_killed = read_required::<i64>(json, "jungleMinionsKilled")?;
        let level = read_required::<i64>(json, "level")?;
        let minions_killed = read_required::<i64>(json, "minionsKilled")?;
        let participant_id = read_required::<i64>(json, "participantId")?;
        let position = read_required::<Position>(json, "position")?;
        let time_enemy_spent_controlled = read_required::<i64>(json, "timeEnemySpentControlled")?;
        let total_gold = read_required::<i64>(json, "totalGold")?;
        let xp = read_required::<i64>(json, "xp")?;
        Ok(
            ParticipantFrame {
                champion_stats,
                current_gold,
                damage_stats,
                gold_per_second,
                jungle_minions_killed,
                level,
                minions_killed,
                participant_id,
                position,
                time_enemy_spent_controlled,
                total_gold,
                xp,
            },
        )
    }

    fn encode(&self) -> (json: Json) {
        let mut members = no_members();
        push_member::<ChampionStats>(&mut members, "championStats", &self.champion_stats);
        push_member::<i64>(&mut members, "currentGold", &self.current_gold);
        push_member::<DamageStats>(&mut members, "damageStats", &self.damage_stats);
        push_member::<i64>(&mut members, "goldPerSecond", &self.gold_per_second);
        push_member::<i64>(&mut members, "jungleMinionsKilled", &self.jungle_minions_killed);
        push_member::<i64>(&mut members, "level", &self.level);
        push_member::<i64>(&mut members, "minionsKilled", &self.minions_killed);
        push_member::<i64>(&mut members, "participantId", &self.participant_id);
        push_member::<Position>(&mut members, "position", &self.position);
        push_member::<i64>(
            &mut members,
            "timeEnemySpentControlled",
            &self.time_enemy_spent_controlled,
        );
        push_member::<i64>(&mut members, "totalGold", &self.total_gold);
        push_member::<i64>(&mut members, "xp", &self.xp);
        object_of(members)
    }
}

impl RoundTrip for ParticipantFrame {
    proof fn lemma_round_trip(value: ParticipantFrame) {
        let members = Self::encoded(value)->Object_0;
        reveal_strlit("championStats");
        reveal_strlit("currentGold");
        reveal_strlit("damageStats");
        reveal_strlit("goldPerSecond");
        reveal_strlit("jungleMinionsKilled");
        reveal_strlit("level");
        reveal_strlit("minionsKilled");
        reveal_strlit("participantId");
        reveal_strlit("position");
        reveal_strlit("timeEnemySpentControlled");
        reveal_strlit("totalGold");
        reveal_strlit("xp");
        assert("championStats"@.len() == 13 && "championStats"@[0] == 'c');
        assert("currentGold"@.len() == 11 && "currentGold"@[0] == 'c');
        assert("damageStats"@.len() == 11 && "damageStats"@[0] == 'd');
        assert("goldPerSecond"@.len() == 13 && "goldPerSecond"@[0] == 'g');
        assert("jungleMinionsKilled"@.len() == 19);
        assert("level"@.len() == 5);
        assert("minionsKilled"@.len() == 13 && "minionsKilled"@[0] == 'm');
        assert("participantId"@.len() == 13 && "participantId"@[0] == 'p');
        assert("position"@.len() == 8);
        assert("timeEnemySpentControlled"@.len() == 24);
        assert("totalGold"@.len() == 9);
        assert("xp"@.len() == 2);
        lemma_lookup_unfolds();
        lemma_required_reads::<ChampionStats>(members, "championStats"@, value.champion_stats);
        lemma_required_reads::<i64>(members, "currentGold"@, value.current_gold);
        lemma_required_reads::<DamageStats>(members, "damageStats"@, value.damage_stats);
        lemma_required_reads::<i64>(members, "goldPerSecond"@, value.gold_per_second);
        lemma_required_reads::<i64>(members, "jungleMinionsKilled"@, value.jungle_minions_killed);
        lemma_required_reads::<i64>(members, "level"@, value.level);
        lemma_required_reads::<i64>(members, "minionsKilled"@, value.minions_killed);
        lemma_required_reads::<i64>(members, "participantId"@, value.participant_id);
        lemma_required_reads::<Position>(members, "position"@, value.position);
        lemma_required_reads::<i64>(
            members,
            "timeEnemySpentControlled"@,
            value.time_enemy_spent_controlled,
        );
        lemma_required_reads::<i64>(members, "totalGold"@, value.total_gold);
        lemma_required_reads::<i64>(members, "xp"@, value.xp);
    }
}

/// The stats of a champion at one moment of a match.
#[derive(Clone, Copy, Debug, PartialEq, Eq)]
pub struct ChampionStats {
    pub ability_haste: i64,
    pub ability_power: i64,
    pub armor: i64,
    pub armor_pen: i64,
    pub armor_pen_percent: i64,
    pub attack_damage: i64,
    pub attack_speed: i64,
    pub bonus_armor_pen_percent: i64,
    pub bonus_magic_pen_percent: i64,
    pub cc_reduction: i64,
    pub cooldown_reduction: i64,
    pub health: i64,
    pub health_max: i64,
    pub health_regen: i64,
    pub lifesteal: i64,
    pub magic_pen: i64,
    pub magic_pen_percent: i64,
    pub magic_resist: i64,
    pub movement_speed: i64,
    pub omnivamp: i64,
    pub physical_vammp: i64,
    pub power: i64,
    pub power_max: i64,
    pub power_regen: i64,
    pub spell_vamp: i64,
}

impl DeepView for ChampionStats {
    type V = ChampionStats;

    open spec fn deep_view(&self) -> ChampionStats {
        *self
    }
}

impl Schema for ChampionStats {
    open spec fn decoded(json: JsonView) -> Result<ChampionStats, DecodeFailureView> {
        let ability_haste = required::<i64>(json, "abilityHaste"@);
        let ability_power = required::<i64>(json, "abilityPower"@);
        let armor = required::<i64>(json, "armor"@);
        let armor_pen = required::<i64>(json, "armorPen"@);
        let armor_pen_percent = required::<i64>(json, "armorPenPercent"@);
        let attack_damage = required::<i64>(json, "attackDamage"@);
        let attack_speed = required::<i64>(json, "attackSpeed"@);
        let bonus_armor_pen_percent = required::<i64>(json, "bonusArmorPenPercent"@);
        let bonus_magic_pen_percent = required::<i64>(json, "bonusMagicPenPercent"@);
        let cc_reduction = required::<i64>(json, "ccReduction"@);
        let cooldown_reduction = required::<i64>(json, "cooldownReduction"@);
        let health = required::<i64>(json, "health"@);
        let health_max = required::<i64>(json, "healthMax"@);
        let health_regen = required::<i64>(json, "healthRegen"@);
        let lifesteal = required::<i64>(json, "lifesteal"@);
        let magic_pen = required::<i64>(json, "magicPen"@);
        let magic_pen_percent = required::<i64>(json, "magicPenPercent"@);
        let magic_resist = required::<i64>(json, "magicResist"@);
        let movement_speed = required::<i64>(json, "movementSpeed"@);
        let omnivamp = required::<i64>(json, "omnivamp"@);
        let physical_vammp = required::<i64>(json, "physicalVammp"@);
        let power = required::<i64>(json, "power"@);
        let power_max = required::<i64>(json, "powerMax"@);
        let power_regen = required::<i64>(json, "powerRegen"@);
        let spell_vamp = required::<i64>(json, "spellVamp"@);
        if ability_haste is Err {
            Err(ability_haste->Err_0)
        } else if ability_power is Err {
            Err(ability_power->Err_0)
        } else if armor is Err {
            Err(armor->Err_0)
        } else if armor_pen is Err {
            Err(armor_pen->Err_0)
        } else if armor_pen_percent is Err {
            Err(armor_pen_percent->Err_0)
        } else if attack_damage is Err {
            Err(attack_damage->Err_0)
        } else if attack_speed is Err {
            Err(attack_speed->Err_0)
        } else if bonus_armor_pen_percent is Err {
            Err(bonus_armor_pen_percent->Err_0)
        } else if bonus_magic_pen_percent is Err {
            Err(bonus_magic_pen_percent->Err_0)
        } else if cc_reduction is Err {
            Err(cc_reduction->Err_0)
        } else if cooldown_reduction is Err {
            Err(cooldown_reduction->Err_0)
        } else if health is Err {
            Err(health->Err_0)
        } else if health_max is Err {
            Err(health_max->Err_0)
        } else if health_regen is Err {
            Err(health_regen->Err_0)
        } else if lifesteal is Err {
            Err(lifesteal->Err_0)
        } else if magic_pen is Err {
            Err(magic_pen->Err_0)
        } else if magic_pen_percent is Err {
            Err(magic_pen_percent->Err_0)
        } else if magic_resist is Err {
            Err(magic_resist->Err_0)
        } else if movement_speed is Err {
            Err(movement_speed->Err_0)
        } else if omnivamp is Err {
            Err(omnivamp->Err_0)
        } else if physical_vammp is Err {
            Err(physical_vammp->Err_0)
        } else if power is Err {
            Err(power->Err_0)
        } else if power_max is Err {
            Err(power_max->Err_0)
        } else if power_regen is Err {
            Err(power_regen->Err_0)
        } else if spell_vamp is Err {
            Err(spell_vamp->Err_0)
        } else {
            Ok(
                ChampionStats {
                    ability_haste: ability_haste->Ok_0,
                    ability_power: ability_power->Ok_0,
                    armor: armor->Ok_0,
                    armor_pen: armor_pen->Ok_0,
                    armor_pen_percent: armor_pen_percent->Ok_0,
                    attack_damage: attack_damage->Ok_0,
                    attack_speed: attack_speed->Ok_0,
                    bonus_armor_pen_percent: bonus_armor_pen_percent->Ok_0,
                    bonus_magic_pen_percent: bonus_magic_pen_percent->Ok_0,
                    cc_reduction: cc_reduction->Ok_0,
                    cooldown_reduction: cooldown_reduction->Ok_0,
                    health: health->Ok_0,
                    health_max: health_max->Ok_0,
                    health_regen: health_regen->Ok_0,
                    lifesteal: lifesteal->Ok_0,
                    magic_pen: magic_pen->Ok_0,
                    magic_pen_percent: magic_pen_percent->Ok_0,
                    magic_resist: magic_resist->Ok_0,
                    movement_speed: movement_speed->Ok_0,
                    omnivamp: omnivamp->Ok_0,
                    physical_vammp: physical_vammp->Ok_0,
                    power: power->Ok_0,
                    power_max: power_max->Ok_0,
                    power_regen: power_regen->Ok_0,
                    spell_vamp: spell_vamp->Ok_0,
                },
            )
        }
    }

    open spec fn encoded(value: ChampionStats) -> JsonView {
        JsonView::Object(
            Seq::empty()
                .push(("abilityHaste"@, <i64>::encoded(value.ability_haste)))
                .push(("abilityPower"@, <i64>::encoded(value.ability_power)))
                .push(("armor"@, <i64>::encoded(value.armor)))
                .push(("armorPen"@, <i64>::encoded(value.armor_pen)))
                .push(("armorPenPercent"@, <i64>::encoded(value.armor_pen_percent)))
                .push(("attackDamage"@, <i64>::encoded(value.attack_damage)))
                .push(("attackSpeed"@, <i64>::encoded(value.attack_speed)))
                .push(("bonusArmorPenPercent"@, <i64>::encoded(value.bonus_armor_pen_percent)))
                .push(("bonusMagicPenPercent"@, <i64>::encoded(value.bonus_magic_pen_percent)))
                .push(("ccReduction"@, <i64>::encoded(value.cc_reduction)))
                .push(("cooldownReduction"@, <i64>::encoded(value.cooldown_reduction)))
                .push(("health"@, <i64>::encoded(value.health)))
                .push(("healthMax"@, <i64>::encoded(value.health_max)))
                .push(("healthRegen"@, <i64>::encoded(value.health_regen)))
                .push(("lifesteal"@, <i64>::encoded(value.lifesteal)))
                .push(("magicPen"@, <i64>::encoded(value.magic_pen)))
                .push(("magicPenPercent"@, <i64>::encoded(value.magic_pen_percent)))
                .push(("magicResist"@, <i64>::encoded(value.magic_resist)))
                .push(("movementSpeed"@, <i64>::encoded(value.movement_speed)))
                .push(("omnivamp"@, <i64>::encoded(value.omnivamp)))
                .push(("physicalVammp"@, <i64>::encoded(value.physical_vammp)))
                .push(("power"@, <i64>::encoded(value.power)))
                .push(("powerMax"@, <i64>::encoded(value.power_max)))
                .push(("powerRegen"@, <i64>::encoded(value.power_regen)))
                .push(("spellVamp"@, <i64>::encoded(value.spell_vamp))),
        )
    }

    fn decode(json: &Json) -> (outcome: Result<Self, DecodeFailure>) {
        let ability_haste = read_required::<i64>(json, "abilityHaste")?;
        let ability_power = read_required::<i64>(json, "abilityPower")?;
        let armor = read_required::<i64>(json, "armor")?;
        let armor_pen = read_required::<i64>(json, "armorPen")?;
        let armor_pen_percent = read_required::<i64>(json, "armorPenPercent")?;
        let attack_damage = read_required::<i64>(json, "attackDamage")?;
        let attack_speed = read_required::<i64>(json, "attackSpeed")?;
        let bonus_armor_pen_percent = read_required::<i64>(json, "bonusArmorPenPercent")?;
        let bonus_magic_pen_percent = read_required::<i64>(json, "bonusMagicPenPercent")?;
        let cc_reduction = read_required::<i64>(json, "ccReduction")?;
        let cooldown_reduction = read_required::<i64>(json, "cooldownReduction")?;
        let health = read_required::<i64>(json, "health")?;
        let health_max = read_required::<i64>(json, "healthMax")?;
        let health_regen = read_required::<i64>(json, "healthRegen")?;
        let lifesteal = read_required::<i64>(json, "lifesteal")?;
        let magic_pen = read_required::<i64>(json, "magicPen")?;
        let magic_pen_percent = read_required::<i64>(json, "magicPenPercent")?;
        let magic_resist = read_required::<i64>(json, "magicResist")?;
        let movement_speed = read_required::<i64>(json, "movementSpeed")?;
        let omnivamp = read_required::<i64>(json, "omnivamp")?;
        let physical_vammp = read_required::<i64>(json, "physicalVammp")?;
        let power = read_required::<i64>(json, "power")?;
        let power_max = read_required::<i64>(json, "powerMax")?;
        let power_regen = read_required::<i64>(json, "powerRegen")?;
        let spell_vamp = read_required::<i64>(json, "spellVamp")?;
        Ok(
            ChampionStats {
                ability_haste,
                ability_power,
                armor,
                armor_pen,
                armor_pen_percent,
                attack_damage,
                attack_speed,
                bonus_armor_pen_percent,
                bonus_magic_pen_percent,
                cc_reduction,
                cooldown_reduction,
                health,
                health_max,
                health_regen,
                lifesteal,
                magic_pen,
                magic_pen_percent,
                magic_resist,
                movement_speed,
                omnivamp,
                physical_vammp,
                power,
                power_max,
                power_regen,
                spell_vamp,
            },
        )
    }

    fn encode(&self) -> (json: Json) {
        let mut members = no_members();
        push_member::<i64>(&mut members, "abilityHaste", &self.ability_haste);
        push_member::<i64>(&mut members, "abilityPower", &self.ability_power);
        push_member::<i64>(&mut members, "armor", &self.armor);
        push_member::<i64>(&mut members, "armorPen", &self.armor_pen);
        push_member::<i64>(&mut members, "armorPenPercent", &self.armor_pen_percent);
        push_member::<i64>(&mut members, "attackDamage", &self.attack_damage);
        push_member::<i64>(&mut members, "attackSpeed", &self.attack_speed);
        push_member::<i64>(&mut members, "bonusArmorPenPercent", &self.bonus_armor_pen_percent);
        push_member::<i64>(&mut members, "bonusMagicPenPercent", &self.bonus_magic_pen_percent);
        push_member::<i64>(&mut members, "ccReduction", &self.cc_reduction);
        push_member::<i64>(&mut members, "cooldownReduction", &self.cooldown_reduction);
        push_member::<i64>(&mut members, "health", &self.health);
        push_member::<i64>(&mut members, "healthMax", &self.health_max);
        push_member::<i64>(&mut members, "healthRegen", &self.health_regen);
        push_member::<i64>(&mut members, "lifesteal", &self.lifesteal);
        push_member::<i64>(&mut members, "magicPen", &self.magic_pen);
        push_member::<i64>(&mut members, "magicPenPercent", &self.magic_pen_percent);
        push_member::<i64>(&mut members, "magicResist", &self.magic_resist);
        push_member::<i64>(&mut members, "movementSpeed", &self.movement_speed);
        push_member::<i64>(&mut members, "omnivamp", &self.omnivamp);
        push_member::<i64>(&mut members, "physicalVammp", &self.physical_vammp);
        push_member::<i64>(&mut members, "power", &self.power);
        push_member::<i64>(&mut members, "powerMax", &self.power_max);
        push_member::<i64>(&mut members, "powerRegen", &self.power_regen);
        push_member::<i64>(&mut members, "spellVamp", &self.spell_vamp);
        object_of(members)
    }
}

impl RoundTrip for ChampionStats {
    proof fn lemma_round_trip(value: ChampionStats) {
        let members = Self::encoded(value)->Object_0;
        reveal_strlit("abilityHaste");
        reveal_strlit("abilityPower");
        reveal_strlit("armor");
        reveal_strlit("armorPen");
        reveal_strlit("armorPenPercent");
        reveal_strlit("attackDamage");
        reveal_strlit("attackSpeed");
        reveal_strlit("bonusArmorPenPercent");
        reveal_strlit("bonusMagicPenPercent");
        reveal_strlit("ccReduction");
        reveal_strlit("cooldownReduction");
        reveal_strlit("health");
        reveal_strlit("healthMax");
        reveal_strlit("healthRegen");
        reveal_strlit("lifesteal");
        reveal_strlit("magicPen");
        reveal_strlit("magicPenPercent");
        reveal_strlit("magicResist");
        reveal_strlit("movementSpeed");
        reveal_strlit("omnivamp");
        reveal_strlit("physicalVammp");
        reveal_strlit("power");
        reveal_strlit("powerMax");
        reveal_strlit("powerRegen");
        reveal_strlit("spellVamp");
        assert("abilityHaste"@.len() == 12
            && "abilityHaste"@[1] == 'b'
            && "abilityHaste"@[7] == 'H');
        assert("abilityPower"@.len() == 12
            && "abilityPower"@[1] == 'b'
            && "abilityPower"@[7] == 'P');
        assert("armor"@.len() == 5 && "armor"@[0] == 'a');
        assert("armorPen"@.len() == 8 && "armorPen"@[0] == 'a');
        assert("armorPenPercent"@.len() == 15 && "armorPenPercent"@[0] == 'a');
        assert("attackDamage"@.len() == 12 && "attackDamage"@[1] == 't');
        assert("attackSpeed"@.len() == 11 && "attackSpeed"@[0] == 'a');
        assert("bonusArmorPenPercent"@.len() == 20 && "bonusArmorPenPercent"@[5] == 'A');
        assert("bonusMagicPenPercent"@.len() == 20 && "bonusMagicPenPercent"@[5] == 'M');
        assert("ccReduction"@.len() == 11 && "ccReduction"@[0] == 'c');
        assert("cooldownReduction"@.len() == 17);
        assert("health"@.len() == 6);
        assert("healthMax"@.len() == 9 && "healthMax"@[0] == 'h');
        assert("healthRegen"@.len() == 11 && "healthRegen"@[0] == 'h');
        assert("lifesteal"@.len() == 9 && "lifesteal"@[0] == 'l');
        assert("magicPen"@.len() == 8 && "magicPen"@[0] == 'm');
        assert("magicPenPercent"@.len() == 15 && "magicPenPercent"@[0] == 'm');
        assert("magicResist"@.len() == 11 && "magicResist"@[0] == 'm');
        assert("movementSpeed"@.len() == 13 && "movementSpeed"@[0] == 'm');
        assert("omnivamp"@.len() == 8 && "omnivamp"@[0] == 'o');
        assert("physicalVammp"@.len() == 13 && "physicalVammp"@[0] == 'p');
        assert("power"@.len() == 5 && "power"@[0] == 'p');
        assert("powerMax"@.len() == 8 && "powerMax"@[0] == 'p');
        assert("powerRegen"@.len() == 10);
        assert("spellVamp"@.len() == 9 && "spellVamp"@[0] == 's');
        lemma_lookup_unfolds();
        lemma_required_reads::<i64>(members, "abilityHaste"@, value.ability_haste);
        lemma_required_reads::<i64>(members, "abilityPower"@, value.ability_power);
        lemma_required_reads::<i64>(members, "armor"@, value.armor);
        lemma_required_reads::<i64>(members, "armorPen"@, value.armor_pen);
        lemma_required_reads::<i64>(members, "armorPenPercent"@, value.armor_pen_percent);
        lemma_required_reads::<i64>(members, "attackDamage"@, value.attack_damage);
        lemma_required_reads::<i64>(members, "attackSpeed"@, value.attack_speed);
        lemma_required_reads::<i64>(
            members,
            "bonusArmorPenPercent"@,
            value.bonus_armor_pen_percent,
        );
        lemma_required_reads::<i64>(
            members,
            "bonusMagicPenPercent"@,
            value.bonus_magic_pen_percent,
        );
        lemma_required_reads::<i64>(members, "ccReduction"@, value.cc_reduction);
        lemma_required_reads::<i64>(members, "cooldownReduction"@, value.cooldown_reduction);
        lemma_required_reads::<i64>(members, "health"@, value.health);
        lemma_required_reads::<i64>(members, "healthMax"@, value.health_max);
        lemma_required_reads::<i64>(members, "healthRegen"@, value.health_regen);
        lemma_required_reads::<i64>(members, "lifesteal"@, value.lifesteal);
        lemma_required_reads::<i64>(members, "magicPen"@, value.magic_pen);
        lemma_required_reads::<i64>(members, "magicPenPercent"@, value.magic_pen_percent);
        lemma_required_reads::<i64>(members, "magicResist"@, value.magic_resist);
        lemma_required_reads::<i64>(members, "movementSpeed"@, value.movement_speed);
        lemma_required_reads::<i64>(members, "omnivamp"@, value.omnivamp);
        lemma_required_reads::<i64>(members, "physicalVammp"@, value.physical_vammp);
        lemma_required_reads::<i64>(members, "power"@, value.power);
        lemma_required_reads::<i64>(members, "powerMax"@, value.power_max);
        lemma_required_reads::<i64>(members, "powerRegen"@, value.power_regen);
        lemma_required_reads::<i64>(members, "spellVamp"@, value.spell_vamp);
    }
}

/// The damage that a participant dealt and took up to one moment of a match.
#[derive(Clone, Copy, Debug, PartialEq, Eq)]
pub struct DamageStats {
    pub magic_damage_done: i64,
    pub magic_damage_done_to_champions: i64,
    pub magic_damage_taken: i64,
    pub physical_damage_done: i64,
    pub physical_damage_done_to_champions: i64,
    pub physical_damage_taken: i64,
    pub total_damage_done: i64,
    pub total_damage_done_to_champions: i64,
    pub total_damage_taken: i64,
    pub true_damage_done: i64,
    pub true_damage_done_to_champions: i64,
    pub true_damage_taken: i64,
}

impl DeepView for DamageStats {
    type V = DamageStats;

    open spec fn deep_view(&self) -> DamageStats {
        *self
    }
}

impl Schema for DamageStats {
    open spec fn decoded(json: JsonView) -> Result<DamageStats, DecodeFailureView> {
        let magic_damage_done = required::<i64>(json, "magicDamageDone"@);
        let magic_damage_done_to_champions = required::<i64>(json, "magicDamageDoneToChampions"@);
        let magic_damage_taken = required::<i64>(json, "magicDamageTaken"@);
        let physical_damage_done = required::<i64>(json, "physicalDamageDone"@);
        let physical_damage_done_to_champions = required::<i64>(
            json,
            "physicalDamageDoneToChampions"@,
        );
        let physical_damage_taken = required::<i64>(json, "physicalDamageTaken"@);
        let total_damage_done = required::<i64>(json, "totalDamageDone"@);
        let total_damage_done_to_champions = required::<i64>(json, "totalDamageDoneToChampions"@);
        let total_damage_taken = required::<i64>(json, "totalDamageTaken"@);
        let true_damage_done = required::<i64>(json, "trueDamageDone"@);
        let true_damage_done_to_champions = required::<i64>(json, "trueDamageDoneToChampions"@);
        let true_damage_taken = required::<i64>(json, "trueDamageTaken"@);
        if magic_damage_done is Err {
            Err(magic_damage_done->Err_0)
        } else if magic_damage_done_to_champions is Err {
            Err(magic_damage_done_to_champions->Err_0)
        } else if magic_damage_taken is Err {
            Err(magic_damage_taken->Err_0)
        } else if physical_damage_done is Err {
            Err(physical_damage_done->Err_0)
        } else if physical_damage_done_to_champions is Err {
            Err(physical_damage_done_to_champions->Err_0)
        } else if physical_damage_taken is Err {
            Err(physical_damage_taken->Err_0)
        } else if total_damage_done is Err {
            Err(total_damage_done->Err_0)
        } else if total_damage_done_to_champions is Err {
            Err(total_damage_done_to_champions->Err_0)
        } else if total_damage_taken is Err {
            Err(total_damage_taken->Err_0)
        } else if true_damage_done is Err {
            Err(true_damage_done->Err_0)
        } else if true_damage_done_to_champions is Err {
            Err(true_damage_done_to_champions->Err_0)
        } else if true_damage_taken is Err {
            Err(true_damage_taken->Err_0)
        } else {
            Ok(
                DamageStats {
                    magic_damage_done: magic_damage_done->Ok_0,
                    magic_damage_done_to_champions: magic_damage_done_to_champions->Ok_0,
                    magic_damage_taken: magic_damage_taken->Ok_0,
                    physical_damage_done: physical_damage_done->Ok_0,
                    physical_damage_done_to_champions: physical_damage_done_to_champions->Ok_0,
                    physical_damage_taken: physical_damage_taken->Ok_0,
                    total_damage_done: total_damage_done->Ok_0,
                    total_damage_done_to_champions: total_damage_done_to_champions->Ok_0,
                    total_damage_taken: total_damage_taken->Ok_0,
                    true_damage_done: true_damage_done->Ok_0,
                    true_damage_done_to_champions: true_damage_done_to_champions->Ok_0,
                    true_damage_taken: true_damage_taken->Ok_0,
                },
            )
        }
    }

    open spec fn encoded(value: DamageStats) -> JsonView {
        JsonView::Object(
            Seq::empty()
                .push(("magicDamageDone"@, <i64>::encoded(value.magic_damage_done)))
                .push(
                    (
                        "magicDamageDoneToChampions"@,
                        <i64>::encoded(value.magic_damage_done_to_champions),
                    ),
                )
                .push(("magicDamageTaken"@, <i64>::encoded(value.magic_damage_taken)))
                .push(("physicalDamageDone"@, <i64>::encoded(value.physical_damage_done)))
                .push(
                    (
                        "physicalDamageDoneToChampions"@,
                        <i64>::encoded(value.physical_damage_done_to_champions),
                    ),
                )
                .push(("physicalDamageTaken"@, <i64>::encoded(value.physical_damage_taken)))
                .push(("totalDamageDone"@, <i64>::encoded(value.total_damage_done)))
                .push(
                    (
                        "totalDamageDoneToChampions"@,
                        <i64>::encoded(value.total_damage_done_to_champions),
                    ),
                )
                .push(("totalDamageTaken"@, <i64>::encoded(value.total_damage_taken)))
                .push(("trueDamageDone"@, <i64>::encoded(value.true_damage_done)))
                .push(
                    (
                        "trueDamageDoneToChampions"@,
                        <i64>::encoded(value.true_damage_done_to_champions),
                    ),
                )
                .push(("trueDamageTaken"@, <i64>::encoded(value.true_damage_taken))),
        )
    }

    fn decode(json: &Json) -> (outcome: Result<Self, DecodeFailure>) {
        let magic_damage_done = read_required::<i64>(json, "magicDamageDone")?;
        let magic_damage_done_to_champions = read_required::<i64>(
            json,
            "magicDamageDoneToChampions",
        )?;
        let magic_damage_taken = read_required::<i64>(json, "magicDamageTaken")?;
        let physical_damage_done = read_required::<i64>(json, "physicalDamageDone")?;
        let physical_damage_done_to_champions = read_required::<i64>(
            json,
            "physicalDamageDoneToChampions",
        )?;
        let physical_damage_taken = read_required::<i64>(json, "physicalDamageTaken")?;
        let total_damage_done = read_required::<i64>(json, "totalDamageDone")?;
        let total_damage_done_to_champions = read_required::<i64>(
            json,
            "totalDamageDoneToChampions",
        )?;
        let total_damage_taken = read_required::<i64>(json, "totalDamageTaken")?;
        let true_damage_done = read_required::<i64>(json, "trueDamageDone")?;
        let true_damage_done_to_champions = read_required::<i64>(
            json,
            "trueDamageDoneToChampions",
        )?;
        let true_damage_taken = read_required::<i64>(json, "trueDamageTaken")?;
        Ok(
            DamageStats {
                magic_damage_done,
                magic_damage_done_to_champions,
                magic_damage_taken,
                physical_damage_done,
                physical_damage_done_to_champions,
                physical_damage_taken,
                total_damage_done,
                total_damage_done_to_champions,
                total_damage_taken,
                true_damage_done,
                true_damage_done_to_champions,
                true_damage_taken,
            },
        )
    }

    fn encode(&self) -> (json: Json) {
        let mut members = no_members();
        push_member::<i64>(&mut members, "magicDamageDone", &self.magic_damage_done);
        push_member::<i64>(
            &mut members,
            "magicDamageDoneToChampions",
            &self.magic_damage_done_to_champions,
        );
        push_member::<i64>(&mut members, "magicDamageTaken", &self.magic_damage_taken);
        push_member::<i64>(&mut members, "physicalDamageDone", &self.physical_damage_done);
        push_member::<i64>(
            &mut members,
            "physicalDamageDoneToChampions",
            &self.physical_damage_done_to_champions,
        );
        push_member::<i64>(&mut members, "physicalDamageTaken", &self.physical_damage_taken);
        push_member::<i64>(&mut members, "totalDamageDone", &self.total_damage_done);
        push_member::<i64>(
            &mut members,
            "totalDamageDoneToChampions",
            &self.total_damage_done_to_champions,
        );
        push_member::<i64>(&mut members, "totalDamageTaken", &self.total_damage_taken);
        push_member::<i64>(&mut members, "trueDamageDone", &self.true_damage_done);
        push_member::<i64>(
            &mut members,
            "trueDamageDoneToChampions",
            &self.true_damage_done_to_champions,
        );
        push_member::<i64>(&mut members, "trueDamageTaken", &self.true_damage_taken);
        object_of(members)
    }
}

impl RoundTrip for DamageStats {
    proof fn lemma_round_trip(value: DamageStats) {
        let members = Self::encoded(value)->Object_0;
        reveal_strlit("magicDamageDone");
        reveal_strlit("magicDamageDoneToChampions");
        reveal_strlit("magicDamageTaken");
        reveal_strlit("physicalDamageDone");
        reveal_strlit("physicalDamageDoneToChampions");
        reveal_strlit("physicalDamageTaken");
        reveal_strlit("totalDamageDone");
        reveal_strlit("totalDamageDoneToChampions");
        reveal_strlit("totalDamageTaken");
        reveal_strlit("trueDamageDone");
        reveal_strlit("trueDamageDoneToChampions");
        reveal_strlit("trueDamageTaken");
        assert("magicDamageDone"@.len() == 15 && "magicDamageDone"@[0] == 'm');
        assert("magicDamageDoneToChampions"@.len() == 26
            && "magicDamageDoneToChampions"@[0] == 'm');
        assert("magicDamageTaken"@.len() == 16 && "magicDamageTaken"@[0] == 'm');
        assert("physicalDamageDone"@.len() == 18);
        assert("physicalDamageDoneToChampions"@.len() == 29);
        assert("physicalDamageTaken"@.len() == 19);
        assert("totalDamageDone"@.len() == 15
            && "totalDamageDone"@[0] == 't'
            && "totalDamageDone"@[1] == 'o');
        assert("totalDamageDoneToChampions"@.len() == 26
            && "totalDamageDoneToChampions"@[0] == 't');
        assert("totalDamageTaken"@.len() == 16 && "totalDamageTaken"@[0] == 't');
        assert("trueDamageDone"@.len() == 14);
        assert("trueDamageDoneToChampions"@.len() == 25);
        assert("trueDamageTaken"@.len() == 15
            && "trueDamageTaken"@[0] == 't'
            && "trueDamageTaken"@[1] == 'r');
        lemma_lookup_unfolds();
        lemma_required_reads::<i64>(members, "magicDamageDone"@, value.magic_damage_done);
        lemma_required_reads::<i64>(
            members,
            "magicDamageDoneToChampions"@,
            value.magic_damage_done_to_champions,
        );
        lemma_required_reads::<i64>(members, "magicDamageTaken"@, value.magic_damage_taken);
        lemma_required_reads::<i64>(members, "physicalDamageDone"@, value.physical_damage_done);
        lemma_required_reads::<i64>(
            members,
            "physicalDamageDoneToChampions"@,
            value.physical_damage_done_to_champions,
        );
        lemma_required_reads::<i64>(members, "physicalDamageTaken"@, value.physical_damage_taken);
        lemma_required_reads::<i64>(members, "totalDamageDone"@, value.total_damage_done);
        lemma_required_reads::<i64>(
            members,
            "totalDamageDoneToChampions"@,
            value.total_damage_done_to_champions,
        );
        lemma_required_reads::<i64>(members, "totalDamageTaken"@, value.total_damage_taken);
        lemma_required_reads::<i64>(members, "trueDamageDone"@, value.true_damage_done);
        lemma_required_reads::<i64>(
            members,
            "trueDamageDoneToChampions"@,
            value.true_damage_done_to_champions,
        );
        lemma_required_reads::<i64>(members, "trueDamageTaken"@, value.true_damage_taken);
    }
}

/// A place on the map.
#[derive(Clone, Copy, Debug, PartialEq, Eq)]
pub struct Position {
    pub x: i64,
    pub y: i64,
}

impl DeepView for Position {
    type V = Position;

    open spec fn deep_view(&self) -> Position {
        *self
    }
}

impl Schema for Position {
    open spec fn decoded(json: JsonView) -> Result<Position, DecodeFailureView> {
        let x = required::<i64>(json, "x"@);
        let y = required::<i64>(json, "y"@);
        if x is Err {
            Err(x->Err_0)
        } else if y is Err {
            Err(y->Err_0)
        } else {
            Ok(
                Position {
                    x: x->Ok_0,
                    y: y->Ok_0,
                },
            )
        }
    }

    open spec fn encoded(value: Position) -> JsonView {
        JsonView::Object(
            Seq::empty()
                .push(("x"@, <i64>::encoded(value.x)))
                .push(("y"@, <i64>::encoded(value.y))),
        )
    }

    fn decode(json: &Json) -> (outcome: Result<Self, DecodeFailure>) {
        let x = read_required::<i64>(json, "x")?;
        let y = read_required::<i64>(json, "y")?;
        Ok(Position { x, y })
    }

    fn encode(&self) -> (json: Json) {
        let mut members = no_members();
        push_member::<i64>(&mut members, "x", &self.x);
        push_member::<i64>(&mut members, "y", &self.y);
        object_of(members)
    }
}

impl RoundTrip for Position {
    proof fn lemma_round_trip(value: Position) {
        let members = Self::encoded(value)->Object_0;
        reveal_strlit("x");
        reveal_strlit("y");
        assert("x"@.len() == 1 && "x"@[0] == 'x');
        assert("y"@.len() == 1 && "y"@[0] == 'y');
        lemma_lookup_unfolds();
        lemma_required_reads::<i64>(members, "x"@, value.x);
        lemma_required_reads::<i64>(members, "y"@, value.y);
    }
}

/// An optional count or time stamp as it is written in a query.
pub open spec fn unsigned_text(value: Option<u64>) -> Option<Seq<char>> {
    match value {
        Some(number) => Some(decimal(number as nat)),
        None => None,
    }
}

/// An optional number as it is written in a query.
pub open spec fn signed_text(value: Option<i64>) -> Option<Seq<char>> {
    match value {
        Some(number) => Some(signed_decimal(number as int)),
        None => None,
    }
}

/// An optional queue kind as it is written in a query.
pub open spec fn queue_type_text(value: Option<QueueType>) -> Option<Seq<char>> {
    match value {
        Some(kind) => Some(kind.name()),
        None => None,
    }
}

fn unsigned_value(value: Option<u64>) -> (text: Option<String>)
    ensures
        text.deep_view() == unsigned_text(value),
{
    match value {
        Some(number) => Some(u64_to_decimal(number)),
        None => None,
    }
}

fn signed_value(value: Option<i64>) -> (text: Option<String>)
    ensures
        text.deep_view() == signed_text(value),
{
    match value {
        Some(number) => Some(i64_to_decimal(number)),
        None => None,
    }
}

fn queue_type_value(value: Option<QueueType>) -> (text: Option<String>)
    ensures
        text.deep_view() == queue_type_text(value),
{
    match value {
        Some(kind) => Some(kind.to_string()),
        None => None,
    }
}

impl Match {
    /// The request for the match with an identifier.
    pub fn by_match_id(
        region: &RoutingRegion,
        api_key: &String,
        match_id: &String,
    ) -> (request: RequestSpec)
        ensures
            request@ == composed(
                Host::Routing(*region),
                "/lol/match/v5/matches"@,
                seq![match_id@],
                Seq::empty(),
                api_key@,
            ),
    {
        let identifiers: Vec<&str> = vec![match_id.as_str()];
        let params: Vec<QueryParam> = Vec::new();
        assert(identifiers.deep_view() =~= seq![match_id@]);
        assert(params.deep_view() =~= Seq::empty());
        RequestSpec::build(
            Host::Routing(*region),
            "/lol/match/v5/matches",
            &identifiers,
            &params,
            api_key.as_str(),
        )
    }

    /// The request for the identifiers of the matches that a player took part in.
    ///
    /// Each filter is sent only when the caller names it, always in the order
    /// `start`, `startTime`, `endTime`, `queue`, `type`, `count`.
    pub fn by_puuid(
        region: &RoutingRegion,
        api_key: &String,
        puuid: &String,
        start_time: Option<u64>,
        end_time: Option<u64>,
        queue: Option<i64>,
        queue_type: Option<QueueType>,
        start: Option<i64>,
        count: Option<i64>,
    ) -> (request: RequestSpec)
        ensures
            request@ == composed(
                Host::Routing(*region),
                "/lol/match/v5/matches/by-puuid"@,
                seq![puuid@, "ids"@],
                seq![
                    ("start"@, signed_text(start)),
                    ("startTime"@, unsigned_text(start_time)),
                    ("endTime"@, unsigned_text(end_time)),
                    ("queue"@, signed_text(queue)),
                    ("type"@, queue_type_text(queue_type)),
                    ("count"@, signed_text(count)),
                ],
                api_key@,
            ),
    {
        let identifiers: Vec<&str> = vec![puuid.as_str(), "ids"];
        let mut params: Vec<QueryParam> = Vec::new();
        params.push(QueryParam::new("start", signed_value(start)));
        params.push(QueryParam::new("startTime", unsigned_value(start_time)));
        params.push(QueryParam::new("endTime", unsigned_value(end_time)));
        params.push(QueryParam::new("queue", signed_value(queue)));
        params.push(QueryParam::new("type", queue_type_value(queue_type)));
        params.push(QueryParam::new("count", signed_value(count)));
        assert(identifiers.deep_view() =~= seq![puuid@, "ids"@]);
        assert(params.deep_view() =~= seq![
            ("start"@, signed_text(start)),
            ("startTime"@, unsigned_text(start_time)),
            ("endTime"@, unsigned_text(end_time)),
            ("queue"@, signed_text(queue)),
            ("type"@, queue_type_text(queue_type)),
            ("count"@, signed_text(count)),
        ]);
        RequestSpec::build(
            Host::Routing(*region),
            "/lol/match/v5/matches/by-puuid",
            &identifiers,
            &params,
            api_key.as_str(),
        )
    }
}

impl Timeline {
    /// The request for the timeline of the match with an identifier.
    pub fn by_match_id(
        region: &RoutingRegion,
        api_key: &String,
        match_id: &String,
    ) -> (request: RequestSpec)
        ensures
            request@ == composed(
                Host::Routing(*region),
                "/lol/match/v5/matches"@,
                seq![match_id@, "timeline"@],
                Seq::empty(),
                api_key@,
            ),
    {
        let identifiers: Vec<&str> = vec![match_id.as_str(), "timeline"];
        let params: Vec<QueryParam> = Vec::new();
        assert(identifiers.deep_view() =~= seq![match_id@, "timeline"@]);
        assert(params.deep_view() =~= Seq::empty());
        RequestSpec::build(
            Host::Routing(*region),
            "/lol/match/v5/matches",
            &identifiers,
            &params,
            api_key.as_str(),
        )
    }
}

} // verus!
