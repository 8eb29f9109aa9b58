//! Ranked leagues and the standings of players in them.

use vstd::prelude::*;
use vstd::string::*;
use crate::schema::{
    lemma_required_reads, no_members, object_of, push_member, read_required, required, RoundTrip,
    Schema,
};
use crate::failure::{DecodeFailure, DecodeFailureView};
use crate::json::{lemma_lookup_unfolds, Json, JsonView};
use crate::queue::ranked::RankedQueue;
use crate::ranked::division::RankedDivision;
use crate::ranked::tier::RankedTier;
use crate::region::server::ServerRegion;
use crate::request::{composed, Host, QueryParam, RequestSpec};
use crate::text::{decimal, u64_to_decimal};

verus! {

/// The standing of one player in one ranked queue.
#[derive(Clone, Debug, PartialEq, Eq)]
pub struct LeagueEntry {
    pub league_id: String,
    pub summoner_id: String,
    pub queue_type: RankedQueue,
    pub tier: RankedTier,
    pub rank: RankedDivision,
    pub league_points: u32,
    pub wins: u32,
    pub losses: u32,
    pub hot_streak: bool,
    pub veteran: bool,
    pub fresh_blood: bool,
    pub inactive: bool,
    pub mini_series: MiniSeries,
}

/// The standing of one player in one ranked queue, as plain data.
pub struct LeagueEntryView {
    pub league_id: Seq<char>,
    pub summoner_id: Seq<char>,
    pub queue_type: RankedQueue,
    pub tier: RankedTier,
    pub rank: RankedDivision,
    pub league_points: u32,
    pub wins: u32,
    pub losses: u32,
    pub hot_streak: bool,
    pub veteran: bool,
    pub fresh_blood: bool,
    pub inactive: bool,
    pub mini_series: MiniSeriesView,
}

impl DeepView for LeagueEntry {
    type V = LeagueEntryView;

    open spec fn deep_view(&self) -> LeagueEntryView {
        LeagueEntryView {
            league_id: self.league_id.deep_view(),
            summoner_id: self.summoner_id.deep_view(),
            queue_type: self.queue_type.deep_view(),
            tier: self.tier.deep_view(),
            rank: self.rank.deep_view(),
            league_points: self.league_points.deep_view(),
            wins: self.wins.deep_view(),
            losses: self.losses.deep_view(),
            hot_streak: self.hot_streak.deep_view(),
            veteran: self.veteran.deep_view(),
            fresh_blood: self.fresh_blood.deep_view(),
            inactive: self.inactive.deep_view(),
            mini_series: self.mini_series.deep_view(),
        }
    }
}

impl Schema for LeagueEntry {
    open spec fn decoded(json: JsonView) -> Result<LeagueEntryView, DecodeFailureView> {
        let league_id = required::<String>(json, "leagueId"@);
        let summoner_id = required::<String>(json, "summonerId"@);
        let queue_type = required::<RankedQueue>(json, "queueType"@);
        let tier = required::<RankedTier>(json, "tier"@);
        let rank = required::<RankedDivision>(json, "rank"@);
        let league_points = required::<u32>(json, "leaguePoints"@);
        let wins = required::<u32>(json, "wins"@);
        let losses = required::<u32>(json, "losses"@);
        let hot_streak = required::<bool>(json, "hotStreak"@);
        let veteran = required::<bool>(json, "veteran"@);
        let fresh_blood = required::<bool>(json, "freshBlood"@);
        let inactive = required::<bool>(json, "inactive"@);
        let mini_series = required::<MiniSeries>(json, "miniSeries"@);
        if league_id is Err {
            Err(league_id->Err_0)
        } else if summoner_id is Err {
            Err(summoner_id->Err_0)
        } else if queue_type is Err {
            Err(queue_type->Err_0)
        } else if tier is Err {
            Err(tier->Err_0)
        } else if rank is Err {
            Err(rank->Err_0)
        } else if league_points is Err {
            Err(league_points->Err_0)
        } else if wins is Err {
            Err(wins->Err_0)
        } else if losses is Err {
            Err(losses->Err_0)
        } else if hot_streak is Err {
            Err(hot_streak->Err_0)
        } else if veteran is Err {
            Err(veteran->Err_0)
        } else if fresh_blood is Err {
            Err(fresh_blood->Err_0)
        } else if inactive is Err {
            Err(inactive->Err_0)
        } else if mini_series is Err {
            Err(mini_series->Err_0)
        } else {
            Ok(
                LeagueEntryView {
                    league_id: league_id->Ok_0,
                    summoner_id: summoner_id->Ok_0,
                    queue_type: queue_type->Ok_0,
                    tier: tier->Ok_0,
                    rank: rank->Ok_0,
                    league_points: league_points->Ok_0,
                    wins: wins->Ok_0,
                    losses: losses->Ok_0,
                    hot_streak: hot_streak->Ok_0,
                    veteran: veteran->Ok_0,
                    fresh_blood: fresh_blood->Ok_0,
                    inactive: inactive->Ok_0,
                    mini_series: mini_series->Ok_0,
                },
            )
        }
    }

    open spec fn encoded(value: LeagueEntryView) -> JsonView {
        JsonView::Object(
            Seq::empty()
                .push(("leagueId"@, <String>::encoded(value.league_id)))
                .push(("summonerId"@, <String>::encoded(value.summoner_id)))
                .push(("queueType"@, <RankedQueue>::encoded(value.queue_type)))
                .push(("tier"@, <RankedTier>::encoded(value.tier)))
                .push(("rank"@, <RankedDivision>::encoded(value.rank)))
                .push(("leaguePoints"@, <u32>::encoded(value.league_points)))
                .push(("wins"@, <u32>::encoded(value.wins)))
                .push(("losses"@, <u32>::encoded(value.losses)))
                .push(("hotStreak"@, <bool>::encoded(value.hot_streak)))
                .push(("veteran"@, <bool>::encoded(value.veteran)))
                .push(("freshBlood"@, <bool>::encoded(value.fresh_blood)))
                .push(("inactive"@, <bool>::encoded(value.inactive)))
                .push(("miniSeries"@, <MiniSeries>::encoded(value.mini_series))),
        )
    }

    fn decode(json: &Json) -> (outcome: Result<Self, DecodeFailure>) {
        let league_id = read_required::<String>(json, "leagueId")?;
        let summoner_id = read_required::<String>(json, "summonerId")?;
        let queue_type = read_required::<RankedQueue>(json, "queueType")?;
        let tier = read_required::<RankedTier>(json, "tier")?;
        let rank = read_required::<RankedDivision>(json, "rank")?;
        let league_points = read_required::<u32>(json, "leaguePoints")?;
        let wins = read_required::<u32>(json, "wins")?;
        let losses = read_required::<u32>(json, "losses")?;
        let hot_streak = read_required::<bool>(json, "hotStreak")?;
        let veteran = read_required::<bool>(json, "veteran")?;
        let fresh_blood = read_required::<bool>(json, "freshBlood")?;
        let inactive = read_required::<bool>(json, "inactive")?;
        let mini_series = read_required::<MiniSeries>(json, "miniSeries")?;
        Ok(
            LeagueEntry {
                league_id,
                summoner_id,
                queue_type,
                tier,
                rank,
                league_points,
                wins,
                losses,
                hot_streak,
                veteran,
                fresh_blood,
                inactive,
                mini_series,
            },
        )
    }

    fn encode(&self) -> (json: Json) {
        let mut members = no_members();
        push_member::<String>(&mut members, "leagueId", &self.league_id);
        push_member::<String>(&mut members, "summonerId", &self.summoner_id);
        push_member::<RankedQueue>(&mut members, "queueType", &self.queue_type);
        push_member::<RankedTier>(&mut members, "tier", &self.tier);
        push_member::<RankedDivision>(&mut members, "rank", &self.rank);
        push_member::<u32>(&mut members, "leaguePoints", &self.league_points);
        push_member::<u32>(&mut members, "wins", &self.wins);
        push_member::<u32>(&mut members, "losses", &self.losses);
        push_member::<bool>(&mut members, "hotStreak", &self.hot_streak);
        push_member::<bool>(&mut members, "veteran", &self.veteran);
        push_member::<bool>(&mut members, "freshBlood", &self.fresh_blood);
        push_member::<bool>(&mut members, "inactive", &self.inactive);
        push_member::<MiniSeries>(&mut members, "miniSeries", &self.mini_series);
        object_of(members)
    }
}

impl RoundTrip for LeagueEntry {
    proof fn lemma_round_trip(value: LeagueEntryView) {
        let members = Self::encoded(value)->Object_0;
        reveal_strlit("leagueId");
        reveal_strlit("summonerId");
        reveal_strlit("queueType");
        reveal_strlit("tier");
        reveal_strlit("rank");
        reveal_strlit("leaguePoints");
        reveal_strlit("wins");
        reveal_strlit("losses");
        reveal_strlit("hotStreak");
        reveal_strlit("veteran");
        reveal_strlit("freshBlood");
        reveal_strlit("inactive");
        reveal_strlit("miniSeries");
        assert("leagueId"@.len() == 8 && "leagueId"@[0] == 'l');
        assert("summonerId"@.len() == 10 && "summonerId"@[0] == 's');
        assert("queueType"@.len() == 9 && "queueType"@[0] == 'q');
        assert("tier"@.len() == 4 && "tier"@[0] == 't');
        assert("rank"@.len() == 4 && "rank"@[0] == 'r');
        assert("leaguePoints"@.len() == 12);
        assert("wins"@.len() == 4 && "wins"@[0] == 'w');
        assert("losses"@.len() == 6);
        assert("hotStreak"@.len() == 9 && "hotStreak"@[0] == 'h');
        assert("veteran"@.len() == 7);
        assert("freshBlood"@.len() == 10 && "freshBlood"@[0] == 'f');
        assert("inactive"@.len() == 8 && "inactive"@[0] == 'i');
        assert("miniSeries"@.len() == 10 && "miniSeries"@[0] == 'm');
        lemma_lookup_unfolds();
        lemma_required_reads::<String>(members, "leagueId"@, value.league_id);
        lemma_required_reads::<String>(members, "summonerId"@, value.summoner_id);
        lemma_required_reads::<RankedQueue>(members, "queueType"@, value.queue_type);
        lemma_required_reads::<RankedTier>(members, "tier"@, value.tier);
        lemma_required_reads::<RankedDivision>(members, "rank"@, value.rank);
        lemma_required_reads::<u32>(members, "leaguePoints"@, value.league_points);
        lemma_required_reads::<u32>(members, "wins"@, value.wins);
        lemma_required_reads::<u32>(members, "losses"@, value.losses);
        lemma_required_reads::<bool>(members, "hotStreak"@, value.hot_streak);
        lemma_required_reads::<bool>(members, "veteran"@, value.veteran);
        lemma_required_reads::<bool>(members, "freshBlood"@, value.fresh_blood);
        lemma_required_reads::<bool>(members, "inactive"@, value.inactive);
        lemma_required_reads::<MiniSeries>(members, "miniSeries"@, value.mini_series);
    }
}

/// The progress of a promotion series.
#[derive(Clone, Debug, PartialEq, Eq)]
pub struct MiniSeries {
    pub losses: u32,
    pub progress: String,
    pub target: u32,
    pub wins: u32,
}

/// The progress of a promotion series, as plain data.
pub struct MiniSeriesView {
    pub losses: u32,
    pub progress: Seq<char>,
    pub target: u32,
    pub wins: u32,
}

impl DeepView for MiniSeries {
    type V = MiniSeriesView;

    open spec fn deep_view(&self) -> MiniSeriesView {
        MiniSeriesView {
            losses: self.losses.deep_view(),
            progress: self.progress.deep_view(),
            target: self.target.deep_view(),
            wins: self.wins.deep_view(),
        }
    }
}

impl Schema for MiniSeries {
    open spec fn decoded(json: JsonView) -> Result<MiniSeriesView, DecodeFailureView> {
        let losses = required::<u32>(json, "losses"@);
        let progress = required::<String>(json, "progress"@);
        let target = required::<u32>(json, "target"@);
        let wins = required::<u32>(json, "wins"@);
        if losses is Err {
            Err(losses->Err_0)
        } else if progress is Err {
            Err(progress->Err_0)
        } else if target is Err {
            Err(target->Err_0)
        } else if wins is Err {
            Err(wins->Err_0)
        } else {
            Ok(
                MiniSeriesView {
                    losses: losses->Ok_0,
                    progress: progress->Ok_0,
                    target: target->Ok_0,
                    wins: wins->Ok_0,
                },
            )
        }
    }

    open spec fn encoded(value: MiniSeriesView) -> JsonView {
        JsonView::Object(
            Seq::empty()
                .push(("losses"@, <u32>::encoded(value.losses)))
                .push(("progress"@, <String>::encoded(value.progress)))
                .push(("target"@, <u32>::encoded(value.target)))
                .push(("wins"@, <u32>::encoded(value.wins))),
        )
    }

    fn decode(json: &Json) -> (outcome: Result<Self, DecodeFailure>) {
        let losses = read_required::<u32>(json, "losses")?;
        let progress = read_required::<String>(json, "progress")?;
        let target = read_required::<u32>(json, "target")?;
        let wins = read_required::<u32>(json, "wins")?;
        Ok(MiniSeries { losses, progress, target, wins })
    }

    fn encode(&self) -> (json: Json) {
        let mut members = no_members();
        push_member::<u32>(&mut members, "losses", &self.losses);
        push_member::<String>(&mut members, "progress", &self.progress);
        push_member::<u32>(&mut members, "target", &self.target);
        push_member::<u32>(&mut members, "wins", &self.wins);
        object_of(members)
    }
}

impl RoundTrip for MiniSeries {
    proof fn lemma_round_trip(value: MiniSeriesView) {
        let members = Self::encoded(value)->Object_0;
        reveal_strlit("losses");
        reveal_strlit("progress");
        reveal_strlit("target");
        reveal_strlit("wins");
        assert("losses"@.len() == 6 && "losses"@[0] == 'l');
        assert("progress"@.len() == 8);
        assert("target"@.len() == 6 && "target"@[0] == 't');
        assert("wins"@.len() == 4);
        lemma_lookup_unfolds();
        lemma_required_reads::<u32>(members, "losses"@, value.losses);
        lemma_required_reads::<String>(members, "progress"@, value.progress);
        lemma_required_reads::<u32>(members, "target"@, value.target);
        lemma_required_reads::<u32>(members, "wins"@, value.wins);
    }
}

/// A league: a tier of one ranked queue with the players in it.
#[derive(Clone, Debug, PartialEq, Eq)]
pub struct LeagueList {
    pub league_id: String,
    pub entries: Vec<LeagueItem>,
    pub tier: RankedTier,
    pub name: String,
    pub queue: RankedQueue,
}

/// A league: a tier of one ranked queue with the players in it, as plain data.
pub struct LeagueListView {
    pub league_id: Seq<char>,
    pub entries: Seq<LeagueItemView>,
    pub tier: RankedTier,
    pub name: Seq<char>,
    pub queue: RankedQueue,
}

impl DeepView for LeagueList {
    type V = LeagueListView;

    open spec fn deep_view(&self) -> LeagueListView {
        LeagueListView {
            league_id: self.league_id.deep_view(),
            entries: self.entries.deep_view(),
            tier: self.tier.deep_view(),
            name: self.name.deep_view(),
            queue: self.queue.deep_view(),
        }
    }
}

impl Schema for LeagueList {
    open spec fn decoded(json: JsonView) -> Result<LeagueListView, DecodeFailureView> {
        let league_id = required::<String>(json, "leagueId"@);
        let entries = required::<Vec<LeagueItem>>(json, "entries"@);
        let tier = required::<RankedTier>(json, "tier"@);
        let name = required::<String>(json, "name"@);
        let queue = required::<RankedQueue>(json, "queue"@);
        if league_id is Err {
            Err(league_id->Err_0)
        } else if entries is Err {
            Err(entries->Err_0)
        } else if tier is Err {
            Err(tier->Err_0)
        } else if name is Err {
            Err(name->Err_0)
        } else if queue is Err {
            Err(queue->Err_0)
        } else {
            Ok(
                LeagueListView {
                    league_id: league_id->Ok_0,
                    entries: entries->Ok_0,
                    tier: tier->Ok_0,
                    name: name->Ok_0,
                    queue: queue->Ok_0,
                },
            )
        }
    }

    open spec fn encoded(value: LeagueListView) -> JsonView {
        JsonView::Object(
            Seq::empty()
                .push(("leagueId"@, <String>::encoded(value.league_id)))
                .push(("entries"@, <Vec<LeagueItem>>::encoded(value.entries)))
                .push(("tier"@, <RankedTier>::encoded(value.tier)))
                .push(("name"@, <String>::encoded(value.name)))
                .push(("queue"@, <RankedQueue>::encoded(value.queue))),
        )
    }

    fn decode(json: &Json) -> (outcome: Result<Self, DecodeFailure>) {
        let league_id = read_required::<String>(json, "leagueId")?;
        let entries = read_required::<Vec<LeagueItem>>(json, "entries")?;
        let tier = read_required::<RankedTier>(json, "tier")?;
        let name = read_required::<String>(json, "name")?;
        let queue = read_required::<RankedQueue>(json, "queue")?;
        Ok(LeagueList { league_id, entries, tier, name, queue })
    }

    fn encode(&self) -> (json: Json) {
        let mut members = no_members();
        push_member::<String>(&mut members, "leagueId", &self.league_id);
        push_member::<Vec<LeagueItem>>(&mut members, "entries", &self.entries);
        push_member::<RankedTier>(&mut members, "tier", &self.tier);
        push_member::<String>(&mut members, "name", &self.name);
        push_member::<RankedQueue>(&mut members, "queue", &self.queue);
        object_of(members)
    }
}

impl RoundTrip for LeagueList {
    proof fn lemma_round_trip(value: LeagueListView) {
        let members = Self::encoded(value)->Object_0;
        reveal_strlit("leagueId");
        reveal_strlit("entries");
        reveal_strlit("tier");
        reveal_strlit("name");
        reveal_strlit("queue");
        assert("leagueId"@.len() == 8);
        assert("entries"@.len() == 7);
        assert("tier"@.len() == 4 && "tier"@[0] == 't');
        assert("name"@.len() == 4 && "name"@[0] == 'n');
        assert("queue"@.len() == 5);
        lemma_lookup_unfolds();
        lemma_required_reads::<String>(members, "leagueId"@, value.league_id);
        lemma_required_reads::<Vec<LeagueItem>>(members, "entries"@, value.entries);
        lemma_required_reads::<RankedTier>(members, "tier"@, value.tier);
        lemma_required_reads::<String>(members, "name"@, value.name);
        lemma_required_reads::<RankedQueue>(members, "queue"@, value.queue);
    }
}

/// The standing of one player inside a league.
#[derive(Clone, Debug, PartialEq, Eq)]
pub struct LeagueItem {
    pub fresh_blood: bool,
    pub wins: u32,
    pub mini_series: MiniSeries,
    pub inactive: bool,
    pub veteran: bool,
    pub hot_streak: bool,
    pub rank: String,
    pub league_points: u32,
    pub losses: u32,
    pub summoner_id: String,
}

/// The standing of one player inside a league, as plain data.
pub struct LeagueItemView {
    pub fresh_blood: bool,
    pub wins: u32,
    pub mini_series: MiniSeriesView,
    pub inactive: bool,
    pub veteran: bool,
    pub hot_streak: bool,
    pub rank: Seq<char>,
    pub league_points: u32,
    pub losses: u32,
    pub summoner_id: Seq<char>,
}

impl DeepView for LeagueItem {
    type V = LeagueItemView;

    open spec fn deep_view(&self) -> LeagueItemView {
        LeagueItemView {
            fresh_blood: self.fresh_blood.deep_view(),
            wins: self.wins.deep_view(),
            mini_series: self.mini_series.deep_view(),
            inactive: self.inactive.deep_view(),
            veteran: self.veteran.deep_view(),
            hot_streak: self.hot_streak.deep_view(),
            rank: self.rank.deep_view(),
            league_points: self.league_points.deep_view(),
            losses: self.losses.deep_view(),
            summoner_id: self.summoner_id.deep_view(),
        }
    }
}

impl Schema for LeagueItem {
    open spec fn decoded(json: JsonView) -> Result<LeagueItemView, DecodeFailureView> {
        let fresh_blood = required::<bool>(json, "fresh_blood"@);
        let wins = required::<u32>(json, "wins"@);
        let mini_series = required::<MiniSeries>(json, "miniSeries"@);
        let inactive = required::<bool>(json, "inactive"@);
        let veteran = required::<bool>(json, "veteran"@);
        let hot_streak = required::<bool>(json, "hotStreak"@);
        let rank = required::<String>(json, "rank"@);
        let league_points = required::<u32>(json, "leaguePoints"@);
        let losses = required::<u32>(json, "losses"@);
        let summoner_id = required::<String>(json, "summonerId"@);
        if fresh_blood is Err {
            Err(fresh_blood->Err_0)
        } else if wins is Err {
            Err(wins->Err_0)
        } else if mini_series is Err {
            Err(mini_series->Err_0)
        } else if inactive is Err {
            Err(inactive->Err_0)
        } else if veteran is Err {
            Err(veteran->Err_0)
        } else if hot_streak is Err {
            Err(hot_streak->Err_0)
        } else if rank is Err {
            Err(rank->Err_0)
        } else if league_points is Err {
            Err(league_points->Err_0)
        } else if losses is Err {
            Err(losses->Err_0)
        } else if summoner_id is Err {
            Err(summoner_id->Err_0)
        } else {
            Ok(
                LeagueItemView {
                    fresh_blood: fresh_blood->Ok_0,
                    wins: wins->Ok_0,
                    mini_series: mini_series->Ok_0,
                    inactive: inactive->Ok_0,
                    veteran: veteran->Ok_0,
                    hot_streak: hot_streak->Ok_0,
                    rank: rank->Ok_0,
                    league_points: league_points->Ok_0,
                    losses: losses->Ok_0,
                    summoner_id: summoner_id->Ok_0,
                },
            )
        }
    }

    open spec fn encoded(value: LeagueItemView) -> JsonView {
        JsonView::Object(
            Seq::empty()
                .push(("fresh_blood"@, <bool>::encoded(value.fresh_blood)))
                .push(("wins"@, <u32>::encoded(value.wins)))
                .push(("miniSeries"@, <MiniSeries>::encoded(value.mini_series)))
                .push(("inactive"@, <bool>::encoded(value.inactive)))
                .push(("veteran"@, <bool>::encoded(value.veteran)))
                .push(("hotStreak"@, <bool>::encoded(value.hot_streak)))
                .push(("rank"@, <String>::encoded(value.rank)))
                .push(("leaguePoints"@, <u32>::encoded(value.league_points)))
                .push(("losses"@, <u32>::encoded(value.losses)))
                .push(("summonerId"@, <String>::encoded(value.summoner_id))),
        )
    }

    fn decode(json: &Json) -> (outcome: Result<Self, DecodeFailure>) {
        let fresh_blood = read_required::<bool>(json, "fresh_blood")?;
        let wins = read_required::<u32>(json, "wins")?;
        let mini_series = read_required::<MiniSeries>(json, "miniSeries")?;
        let inactive = read_required::<bool>(json, "inactive")?;
        let veteran = read_required::<bool>(json, "veteran")?;
        let hot_streak = read_required::<bool>(json, "hotStreak")?;
        let rank = read_required::<String>(json, "rank")?;
        let league_points = read_required::<u32>(json, "leaguePoints")?;
        let losses = read_required::<u32>(json, "losses")?;
        let summoner_id = read_required::<String>(json, "summonerId")?;
        Ok(
            LeagueItem {
                fresh_blood,
                wins,
                mini_series,
                inactive,
                veteran,
                hot_streak,
                rank,
                league_points,
                losses,
                summoner_id,
            },
        )
    }

    fn encode(&self) -> (json: Json) {
        let mut members = no_members();
        push_member::<bool>(&mut members, "fresh_blood", &self.fresh_blood);
        push_member::<u32>(&mut members, "wins", &self.wins);
        push_member::<MiniSeries>(&mut members, "miniSeries", &self.mini_series);
        push_member::<bool>(&mut members, "inactive", &self.inactive);
        push_member::<bool>(&mut members, "veteran", &self.veteran);
        push_member::<bool>(&mut members, "hotStreak", &self.hot_streak);
        push_member::<String>(&mut members, "rank", &self.rank);
        push_member::<u32>(&mut members, "leaguePoints", &self.league_points);
        push_member::<u32>(&mut members, "losses", &self.losses);
        push_member::<String>(&mut members, "summonerId", &self.summoner_id);
        object_of(members)
    }
}

impl RoundTrip for LeagueItem {
    proof fn lemma_round_trip(value: LeagueItemView) {
        let members = Self::encoded(value)->Object_0;
        reveal_strlit("fresh_blood");
        reveal_strlit("wins");
        reveal_strlit("miniSeries");
        reveal_strlit("inactive");
        reveal_strlit("veteran");
        reveal_strlit("hotStreak");
        reveal_strlit("rank");
        reveal_strlit("leaguePoints");
        reveal_strlit("losses");
        reveal_strlit("summonerId");
        assert("fresh_blood"@.len() == 11);
        assert("wins"@.len() == 4 && "wins"@[0] == 'w');
        assert("miniSeries"@.len() == 10 && "miniSeries"@[0] == 'm');
        assert("inactive"@.len() == 8);
        assert("veteran"@.len() == 7);
        assert("hotStreak"@.len() == 9);
        assert("rank"@.len() == 4 && "rank"@[0] == 'r');
        assert("leaguePoints"@.len() == 12);
        assert("losses"@.len() == 6);
        assert("summonerId"@.len() == 10 && "summonerId"@[0] == 's');
        lemma_lookup_unfolds();
        lemma_required_reads::<bool>(members, "fresh_blood"@, value.fresh_blood);
        lemma_required_reads::<u32>(members, "wins"@, value.wins);
        lemma_required_reads::<MiniSeries>(members, "miniSeries"@, value.mini_series);
        lemma_required_reads::<bool>(members, "inactive"@, value.inactive);
        lemma_required_reads::<bool>(members, "veteran"@, value.veteran);
        lemma_required_reads::<bool>(members, "hotStreak"@, value.hot_streak);
        lemma_required_reads::<String>(members, "rank"@, value.rank);
        lemma_required_reads::<u32>(members, "leaguePoints"@, value.league_points);
        lemma_required_reads::<u32>(members, "losses"@, value.losses);
        lemma_required_reads::<String>(members, "summonerId"@, value.summoner_id);
    }
}

/// The page number as it is written in a query.
pub open spec fn page_text(page: Option<u32>) -> Option<Seq<char>> {
    match page {
        Some(number) => Some(decimal(number as nat)),
        None => None,
    }
}

impl LeagueList {
    /// The request for the challenger league of a queue.
    pub fn challenger_by_queue(
        region: ServerRegion,
        api_key: &String,
        queue: RankedQueue,
    ) -> (request: RequestSpec)
        ensures
            request@ == composed(
                Host::Platform(region),
                "/lol/league/v4/challengerleagues/by-queue"@,
                seq![queue.name()],
                Seq::empty(),
                api_key@,
            ),
    {
        let identifiers: Vec<&str> = vec![queue.as_str()];
        let params: Vec<QueryParam> = Vec::new();
        assert(identifiers.deep_view() =~= seq![queue.name()]);
        assert(params.deep_view() =~= Seq::empty());
        RequestSpec::build(
            Host::Platform(region),
            "/lol/league/v4/challengerleagues/by-queue",
            &identifiers,
            &params,
            api_key.as_str(),
        )
    }

    /// The request for the grandmaster league of a queue.
    pub fn grandmaster_by_queue(
        region: ServerRegion,
        api_key: &String,
        queue: RankedQueue,
    ) -> (request: RequestSpec)
        ensures
            request@ == composed(
                Host::Platform(region),
                "/lol/league/v4/grandmasterleagues/by-queue"@,
                seq![queue.name()],
                Seq::empty(),
                api_key@,
            ),
    {
        let identifiers: Vec<&str> = vec![queue.as_str()];
        let params: Vec<QueryParam> = Vec::new();
        assert(identifiers.deep_view() =~= seq![queue.name()]);
        assert(params.deep_view() =~= Seq::empty());
        RequestSpec::build(
            Host::Platform(region),
            "/lol/league/v4/grandmasterleagues/by-queue",
            &identifiers,
            &params,
            api_key.as_str(),
        )
    }

    /// The request for the master league of a queue.
    pub fn master_by_queue(
        region: ServerRegion,
        api_key: &String,
        queue: RankedQueue,
    ) -> (request: RequestSpec)
        ensures
            request@ == composed(
                Host::Platform(region),
                "/lol/league/v4/masterleagues/by-queue"@,
                seq![queue.name()],
                Seq::empty(),
                api_key@,
            ),
    {
        let identifiers: Vec<&str> = vec![queue.as_str()];
        let params: Vec<QueryParam> = Vec::new();
        assert(identifiers.deep_view() =~= seq![queue.name()]);
        assert(params.deep_view() =~= Seq::empty());
        RequestSpec::build(
            Host::Platform(region),
            "/lol/league/v4/masterleagues/by-queue",
            &identifiers,
            &params,
            api_key.as_str(),
        )
    }

    /// The request for the league with an identifier.
    pub fn leagues(
        region: ServerRegion,
        api_key: &String,
        league_id: &String,
    ) -> (request: RequestSpec)
        ensures
            request@ == composed(
                Host::Platform(region),
                "/lol/league/v4/leagues"@,
                seq![league_id@],
                Seq::empty(),
                api_key@,
            ),
    {
        let identifiers: Vec<&str> = vec![league_id.as_str()];
        let params: Vec<QueryParam> = Vec::new();
        assert(identifiers.deep_view() =~= seq![league_id@]);
        assert(params.deep_view() =~= Seq::empty());
        RequestSpec::build(
            Host::Platform(region),
            "/lol/league/v4/leagues",
            &identifiers,
            &params,
            api_key.as_str(),
        )
    }
}

impl LeagueEntry {
    /// The request for the standings of one summoner in all queues.
    pub fn by_summoner(
        region: ServerRegion,
        api_key: &String,
        summoner_id: &String,
    ) -> (request: RequestSpec)
        ensures
            request@ == composed(
                Host::Platform(region),
                "/lol/league/v4/entries/by-summoner"@,
                seq![summoner_id@],
                Seq::empty(),
                api_key@,
            ),
    {
        let identifiers: Vec<&str> = vec![summoner_id.as_str()];
        let params: Vec<QueryParam> = Vec::new();
        assert(identifiers.deep_view() =~= seq![summoner_id@]);
        assert(params.deep_view() =~= Seq::empty());
        RequestSpec::build(
            Host::Platform(region),
            "/lol/league/v4/entries/by-summoner",
            &identifiers,
            &params,
            api_key.as_str(),
        )
    }

    /// The request for the standings in one division of a tier of a queue.
    ///
    /// The path names the queue, the tier and the division, in this order. The
    /// page is sent only when the caller names one.
    pub fn entries(
        region: ServerRegion,
        api_key: &String,
        division: RankedDivision,
        tier: RankedTier,
        queue: RankedQueue,
        page: Option<u32>,
    ) -> (request: RequestSpec)
        ensures
            request@ == composed(
                Host::Platform(region),
                "/lol/league/v4/entries"@,
                seq![queue.name(), tier.name(), division.name()],
                seq![
                    ("page"@, page_text(page)),
                ],
                api_key@,
            ),
    {
        let page_value = match page {
            Some(number) => Some(u64_to_decimal(number as u64)),
            None => None,
        };
        let identifiers: Vec<&str> = vec![queue.as_str(), tier.as_str(), division.as_str()];
        let mut params: Vec<QueryParam> = Vec::new();
        params.push(QueryParam::new("page", page_value));
        assert(identifiers.deep_view() =~= seq![queue.name(), tier.name(), division.name()]);
        assert(params.deep_view() =~= seq![
            ("page"@, page_text(page)),
        ]);
        RequestSpec::build(
            Host::Platform(region),
            "/lol/league/v4/entries",
            &identifiers,
            &params,
            api_key.as_str(),
        )
    }
}

} // verus!
