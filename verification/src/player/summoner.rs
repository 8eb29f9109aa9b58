//! Summoner profiles: a player as one server cluster knows them.

use vstd::prelude::*;
use vstd::string::*;
use crate::schema::{
    lemma_required_reads, no_members, object_of, push_member, read_required, required, RoundTrip,
    Schema,
};
use crate::failure::{DecodeFailure, DecodeFailureView};
use crate::json::{lemma_lookup_unfolds, Json, JsonView};
use crate::region::server::ServerRegion;
use crate::request::{composed, Host, QueryParam, RequestSpec};

verus! {

/// A summoner profile.
#[derive(Clone, Debug, PartialEq, Eq)]
pub struct Summoner {
    account_id: String,
    profile_icon_id: u32,
    revision_date: u64,
    id: String,
    puuid: String,
    summoner_level: u64,
}

/// A summoner profile, as plain data.
pub struct SummonerView {
    pub account_id: Seq<char>,
    pub profile_icon_id: u32,
    pub revision_date: u64,
    pub id: Seq<char>,
    pub puuid: Seq<char>,
    pub summoner_level: u64,
}

impl DeepView for Summoner {
    type V = SummonerView;

    closed spec fn deep_view(&self) -> SummonerView {
        SummonerView {
            account_id: self.account_id.deep_view(),
            profile_icon_id: self.profile_icon_id.deep_view(),
            revision_date: self.revision_date.deep_view(),
            id: self.id.deep_view(),
            puuid: self.puuid.deep_view(),
            summoner_level: self.summoner_level.deep_view(),
        }
    }
}

impl Schema for Summoner {
    open spec fn decoded(json: JsonView) -> Result<SummonerView, DecodeFailureView> {
        let account_id = required::<String>(json, "accountId"@);
        let profile_icon_id = required::<u32>(json, "profileIconId"@);
        let revision_date = required::<u64>(json, "revisionDate"@);
        let id = required::<String>(json, "id"@);
        let puuid = required::<String>(json, "puuid"@);
        let summoner_level = required::<u64>(json, "summonerLevel"@);
        if account_id is Err {
            Err(account_id->Err_0)
        } else if profile_icon_id is Err {
            Err(profile_icon_id->Err_0)
        } else if revision_date is Err {
            Err(revision_date->Err_0)
        } else if id is Err {
            Err(id->Err_0)
        } else if puuid is Err {
            Err(puuid->Err_0)
        } else if summoner_level is Err {
            Err(summoner_level->Err_0)
        } else {
            Ok(
                SummonerView {
                    account_id: account_id->Ok_0,
                    profile_icon_id: profile_icon_id->Ok_0,
                    revision_date: revision_date->Ok_0,
                    id: id->Ok_0,
                    puuid: puuid->Ok_0,
                    summoner_level: summoner_level->Ok_0,
                },
            )
        }
    }

    open spec fn encoded(value: SummonerView) -> JsonView {
        JsonView::Object(
            Seq::empty()
                .push(("accountId"@, <String>::encoded(value.account_id)))
                .push(("profileIconId"@, <u32>::encoded(value.profile_icon_id)))
                .push(("revisionDate"@, <u64>::encoded(value.revision_date)))
                .push(("id"@, <String>::encoded(value.id)))
                .push(("puuid"@, <String>::encoded(value.puuid)))
                .push(("summonerLevel"@, <u64>::encoded(value.summoner_level))),
        )
    }

    fn decode(json: &Json) -> (outcome: Result<Self, DecodeFailure>) {
        let account_id = read_required::<String>(json, "accountId")?;
        let profile_icon_id = read_required::<u32>(json, "profileIconId")?;
        let revision_date = read_required::<u64>(json, "revisionDate")?;
        let id = read_required::<String>(json, "id")?;
        let puuid = read_required::<String>(json, "puuid")?;
        let summoner_level = read_required::<u64>(json, "summonerLevel")?;
        Ok(Summoner { account_id, profile_icon_id, revision_date, id, puuid, summoner_level })
    }

    fn encode(&self) -> (json: Json) {
        let mut members = no_members();
        push_member::<String>(&mut members, "accountId", &self.account_id);
        push_member::<u32>(&mut members, "profileIconId", &self.profile_icon_id);
        push_member::<u64>(&mut members, "revisionDate", &self.revision_date);
        push_member::<String>(&mut members, "id", &self.id);
        push_member::<String>(&mut members, "puuid", &self.puuid);
        push_member::<u64>(&mut members, "summonerLevel", &self.summoner_level);
        object_of(members)
    }
}

impl RoundTrip for Summoner {
    proof fn lemma_round_trip(value: SummonerView) {
        let members = Self::encoded(value)->Object_0;
        reveal_strlit("accountId");
        reveal_strlit("profileIconId");
        reveal_strlit("revisionDate");
        reveal_strlit("id");
        reveal_strlit("puuid");
        reveal_strlit("summonerLevel");
        assert("accountId"@.len() == 9);
        assert("profileIconId"@.len() == 13 && "profileIconId"@[0] == 'p');
        assert("revisionDate"@.len() == 12);
        assert("id"@.len() == 2);
        assert("puuid"@.len() == 5);
        assert("summonerLevel"@.len() == 13 && "summonerLevel"@[0] == 's');
        lemma_lookup_unfolds();
        lemma_required_reads::<String>(members, "accountId"@, value.account_id);
        lemma_required_reads::<u32>(members, "profileIconId"@, value.profile_icon_id);
        lemma_required_reads::<u64>(members, "revisionDate"@, value.revision_date);
        lemma_required_reads::<String>(members, "id"@, value.id);
        lemma_required_reads::<String>(members, "puuid"@, value.puuid);
        lemma_required_reads::<u64>(members, "summonerLevel"@, value.summoner_level);
    }
}
impl Summoner {
    /// The request for the profile of the player that signed in with `rso_puuid`.
    pub fn by_rso_puuid(
        region: ServerRegion,
        api_key: &String,
        rso_puuid: &String,
    ) -> (request: RequestSpec)
        ensures
            request@ == composed(
                Host::Platform(region),
                "/fulfillment/v1/summoners/by-puuid"@,
                seq![rso_puuid@],
                Seq::empty(),
                api_key@,
            ),
    {
        let identifiers: Vec<&str> = vec![rso_puuid.as_str()];
        let params: Vec<QueryParam> = Vec::new();
        assert(identifiers.deep_view() =~= seq![rso_puuid@]);
        assert(params.deep_view() =~= Seq::empty());
        RequestSpec::build(
            Host::Platform(region),
            "/fulfillment/v1/summoners/by-puuid",
            &identifiers,
            &params,
            api_key.as_str(),
        )
    }

    /// The request for the profile with an encrypted account identifier.
    pub fn by_account(
        region: ServerRegion,
        api_key: &String,
        encrypted_account_id: &String,
    ) -> (request: RequestSpec)
        ensures
            request@ == composed(
                Host::Platform(region),
                "/lol/summoner/v4/summoners/by-account"@,
                seq![encrypted_account_id@],
                Seq::empty(),
                api_key@,
            ),
    {
        let identifiers: Vec<&str> = vec![encrypted_account_id.as_str()];
        let params: Vec<QueryParam> = Vec::new();
        assert(identifiers.deep_view() =~= seq![encrypted_account_id@]);
        assert(params.deep_view() =~= Seq::empty());
        RequestSpec::build(
            Host::Platform(region),
            "/lol/summoner/v4/summoners/by-account",
            &identifiers,
            &params,
            api_key.as_str(),
        )
    }

    /// The request for the profile with a player identifier.
    pub fn by_puuid(
        region: ServerRegion,
        api_key: &String,
        puuid: &String,
    ) -> (request: RequestSpec)
        ensures
            request@ == composed(
                Host::Platform(region),
                "/lol/summoner/v4/summoners/by-puuid"@,
                seq![puuid@],
                Seq::empty(),
                api_key@,
            ),
    {
        let identifiers: Vec<&str> = vec![puuid.as_str()];
        let params: Vec<QueryParam> = Vec::new();
        assert(identifiers.deep_view() =~= seq![puuid@]);
        assert(params.deep_view() =~= Seq::empty());
        RequestSpec::build(
            Host::Platform(region),
            "/lol/summoner/v4/summoners/by-puuid",
            &identifiers,
            &params,
            api_key.as_str(),
        )
    }

    /// The request for the profile with a summoner identifier.
    pub fn by_summoner_id(
        region: ServerRegion,
        api_key: &String,
        summoner_id: &String,
    ) -> (request: RequestSpec)
        ensures
            request@ == composed(
                Host::Platform(region),
                "/lol/summoner/v4/summoners"@,
                seq![summoner_id@],
                Seq::empty(),
                api_key@,
            ),
    {
        let identifiers: Vec<&str> = vec![summoner_id.as_str()];
        let params: Vec<QueryParam> = Vec::new();
        assert(identifiers.deep_view() =~= seq![summoner_id@]);
        assert(params.deep_view() =~= Seq::empty());
        RequestSpec::build(
            Host::Platform(region),
            "/lol/summoner/v4/summoners",
            &identifiers,
            &params,
            api_key.as_str(),
        )
    }

    pub fn get_account_id(&self) -> (account_id: &String)
        ensures
            account_id@ == self.deep_view().account_id,
    {
        &self.account_id
    }

    pub fn get_profile_icon_id(&self) -> (profile_icon_id: u32)
        ensures
            profile_icon_id == self.deep_view().profile_icon_id,
    {
        self.profile_icon_id
    }

    pub fn get_revision_date(&self) -> (revision_date: u64)
        ensures
            revision_date == self.deep_view().revision_date,
    {
        self.revision_date
    }

    pub fn get_id(&self) -> (id: &String)
        ensures
            id@ == self.deep_view().id,
    {
        &self.id
    }

    pub fn get_puuid(&self) -> (puuid: &String)
        ensures
            puuid@ == self.deep_view().puuid,
    {
        &self.puuid
    }

    pub fn get_summoner_level(&self) -> (summoner_level: u64)
        ensures
            summoner_level == self.deep_view().summoner_level,
    {
        self.summoner_level
    }

    /// A profile with the given fields.
    pub fn new(
        account_id: String,
        profile_icon_id: u32,
        revision_date: u64,
        id: String,
        puuid: String,
        summoner_level: u64,
    ) -> (summoner: Self)
        ensures
            summoner.deep_view() == (SummonerView {
                account_id: account_id@,
                profile_icon_id,
                revision_date,
                id: id@,
                puuid: puuid@,
                summoner_level,
            }),
    {
        Self { account_id, profile_icon_id, revision_date, id, puuid, summoner_level }
    }
}

} // verus!
