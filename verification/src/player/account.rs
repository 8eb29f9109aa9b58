//! Accounts: the identity of a player across games.

use vstd::prelude::*;
use vstd::string::*;
use crate::schema::{
    encoded_option, lemma_optional_reads, lemma_required_reads, no_members, object_of, optional,
    push_member, push_optional_member, read_optional, read_required, required, RoundTrip,
    Schema,
};
use crate::failure::{DecodeFailure, DecodeFailureView};
use crate::json::{lemma_lookup_unfolds, Json, JsonView};
use crate::region::routing::RoutingRegion;
use crate::request::{composed, Host, QueryParam, RequestSpec};

verus! {

/// An account.
#[derive(Clone, Debug, PartialEq, Eq)]
pub struct RiotAccount {
    puuid: String,
    game_name: Option<String>,
    tag_line: Option<String>,
}

/// An account as plain data.
pub struct RiotAccountView {
    pub puuid: Seq<char>,
    pub game_name: Option<Seq<char>>,
    pub tag_line: Option<Seq<char>>,
}

impl DeepView for RiotAccount {
    type V = RiotAccountView;

    closed spec fn deep_view(&self) -> RiotAccountView {
        RiotAccountView {
            puuid: self.puuid@,
            game_name: self.game_name.deep_view(),
            tag_line: self.tag_line.deep_view(),
        }
    }
}

impl Schema for RiotAccount {
    /// The account that a payload describes: `puuid` is required, the
    /// display name and the tag are optional.
    open spec fn decoded(json: JsonView) -> Result<RiotAccountView, DecodeFailureView> {
        let puuid = required::<String>(json, "puuid"@);
        let game_name = optional::<String>(json, "game_name"@);
        let tag_line = optional::<String>(json, "tag_line"@);
        if puuid is Err {
            Err(puuid->Err_0)
        } else if game_name is Err {
            Err(game_name->Err_0)
        } else if tag_line is Err {
            Err(tag_line->Err_0)
        } else {
            Ok(
                RiotAccountView {
                    puuid: puuid->Ok_0,
                    game_name: game_name->Ok_0,
                    tag_line: tag_line->Ok_0,
                },
            )
        }
    }

    open spec fn encoded(value: RiotAccountView) -> JsonView {
        JsonView::Object(
            Seq::empty()
                .push(("puuid"@, <String>::encoded(value.puuid)))
                .push(("game_name"@, encoded_option::<String>(value.game_name)))
                .push(("tag_line"@, encoded_option::<String>(value.tag_line))),
        )
    }

    fn encode(&self) -> (json: Json) {
        let mut members = no_members();
        push_member::<String>(&mut members, "puuid", &self.puuid);
        push_optional_member::<String>(&mut members, "game_name", &self.game_name);
        push_optional_member::<String>(&mut members, "tag_line", &self.tag_line);
        object_of(members)
    }

    fn decode(json: &Json) -> (outcome: Result<Self, DecodeFailure>) {
        let puuid = read_required::<String>(json, "puuid")?;
        let game_name = read_optional::<String>(json, "game_name")?;
        let tag_line = read_optional::<String>(json, "tag_line")?;
        Ok(RiotAccount { puuid, game_name, tag_line })
    }
}

impl RoundTrip for RiotAccount {
    proof fn lemma_round_trip(value: RiotAccountView) {
        let members = Self::encoded(value)->Object_0;
        reveal_strlit("puuid");
        reveal_strlit("game_name");
        reveal_strlit("tag_line");
        assert("puuid"@.len() == 5 && "game_name"@.len() == 9 && "tag_line"@.len() == 8);
        lemma_lookup_unfolds();
        lemma_required_reads::<String>(members, "puuid"@, value.puuid);
        lemma_optional_reads::<String>(members, "game_name"@, value.game_name);
        lemma_optional_reads::<String>(members, "tag_line"@, value.tag_line);
    }
}

impl RiotAccount {
    /// The request for the account with a display name and tag.
    pub fn by_riot_id(
        region: RoutingRegion,
        api_key: &String,
        game_name: &String,
        tag_line: &String,
    ) -> (request: RequestSpec)
        ensures
            request@ == composed(
                Host::Routing(region),
                "/riot/account/v1/accounts/by-riot-id"@,
                seq![game_name@, tag_line@],
                Seq::empty(),
                api_key@,
            ),
    {
        let identifiers: Vec<&str> = vec![game_name.as_str(), tag_line.as_str()];
        let params: Vec<QueryParam> = Vec::new();
        assert(identifiers.deep_view() =~= seq![game_name@, tag_line@]);
        assert(params.deep_view() =~= Seq::empty());
        RequestSpec::build(
            Host::Routing(region),
            "/riot/account/v1/accounts/by-riot-id",
            &identifiers,
            &params,
            api_key.as_str(),
        )
    }

    /// The request for the account with a player identifier.
    pub fn by_puuid(region: RoutingRegion, api_key: &String, puuid: &String) -> (request:
        RequestSpec)
        ensures
            request@ == composed(
                Host::Routing(region),
                "/riot/account/v1/accounts/by-puuid"@,
                seq![puuid@],
                Seq::empty(),
                api_key@,
            ),
    {
        let identifiers: Vec<&str> = vec![puuid.as_str()];
        let params: Vec<QueryParam> = Vec::new();
        assert(identifiers.deep_view() =~= seq![puuid@]);
        assert(params.deep_view() =~= Seq::empty());
        RequestSpec::build(
            Host::Routing(region),
            "/riot/account/v1/accounts/by-puuid",
            &identifiers,
            &params,
            api_key.as_str(),
        )
    }

    pub fn get_puuid(&self) -> (puuid: &String)
        ensures
            puuid@ == self.deep_view().puuid,
    {
        &self.puuid
    }

    pub fn get_game_name(&self) -> (game_name: &Option<String>)
        ensures
            game_name.deep_view() == self.deep_view().game_name,
    {
        &self.game_name
    }

    pub fn get_tag_line(&self) -> (tag_line: &Option<String>)
        ensures
            tag_line.deep_view() == self.deep_view().tag_line,
    {
        &self.tag_line
    }

    pub fn new(puuid: String, game_name: Option<String>, tag_line: Option<String>) -> (account:
        Self)
        ensures
            account.deep_view() == (RiotAccountView {
                puuid: puuid@,
                game_name: game_name.deep_view(),
                tag_line: tag_line.deep_view(),
            }),
    {
        Self { puuid, game_name, tag_line }
    }
}

} // verus!
