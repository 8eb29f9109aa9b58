//! The tiers of the ranked ladder.

use vstd::prelude::*;
use vstd::string::*;
use crate::schema::{mismatch, RoundTrip, Schema};
use crate::failure::{DecodeFailure, DecodeFailureView, DecodeReason, UnknownName};
use crate::json::{Json, JsonView};
use crate::text::str_eq;

verus! {

/// A tier of the ranked ladder, from `IRON` up to `CHALLENGER`.
#[derive(Clone, Copy, Debug, PartialEq, Eq, Structural)]
pub enum RankedTier {
    IRON,
    BRONZE,
    SILVER,
    GOLD,
    PLATINUM,
    EMERALD,
    DIAMOND,
    MASTER,
    GRANDMASTER,
    CHALLENGER,
}

impl RankedTier {
    /// The name of the tier as the wire protocol writes it.
    pub open spec fn name(self) -> Seq<char> {
        match self {
            Self::IRON => "IRON"@,
            Self::BRONZE => "BRONZE"@,
            Self::SILVER => "SILVER"@,
            Self::GOLD => "GOLD"@,
            Self::PLATINUM => "PLATINUM"@,
            Self::EMERALD => "EMERALD"@,
            Self::DIAMOND => "DIAMOND"@,
            Self::MASTER => "MASTER"@,
            Self::GRANDMASTER => "GRANDMASTER"@,
            Self::CHALLENGER => "CHALLENGER"@,
        }
    }

    /// The name of the tier as the wire protocol writes it.
    pub fn as_str(&self) -> (text: &'static str)
        ensures
            text@ == self.name(),
    {
        match self {
            Self::IRON => "IRON",
            Self::BRONZE => "BRONZE",
            Self::SILVER => "SILVER",
            Self::GOLD => "GOLD",
            Self::PLATINUM => "PLATINUM",
            Self::EMERALD => "EMERALD",
            Self::DIAMOND => "DIAMOND",
            Self::MASTER => "MASTER",
            Self::GRANDMASTER => "GRANDMASTER",
            Self::CHALLENGER => "CHALLENGER",
        }
    }

    /// The name of the tier, as an owned string.
    pub fn to_string(&self) -> (text: String)
        ensures
            text@ == self.name(),
    {
        String::from_str(self.as_str())
    }

    /// The tier that a text names, if it names one.
    pub open spec fn from_name(text: Seq<char>) -> Option<Self> {
        if exists|tier: Self| tier.name() == text {
            Some(choose|tier: Self| tier.name() == text)
        } else {
            None
        }
    }

    /// Reads a tier from its wire name. The match is exact, and a text that
    /// names no tier is an error that hands the text back: no tier ever
    /// stands in for an unknown name.
    pub fn parse(text: &str) -> (parsed: Result<Self, UnknownName>)
        ensures
            match parsed {
                Ok(tier) => Self::from_name(text@) == Some(tier) && text@ == tier.name(),
                Err(unknown) => Self::from_name(text@) is None && unknown.text@ == text@
                    && forall|tier: Self| text@ != tier.name(),
            },
    {
        let found = if str_eq(text, "IRON") {
            Some(Self::IRON)
        } else if str_eq(text, "BRONZE") {
            Some(Self::BRONZE)
        } else if str_eq(text, "SILVER") {
            Some(Self::SILVER)
        } else if str_eq(text, "GOLD") {
            Some(Self::GOLD)
        } else if str_eq(text, "PLATINUM") {
            Some(Self::PLATINUM)
        } else if str_eq(text, "EMERALD") {
            Some(Self::EMERALD)
        } else if str_eq(text, "DIAMOND") {
            Some(Self::DIAMOND)
        } else if str_eq(text, "MASTER") {
            Some(Self::MASTER)
        } else if str_eq(text, "GRANDMASTER") {
            Some(Self::GRANDMASTER)
        } else if str_eq(text, "CHALLENGER") {
            Some(Self::CHALLENGER)
        } else {
            None
        };
        proof {
            if let Some(tier) = found {
                assert(tier.name() == text@);
                lemma_tier_names_distinct(Self::from_name(text@)->0, tier);
            }
        }
        match found {
            Some(tier) => Ok(tier),
            None => Err(UnknownName { text: String::from_str(text) }),
        }
    }
}

impl DeepView for RankedTier {
    type V = RankedTier;

    open spec fn deep_view(&self) -> RankedTier {
        *self
    }
}

impl Schema for RankedTier {
    /// A tier is written as its name; a text that names none is a mismatch.
    open spec fn decoded(json: JsonView) -> Result<RankedTier, DecodeFailureView> {
        match json {
            JsonView::Str(text) => match RankedTier::from_name(text) {
                Some(tier) => Ok(tier),
                None => mismatch(),
            },
            _ => mismatch(),
        }
    }

    open spec fn encoded(value: RankedTier) -> JsonView {
        JsonView::Str(value.name())
    }

    fn encode(&self) -> (json: Json) {
        Json::Str(self.to_string())
    }

    fn decode(json: &Json) -> (outcome: Result<Self, DecodeFailure>) {
        match json {
            Json::Str(text) => match RankedTier::parse(text.as_str()) {
                Ok(tier) => Ok(tier),
                Err(_) => Err(DecodeFailure::here(DecodeReason::TypeMismatch)),
            },
            _ => Err(DecodeFailure::here(DecodeReason::TypeMismatch)),
        }
    }
}

impl RoundTrip for RankedTier {
    proof fn lemma_round_trip(value: RankedTier) {
        lemma_tier_names_distinct(RankedTier::from_name(value.name())->0, value);
    }
}

/// The wire names of two different tiers differ.
pub proof fn lemma_tier_names_distinct(a: RankedTier, b: RankedTier)
    requires
        a.name() == b.name(),
    ensures
        a == b,
{
    reveal_strlit("IRON");
    reveal_strlit("BRONZE");
    reveal_strlit("SILVER");
    reveal_strlit("GOLD");
    reveal_strlit("PLATINUM");
    reveal_strlit("EMERALD");
    reveal_strlit("DIAMOND");
    reveal_strlit("MASTER");
    reveal_strlit("GRANDMASTER");
    reveal_strlit("CHALLENGER");
    assert("IRON"@.len() == 4 && "IRON"@[0] == 'I');
    assert("GOLD"@.len() == 4 && "GOLD"@[0] == 'G');
    assert("BRONZE"@.len() == 6 && "BRONZE"@[0] == 'B');
    assert("SILVER"@.len() == 6 && "SILVER"@[0] == 'S');
    assert("MASTER"@.len() == 6 && "MASTER"@[0] == 'M');
    assert("EMERALD"@.len() == 7 && "EMERALD"@[0] == 'E');
    assert("DIAMOND"@.len() == 7 && "DIAMOND"@[0] == 'D');
    assert("PLATINUM"@.len() == 8);
    assert("CHALLENGER"@.len() == 10);
    assert("GRANDMASTER"@.len() == 11);
}

} // verus!
