//! The divisions inside a ranked tier.

use vstd::prelude::*;
use vstd::string::*;
use crate::schema::{mismatch, RoundTrip, Schema};
use crate::failure::{DecodeFailure, DecodeFailureView, DecodeReason, UnknownName};
use crate::json::{Json, JsonView};
use crate::text::str_eq;

verus! {

/// A division of a ranked tier; `I` is the highest.
#[derive(Clone, Copy, Debug, PartialEq, Eq, Structural)]
pub enum RankedDivision {
    I,
    II,
    III,
    IV,
}

impl RankedDivision {
    /// The Roman numeral of the division as the wire protocol writes it.
    pub open spec fn name(self) -> Seq<char> {
        match self {
            Self::I => "I"@,
            Self::II => "II"@,
            Self::III => "III"@,
            Self::IV => "IV"@,
        }
    }

    /// The Roman numeral of the division as the wire protocol writes it.
    pub fn as_str(&self) -> (text: &'static str)
        ensures
            text@ == self.name(),
    {
        match self {
            Self::I => "I",
            Self::II => "II",
            Self::III => "III",
            Self::IV => "IV",
        }
    }

    /// The Roman numeral of the division, as an owned string.
    pub fn to_string(&self) -> (text: String)
        ensures
            text@ == self.name(),
    {
        String::from_str(self.as_str())
    }

    /// The division that a text names, if it names one.
    pub open spec fn from_name(text: Seq<char>) -> Option<Self> {
        if exists|division: Self| division.name() == text {
            Some(choose|division: Self| division.name() == text)
        } else {
            None
        }
    }

    /// Reads a division from its numeral. The match is exact, and a text that
    /// names no division is an error that hands the text back: no division ever
    /// stands in for an unknown name.
    pub fn parse(text: &str) -> (parsed: Result<Self, UnknownName>)
        ensures
            match parsed {
                Ok(division) => Self::from_name(text@) == Some(division) && text@ == division.name(),
                Err(unknown) => Self::from_name(text@) is None && unknown.text@ == text@
                    && forall|division: Self| text@ != division.name(),
            },
    {
        let found = if str_eq(text, "I") {
            Some(Self::I)
        } else if str_eq(text, "II") {
            Some(Self::II)
        } else if str_eq(text, "III") {
            Some(Self::III)
        } else if str_eq(text, "IV") {
            Some(Self::IV)
        } else {
            None
        };
        proof {
            if let Some(division) = found {
                assert(division.name() == text@);
                lemma_division_names_distinct(Self::from_name(text@)->0, division);
            }
        }
        match found {
            Some(division) => Ok(division),
            None => Err(UnknownName { text: String::from_str(text) }),
        }
    }
}

impl DeepView for RankedDivision {
    type V = RankedDivision;

    open spec fn deep_view(&self) -> RankedDivision {
        *self
    }
}

impl Schema for RankedDivision {
    /// A division is written as its name; a text that names none is a mismatch.
    open spec fn decoded(json: JsonView) -> Result<RankedDivision, DecodeFailureView> {
        match json {
            JsonView::Str(text) => match RankedDivision::from_name(text) {
                Some(division) => Ok(division),
                None => mismatch(),
            },
            _ => mismatch(),
        }
    }

    open spec fn encoded(value: RankedDivision) -> JsonView {
        JsonView::Str(value.name())
    }

    fn encode(&self) -> (json: Json) {
        Json::Str(self.to_string())
    }

    fn decode(json: &Json) -> (outcome: Result<Self, DecodeFailure>) {
        match json {
            Json::Str(text) => match RankedDivision::parse(text.as_str()) {
                Ok(division) => Ok(division),
                Err(_) => Err(DecodeFailure::here(DecodeReason::TypeMismatch)),
            },
            _ => Err(DecodeFailure::here(DecodeReason::TypeMismatch)),
        }
    }
}

impl RoundTrip for RankedDivision {
    proof fn lemma_round_trip(value: RankedDivision) {
        lemma_division_names_distinct(RankedDivision::from_name(value.name())->0, value);
    }
}

/// The numerals of two different divisions differ.
pub proof fn lemma_division_names_distinct(a: RankedDivision, b: RankedDivision)
    requires
        a.name() == b.name(),
    ensures
        a == b,
{
    reveal_strlit("I");
    reveal_strlit("II");
    reveal_strlit("III");
    reveal_strlit("IV");
    assert("I"@.len() == 1);
    assert("II"@.len() == 2 && "II"@[1] == 'I');
    assert("III"@.len() == 3);
    assert("IV"@.len() == 2 && "IV"@[1] == 'V');
}

} // verus!
