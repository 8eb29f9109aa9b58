//! Platform regions: one per physical server cluster.

use vstd::prelude::*;
use vstd::string::*;
use crate::text::{lowercase_of, str_eq, to_lowercase};

verus! {

/// The failure of [`ServerRegion::parse`]: the text names no platform region.
#[derive(Clone, Debug, PartialEq, Eq)]
pub struct UnknownRegion {
    /// The text that was given, unchanged.
    pub text: String,
}

/// A server cluster that player accounts live on.
#[allow(non_camel_case_types)]
#[derive(Clone, Copy, Debug, PartialEq, Eq, Structural)]
pub enum ServerRegion {
    BR1,
    EUN1,
    EUW1,
    JP1,
    KR,
    LA1,
    LA2,
    ME1,
    NA1,
    OC1,
    PH2,
    RU,
    SG2,
    TH2,
    TR1,
    TW2,
    VN2,
}

impl ServerRegion {
    /// The canonical lowercase code of the region, as it appears in host names.
    pub open spec fn code(self) -> Seq<char> {
        match self {
            Self::BR1 => "br1"@,
            Self::EUN1 => "eun1"@,
            Self::EUW1 => "euw1"@,
            Self::JP1 => "jp1"@,
            Self::KR => "kr"@,
            Self::LA1 => "la1"@,
            Self::LA2 => "la2"@,
            Self::ME1 => "me1"@,
            Self::NA1 => "na1"@,
            Self::OC1 => "oc1"@,
            Self::PH2 => "ph2"@,
            Self::RU => "ru"@,
            Self::SG2 => "sg2"@,
            Self::TH2 => "th2"@,
            Self::TR1 => "tr1"@,
            Self::TW2 => "tw2"@,
            Self::VN2 => "vn2"@,
        }
    }

    /// Whether a lowercase identifier names this region: its canonical code
    /// does, and `br` is accepted as a second name of `BR1`.
    pub open spec fn named_by(self, lowered: Seq<char>) -> bool {
        lowered == self.code() || (self == Self::BR1 && lowered == "br"@)
    }

    /// The canonical lowercase code of the region.
    pub fn as_str(&self) -> (text: &'static str)
        ensures
            text@ == self.code(),
    {
        match self {
            Self::BR1 => "br1",
            Self::EUN1 => "eun1",
            Self::EUW1 => "euw1",
            Self::JP1 => "jp1",
            Self::KR => "kr",
            Self::LA1 => "la1",
            Self::LA2 => "la2",
            Self::ME1 => "me1",
            Self::NA1 => "na1",
            Self::OC1 => "oc1",
            Self::PH2 => "ph2",
            Self::RU => "ru",
            Self::SG2 => "sg2",
            Self::TH2 => "th2",
            Self::TR1 => "tr1",
            Self::TW2 => "tw2",
            Self::VN2 => "vn2",
        }
    }

    /// The canonical lowercase code of the region, as an owned string.
    pub fn to_string(&self) -> (text: String)
        ensures
            text@ == self.code(),
    {
        String::from_str(self.as_str())
    }

    /// Finds the region that a lowercase identifier names.
    ///
    /// The comparison is exact: callers that accept any letter case lower the
    /// text first, as [`ServerRegion::parse`] does.
    pub fn from_code(lowered: &str) -> (found: Option<Self>)
        ensures
            match found {
                Some(region) => region.named_by(lowered@),
                None => forall|region: Self| !region.named_by(lowered@),
            },
    {
        if str_eq(lowered, "br") || str_eq(lowered, "br1") {
            Some(Self::BR1)
        } else if str_eq(lowered, "eun1") {
            Some(Self::EUN1)
        } else if str_eq(lowered, "euw1") {
            Some(Self::EUW1)
        } else if str_eq(lowered, "jp1") {
            Some(Self::JP1)
        } else if str_eq(lowered, "kr") {
            Some(Self::KR)
        } else if str_eq(lowered, "la1") {
            Some(Self::LA1)
        } else if str_eq(lowered, "la2") {
            Some(Self::LA2)
        } else if str_eq(lowered, "me1") {
            Some(Self::ME1)
        } else if str_eq(lowered, "na1") {
            Some(Self::NA1)
        } else if str_eq(lowered, "oc1") {
            Some(Self::OC1)
        } else if str_eq(lowered, "ph2") {
            Some(Self::PH2)
        } else if str_eq(lowered, "ru") {
            Some(Self::RU)
        } else if str_eq(lowered, "sg2") {
            Some(Self::SG2)
        } else if str_eq(lowered, "th2") {
            Some(Self::TH2)
        } else if str_eq(lowered, "tr1") {
            Some(Self::TR1)
        } else if str_eq(lowered, "tw2") {
            Some(Self::TW2)
        } else if str_eq(lowered, "vn2") {
            Some(Self::VN2)
        } else {
            None
        }
    }

    /// Reads a platform region from its identifier, in any letter case.
    ///
    /// The text is lowered with the Unicode rules of `str::to_lowercase` and
    /// then matched exactly. A text that names no region is an error that
    /// hands the text back; no region is ever substituted for it.
    pub fn parse(text: &str) -> (parsed: Result<Self, UnknownRegion>)
        ensures
            match parsed {
                Ok(region) => region.named_by(lowercase_of(text@)),
                Err(unknown) => unknown.text@ == text@ && forall|region: Self|
                    !region.named_by(lowercase_of(text@)),
            },
    {
        let lowered = to_lowercase(text);
        match Self::from_code(lowered.as_str()) {
            Some(region) => Ok(region),
            None => Err(UnknownRegion { text: String::from_str(text) }),
        }
    }
}

/// Reveals what each canonical code and the alias `br` hold.
pub proof fn lemma_codes_revealed()
    ensures
        "br"@ == seq!['b', 'r'],
        ServerRegion::BR1.code() == seq!['b', 'r', '1'],
        ServerRegion::EUN1.code() == seq!['e', 'u', 'n', '1'],
        ServerRegion::EUW1.code() == seq!['e', 'u', 'w', '1'],
        ServerRegion::JP1.code() == seq!['j', 'p', '1'],
        ServerRegion::KR.code() == seq!['k', 'r'],
        ServerRegion::LA1.code() == seq!['l', 'a', '1'],
        ServerRegion::LA2.code() == seq!['l', 'a', '2'],
        ServerRegion::ME1.code() == seq!['m', 'e', '1'],
        ServerRegion::NA1.code() == seq!['n', 'a', '1'],
        ServerRegion::OC1.code() == seq!['o', 'c', '1'],
        ServerRegion::PH2.code() == seq!['p', 'h', '2'],
        ServerRegion::RU.code() == seq!['r', 'u'],
        ServerRegion::SG2.code() == seq!['s', 'g', '2'],
        ServerRegion::TH2.code() == seq!['t', 'h', '2'],
        ServerRegion::TR1.code() == seq!['t', 'r', '1'],
        ServerRegion::TW2.code() == seq!['t', 'w', '2'],
        ServerRegion::VN2.code() == seq!['v', 'n', '2'],
{
    reveal_strlit("br");
    reveal_strlit("br1");
    reveal_strlit("eun1");
    reveal_strlit("euw1");
    reveal_strlit("jp1");
    reveal_strlit("kr");
    reveal_strlit("la1");
    reveal_strlit("la2");
    reveal_strlit("me1");
    reveal_strlit("na1");
    reveal_strlit("oc1");
    reveal_strlit("ph2");
    reveal_strlit("ru");
    reveal_strlit("sg2");
    reveal_strlit("th2");
    reveal_strlit("tr1");
    reveal_strlit("tw2");
    reveal_strlit("vn2");
    assert("br"@ =~= seq!['b', 'r']);
    assert("br1"@ =~= seq!['b', 'r', '1']);
    assert("eun1"@ =~= seq!['e', 'u', 'n', '1']);
    assert("euw1"@ =~= seq!['e', 'u', 'w', '1']);
    assert("jp1"@ =~= seq!['j', 'p', '1']);
    assert("kr"@ =~= seq!['k', 'r']);
    assert("la1"@ =~= seq!['l', 'a', '1']);
    assert("la2"@ =~= seq!['l', 'a', '2']);
    assert("me1"@ =~= seq!['m', 'e', '1']);
    assert("na1"@ =~= seq!['n', 'a', '1']);
    assert("oc1"@ =~= seq!['o', 'c', '1']);
    assert("ph2"@ =~= seq!['p', 'h', '2']);
    assert("ru"@ =~= seq!['r', 'u']);
    assert("sg2"@ =~= seq!['s', 'g', '2']);
    assert("th2"@ =~= seq!['t', 'h', '2']);
    assert("tr1"@ =~= seq!['t', 'r', '1']);
    assert("tw2"@ =~= seq!['t', 'w', '2']);
    assert("vn2"@ =~= seq!['v', 'n', '2']);
}

/// No identifier names two regions: the codes differ pairwise, and the alias
/// `br` is no region's code.
pub proof fn lemma_name_is_unique(a: ServerRegion, b: ServerRegion, lowered: Seq<char>)
    requires
        a.named_by(lowered),
        b.named_by(lowered),
    ensures
        a == b,
{
    lemma_codes_revealed();
    assert(lowered.len() >= 2);
    assert(lowered[0] == a.code()[0] && lowered[0] == b.code()[0]);
    assert(lowered[1] == a.code()[1] && lowered[1] == b.code()[1]);
    if lowered.len() >= 3 {
        assert(lowered[2] == a.code()[2] && lowered[2] == b.code()[2]);
    }
}

/// Every region is found again from its own canonical code.
pub proof fn lemma_code_names_region(region: ServerRegion)
    ensures
        region.named_by(region.code()),
        forall|other: ServerRegion| other.named_by(region.code()) ==> other == region,
{
    assert forall|other: ServerRegion| other.named_by(region.code()) implies other == region by {
        lemma_name_is_unique(other, region, region.code());
    }
}

} // verus!
