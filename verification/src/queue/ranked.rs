//! The ranked queues that league standings are kept for.

use vstd::prelude::*;
use vstd::string::*;
use crate::schema::{mismatch, RoundTrip, Schema};
use crate::failure::{DecodeFailure, DecodeFailureView, DecodeReason, UnknownName};
use crate::json::{Json, JsonView};
use crate::text::str_eq;

verus! {

/// A ranked queue.
#[derive(Clone, Copy, Debug, PartialEq, Eq, Structural)]
pub enum RankedQueue {
    RankedSolo5x5,
    RankedFlexSR,
    RankedFlexTT,
}

impl RankedQueue {
    /// The name of the queue as the wire protocol writes it.
    pub open spec fn name(self) -> Seq<char> {
        match self {
            Self::RankedSolo5x5 => "RANKED_SOLO_5X5"@,
            Self::RankedFlexSR => "RANKED_FLEX_SR"@,
            Self::RankedFlexTT => "RANKED_FLEX_TT"@,
        }
    }

    /// The name of the queue as the wire protocol writes it.
    pub fn as_str(&self) -> (text: &'static str)
        ensures
            text@ == self.name(),
    {
        match self {
            Self::RankedSolo5x5 => "RANKED_SOLO_5X5",
            Self::RankedFlexSR => "RANKED_FLEX_SR",
            Self::RankedFlexTT => "RANKED_FLEX_TT",
        }
    }

    /// The name of the queue, as an owned string.
    pub fn to_string(&self) -> (text: String)
        ensures
            text@ == self.name(),
    {
        String::from_str(self.as_str())
    }

    /// The queue that a text names, if it names one.
    pub open spec fn from_name(text: Seq<char>) -> Option<Self> {
        if exists|queue: Self| queue.name() == text {
            Some(choose|queue: Self| queue.name() == text)
        } else {
            None
        }
    }

    /// Reads a queue from its wire name. The match is exact, and a text that
    /// names no queue is an error that hands the text back: no queue ever
    /// stands in for an unknown name.
    pub fn parse(text: &str) -> (parsed: Result<Self, UnknownName>)
        ensures
            match parsed {
                Ok(queue) => Self::from_name(text@) == Some(queue) && text@ == queue.name(),
                Err(unknown) => Self::from_name(text@) is None && unknown.text@ == text@
                    && forall|queue: Self| text@ != queue.name(),
            },
    {
        let found = if str_eq(text, "RANKED_SOLO_5X5") {
            Some(Self::RankedSolo5x5)
        } else if str_eq(text, "RANKED_FLEX_SR") {
            Some(Self::RankedFlexSR)
        } else if str_eq(text, "RANKED_FLEX_TT") {
            Some(Self::RankedFlexTT)
        } else {
            None
        };
        proof {
            if let Some(queue) = found {
                assert(queue.name() == text@);
                lemma_queue_names_distinct(Self::from_name(text@)->0, queue);
            }
        }
        match found {
            Some(queue) => Ok(queue),
            None => Err(UnknownName { text: String::from_str(text) }),
        }
    }
}

impl DeepView for RankedQueue {
    type V = RankedQueue;

    open spec fn deep_view(&self) -> RankedQueue {
        *self
    }
}

impl Schema for RankedQueue {
    /// A queue is written as its name; a text that names none is a mismatch.
    open spec fn decoded(json: JsonView) -> Result<RankedQueue, DecodeFailureView> {
        match json {
            JsonView::Str(text) => match RankedQueue::from_name(text) {
                Some(queue) => Ok(queue),
                None => mismatch(),
            },
            _ => mismatch(),
        }
    }

    open spec fn encoded(value: RankedQueue) -> JsonView {
        JsonView::Str(value.name())
    }

    fn encode(&self) -> (json: Json) {
        Json::Str(self.to_string())
    }

    fn decode(json: &Json) -> (outcome: Result<Self, DecodeFailure>) {
        match json {
            Json::Str(text) => match RankedQueue::parse(text.as_str()) {
                Ok(queue) => Ok(queue),
                Err(_) => Err(DecodeFailure::here(DecodeReason::TypeMismatch)),
            },
            _ => Err(DecodeFailure::here(DecodeReason::TypeMismatch)),
        }
    }
}

impl RoundTrip for RankedQueue {
    proof fn lemma_round_trip(value: RankedQueue) {
        lemma_queue_names_distinct(RankedQueue::from_name(value.name())->0, value);
    }
}

/// The wire names of two different queues differ.
pub proof fn lemma_queue_names_distinct(a: RankedQueue, b: RankedQueue)
    requires
        a.name() == b.name(),
    ensures
        a == b,
{
    reveal_strlit("RANKED_SOLO_5X5");
    reveal_strlit("RANKED_FLEX_SR");
    reveal_strlit("RANKED_FLEX_TT");
    assert("RANKED_SOLO_5X5"@.len() == 15);
    assert("RANKED_FLEX_SR"@.len() == 14 && "RANKED_FLEX_SR"@[13] == 'R');
    assert("RANKED_FLEX_TT"@.len() == 14 && "RANKED_FLEX_TT"@[13] == 'T');
}

} // verus!
