//! The coarse kind of a match queue, used to filter match lists.

use vstd::prelude::*;
use vstd::string::*;

verus! {

/// The kind of queue a match was played in.
#[derive(Clone, Copy, Debug, PartialEq, Eq, Structural)]
pub enum QueueType {
    RANKED,
    NORMAL,
    TOURNEY,
    TUTORIAL,
}

impl QueueType {
    /// The name of the queue kind as the wire protocol writes it.
    pub open spec fn name(self) -> Seq<char> {
        match self {
            Self::RANKED => "RANKED"@,
            Self::NORMAL => "NORMAL"@,
            Self::TOURNEY => "TOURNEY"@,
            Self::TUTORIAL => "TUTORIAL"@,
        }
    }

    /// The name of the queue kind as the wire protocol writes it.
    pub fn as_str(&self) -> (text: &'static str)
        ensures
            text@ == self.name(),
    {
        match self {
            Self::RANKED => "RANKED",
            Self::NORMAL => "NORMAL",
            Self::TOURNEY => "TOURNEY",
            Self::TUTORIAL => "TUTORIAL",
        }
    }

    /// The name of the queue kind, as an owned string.
    pub fn to_string(&self) -> (text: String)
        ensures
            text@ == self.name(),
    {
        String::from_str(self.as_str())
    }
}

} // verus!
