use vstd::prelude::*;

use crate::InvalidValue;
use crate::text::str_eq;

verus! {

/// Whether the receiving person trusts you.
///
/// A good indicator whether the receiving person trusts you is if they
/// initiate a conversation with you.
#[derive(Clone, Copy, Debug, Hash, PartialEq, Eq, Structural)]
pub enum Trust {
    /// The receiving person does not trust you.
    Absent,
    /// The receiving person trusts you.
    Present,
}

impl Trust {
    /// The display name of each level: what the interface shows, and the
    /// exact text that [`Trust::parse`] accepts for it.
    pub open spec fn spec_name(self) -> Seq<char> {
        match self {
            Trust::Absent => "Absent"@,
            Trust::Present => "Present"@,
        }
    }

    /// The descriptive sentence attached to each level.
    pub open spec fn spec_description(self) -> Seq<char> {
        match self {
            Trust::Absent => "The person has not initiated a conversation with you recently."@,
            Trust::Present => "The person has initiated a conversation with you recently, with no obligation."@,
        }
    }

    /// What a piece of text denotes: exactly the two display names are
    /// accepted, and each yields its own level; everything else is rejected.
    pub open spec fn spec_parse(s: Seq<char>) -> Result<Trust, InvalidValue> {
        if s == "Absent"@ {
            Ok(Trust::Absent)
        } else if s == "Present"@ {
            Ok(Trust::Present)
        } else {
            Err(InvalidValue)
        }
    }

    /// Returns every level exactly once, in declaration order.
    pub fn iter() -> (r: Vec<Trust>)
        ensures
            r@ == seq![Trust::Absent, Trust::Present],
    {
        let mut levels: Vec<Trust> = Vec::new();
        levels.push(Trust::Absent);
        levels.push(Trust::Present);
        proof {
            assert(levels@ =~= seq![Trust::Absent, Trust::Present]);
        }
        levels
    }

    /// The display name of this level.
    pub fn display_name(self) -> (r: &'static str)
        ensures
            r@ == self.spec_name(),
    {
        match self {
            Trust::Absent => "Absent",
            Trust::Present => "Present",
        }
    }

    /// Parses a display name; fails on anything but the exact names.
    pub fn parse(s: &str) -> (r: Result<Trust, InvalidValue>)
        ensures
            r == Trust::spec_parse(s@),
    {
        if str_eq(s, "Absent") {
            Ok(Trust::Absent)
        } else if str_eq(s, "Present") {
            Ok(Trust::Present)
        } else {
            Err(InvalidValue)
        }
    }

    /// The descriptive sentence for this level.
    pub fn description(self) -> (r: &'static str)
        ensures
            r@ == self.spec_description(),
    {
        match self {
            Trust::Absent => "The person has not initiated a conversation with you recently.",
            Trust::Present => "The person has initiated a conversation with you recently, with no obligation.",
        }
    }
}

/// Display names round-trip: parsing the name of any trust level yields that
/// same level back.
pub proof fn lemma_trust_name_round_trip(t: Trust)
    ensures
        Trust::spec_parse(t.spec_name()) == Ok::<Trust, InvalidValue>(t),
{
    reveal_strlit("Absent");
    reveal_strlit("Present");
    assert("Absent"@.len() == 6);
    assert("Present"@.len() == 7);
}

} // verus!
