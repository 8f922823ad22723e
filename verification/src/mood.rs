use vstd::prelude::*;

use crate::InvalidValue;
use crate::text::str_eq;

verus! {

/// The mood the receiving person is in.
///
/// The six levels are ordered from worst to best; each carries a rank in
/// `1..=6`, a one-line symptom description, a one-line summary, and a longer
/// rationale paragraph.
#[allow(non_camel_case_types)]
#[derive(Clone, Copy, Debug, Hash, PartialEq, Eq, Structural)]
pub enum Mood {
    /// Unresponsiveness to any interaction. Outbursts, self-harm.
    _01_Anguished,
    /// Silence, eyes stare blankly. Little movement.
    _02_Closed,
    /// One word answers, eyes assessing every detail.
    _03_Cautious,
    /// Asks for justification / to see evidence.
    _04_Unsettled,
    /// No sad symptoms, smile is conscious.
    _05_Calm,
    /// Smiles subconciously.
    _06_Hopeful,
}

impl Mood {
    /// The rank of each mood on a scale of 1 to 10: a bijection onto `1..=6`,
    /// strictly increasing with declaration order. The scale never reaches
    /// 10 because the application's purpose is to bring someone out of
    /// sadness, and has not (yet) extended to joy.
    pub open spec fn spec_rank(self) -> u8 {
        match self {
            Mood::_01_Anguished => 1,
            Mood::_02_Closed => 2,
            Mood::_03_Cautious => 3,
            Mood::_04_Unsettled => 4,
            Mood::_05_Calm => 5,
            Mood::_06_Hopeful => 6,
        }
    }

    /// The mood a rank denotes: the inverse of [`Mood::spec_rank`] on
    /// `1..=6`; every other number is rejected.
    pub open spec fn spec_from_rank(value: u8) -> Result<Mood, InvalidValue> {
        match value {
            1u8 => Ok(Mood::_01_Anguished),
            2u8 => Ok(Mood::_02_Closed),
            3u8 => Ok(Mood::_03_Cautious),
            4u8 => Ok(Mood::_04_Unsettled),
            5u8 => Ok(Mood::_05_Calm),
            6u8 => Ok(Mood::_06_Hopeful),
            _ => Err(InvalidValue),
        }
    }

    /// The display name of each mood: what the interface shows, and the
    /// exact text that [`Mood::parse`] accepts for it.
    pub open spec fn spec_name(self) -> Seq<char> {
        match self {
            Mood::_01_Anguished => "Anguished"@,
            Mood::_02_Closed => "Closed"@,
            Mood::_03_Cautious => "Cautious"@,
            Mood::_04_Unsettled => "Unsettled"@,
            Mood::_05_Calm => "Calm"@,
            Mood::_06_Hopeful => "Hopeful"@,
        }
    }

    /// What a piece of text denotes: exactly the six display names are
    /// accepted, and each yields its own mood; everything else is rejected.
    pub open spec fn spec_parse(s: Seq<char>) -> Result<Mood, InvalidValue> {
        if s == "Anguished"@ {
            Ok(Mood::_01_Anguished)
        } else if s == "Closed"@ {
            Ok(Mood::_02_Closed)
        } else if s == "Cautious"@ {
            Ok(Mood::_03_Cautious)
        } else if s == "Unsettled"@ {
            Ok(Mood::_04_Unsettled)
        } else if s == "Calm"@ {
            Ok(Mood::_05_Calm)
        } else if s == "Hopeful"@ {
            Ok(Mood::_06_Hopeful)
        } else {
            Err(InvalidValue)
        }
    }

    /// The one-line symptom description attached to each mood.
    pub open spec fn spec_symptoms(self) -> Seq<char> {
        match self {
            Mood::_01_Anguished => "Unresponsiveness to any interaction. Outbursts, self-harm."@,
            Mood::_02_Closed => "Silence, eyes stare blankly. Little movement."@,
            Mood::_03_Cautious => "One word answers, eyes assessing every detail."@,
            Mood::_04_Unsettled => "Asks for justification / to see evidence."@,
            Mood::_05_Calm => "No sad symptoms, smile takes conscious effort."@,
            Mood::_06_Hopeful => "Smiles subconciously."@,
        }
    }

    /// The one-line summary sentence attached to each mood.
    pub open spec fn spec_summary(self) -> Seq<char> {
        match self {
            Mood::_01_Anguished => "The person believes that to live is to suffer."@,
            Mood::_02_Closed => "The person believes that trust no longer exists."@,
            Mood::_03_Cautious => "The person only trusts people who know how to empathize."@,
            Mood::_04_Unsettled => "The person is suspicious of people."@,
            Mood::_05_Calm => "The person believes life is okay."@,
            Mood::_06_Hopeful => "The person believes there is good in life."@,
        }
    }

    /// The longer rationale paragraph attached to each mood.
    pub open spec fn spec_description(self) -> Seq<char> {
        match self {
            Mood::_01_Anguished => "Being awake is already experienced as emotional pain, so \
                every stimulus is overwhelming."@,
            Mood::_02_Closed => "No promise of \"better\" gets through, usually because past \
                attempts at improvement have ended in negative experiences. \
                i.e. Don't make things worse"@,
            Mood::_03_Cautious => "The emotions are in a state that the person will hate doing \
                anything an untrusted person says."@,
            Mood::_04_Unsettled => "Trust has been broken, but the person is willing to try and \
                see if it can be mended."@,
            Mood::_05_Calm => "There is little / no bias towards things being positive or \
                negative."@,
            Mood::_06_Hopeful => "The person believes goodness will happen when one works \
                towards it."@,
        }
    }

    /// Returns every mood exactly once, in declaration order, which is also
    /// rank order: the mood at index `i` has rank `i + 1`.
    pub fn iter() -> (r: Vec<Mood>)
        ensures
            r@ == seq![
                Mood::_01_Anguished,
                Mood::_02_Closed,
                Mood::_03_Cautious,
                Mood::_04_Unsettled,
                Mood::_05_Calm,
                Mood::_06_Hopeful,
            ],
            forall|i: int| 0 <= i < r@.len() ==> #[trigger] r@[i].spec_rank() == i + 1,
    {
        let mut moods: Vec<Mood> = Vec::new();
        moods.push(Mood::_01_Anguished);
        moods.push(Mood::_02_Closed);
        moods.push(Mood::_03_Cautious);
        moods.push(Mood::_04_Unsettled);
        moods.push(Mood::_05_Calm);
        moods.push(Mood::_06_Hopeful);
        proof {
            assert(moods@ =~= seq![
                Mood::_01_Anguished,
                Mood::_02_Closed,
                Mood::_03_Cautious,
                Mood::_04_Unsettled,
                Mood::_05_Calm,
                Mood::_06_Hopeful,
            ]);
        }
        moods
    }

    /// The number that this mood would fit on a scale of 1 to 10.
    pub fn rank(self) -> (r: u8)
        ensures
            r == self.spec_rank(),
            1 <= r <= 6,
    {
        match self {
            Mood::_01_Anguished => 1,
            Mood::_02_Closed => 2,
            Mood::_03_Cautious => 3,
            Mood::_04_Unsettled => 4,
            Mood::_05_Calm => 5,
            Mood::_06_Hopeful => 6,
        }
    }

    /// Parses a rank; succeeds exactly on `1..=6`.
    pub fn from_rank(value: u8) -> (r: Result<Mood, InvalidValue>)
        ensures
            r == Mood::spec_from_rank(value),
            r is Ok <==> 1 <= value <= 6,
    {
        match value {
            1 => Ok(Mood::_01_Anguished),
            2 => Ok(Mood::_02_Closed),
            3 => Ok(Mood::_03_Cautious),
            4 => Ok(Mood::_04_Unsettled),
            5 => Ok(Mood::_05_Calm),
            6 => Ok(Mood::_06_Hopeful),
            _ => Err(InvalidValue),
        }
    }

    /// The display name of this mood.
    pub fn display_name(self) -> (r: &'static str)
        ensures
            r@ == self.spec_name(),
    {
        match self {
            Mood::_01_Anguished => "Anguished",
            Mood::_02_Closed => "Closed",
            Mood::_03_Cautious => "Cautious",
            Mood::_04_Unsettled => "Unsettled",
            Mood::_05_Calm => "Calm",
            Mood::_06_Hopeful => "Hopeful",
        }
    }

    /// Parses a display name; fails on anything but the six exact names.
    pub fn parse(s: &str) -> (r: Result<Mood, InvalidValue>)
        ensures
            r == Mood::spec_parse(s@),
    {
        if str_eq(s, "Anguished") {
            Ok(Mood::_01_Anguished)
        } else if str_eq(s, "Closed") {
            Ok(Mood::_02_Closed)
        } else if str_eq(s, "Cautious") {
            Ok(Mood::_03_Cautious)
        } else if str_eq(s, "Unsettled") {
            Ok(Mood::_04_Unsettled)
        } else if str_eq(s, "Calm") {
            Ok(Mood::_05_Calm)
        } else if str_eq(s, "Hopeful") {
            Ok(Mood::_06_Hopeful)
        } else {
            Err(InvalidValue)
        }
    }

    /// The symptom description for this mood.
    pub fn symptoms(self) -> (r: &'static str)
        ensures
            r@ == self.spec_symptoms(),
    {
        match self {
            Mood::_01_Anguished => "Unresponsiveness to any interaction. Outbursts, self-harm.",
            Mood::_02_Closed => "Silence, eyes stare blankly. Little movement.",
            Mood::_03_Cautious => "One word answers, eyes assessing every detail.",
            Mood::_04_Unsettled => "Asks for justification / to see evidence.",
            Mood::_05_Calm => "No sad symptoms, smile takes conscious effort.",
            Mood::_06_Hopeful => "Smiles subconciously.",
        }
    }

    /// The summary sentence for this mood.
    pub fn summary(self) -> (r: &'static str)
        ensures
            r@ == self.spec_summary(),
    {
        match self {
            Mood::_01_Anguished => "The person believes that to live is to suffer.",
            Mood::_02_Closed => "The person believes that trust no longer exists.",
            Mood::_03_Cautious => "The person only trusts people who know how to empathize.",
            Mood::_04_Unsettled => "The person is suspicious of people.",
            Mood::_05_Calm => "The person believes life is okay.",
            Mood::_06_Hopeful => "The person believes there is good in life.",
        }
    }

    /// The rationale paragraph for this mood.
    pub fn description(self) -> (r: &'static str)
        ensures
            r@ == self.spec_description(),
    {
        match self {
            Mood::_01_Anguished => "Being awake is already experienced as emotional pain, so \
                every stimulus is overwhelming.",
            Mood::_02_Closed => "No promise of \"better\" gets through, usually because past \
                attempts at improvement have ended in negative experiences. \
                i.e. Don't make things worse",
            Mood::_03_Cautious => "The emotions are in a state that the person will hate doing \
                anything an untrusted person says.",
            Mood::_04_Unsettled => "Trust has been broken, but the person is willing to try and \
                see if it can be mended.",
            Mood::_05_Calm => "There is little / no bias towards things being positive or \
                negative.",
            Mood::_06_Hopeful => "The person believes goodness will happen when one works \
                towards it.",
        }
    }
}

/// Display names round-trip: parsing the name of any mood yields that same
/// mood back.
pub proof fn lemma_mood_name_round_trip(m: Mood)
    ensures
        Mood::spec_parse(m.spec_name()) == Ok::<Mood, InvalidValue>(m),
{
    reveal_strlit("Anguished");
    reveal_strlit("Closed");
    reveal_strlit("Cautious");
    reveal_strlit("Unsettled");
    reveal_strlit("Calm");
    reveal_strlit("Hopeful");
    assert("Anguished"@.len() == 9);
    assert("Closed"@.len() == 6);
    assert("Cautious"@.len() == 8);
    assert("Unsettled"@.len() == 9);
    assert("Calm"@.len() == 4);
    assert("Hopeful"@.len() == 7);
    assert("Anguished"@[0] == 'A');
    assert("Unsettled"@[0] == 'U');
}

/// Ranks round-trip: the rank of any mood parses back to that same mood, so
/// ranking is a bijection between the six moods and `1..=6`.
pub proof fn lemma_mood_rank_round_trip(m: Mood)
    ensures
        Mood::spec_from_rank(m.spec_rank()) == Ok::<Mood, InvalidValue>(m),
{
}

} // verus!
