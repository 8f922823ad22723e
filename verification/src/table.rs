use std::collections::HashMap;
use vstd::prelude::*;

use crate::mood::Mood;
use crate::suggestion::Suggestion;
use crate::trust::Trust;

verus! {

broadcast use vstd::std_specs::hash::group_hash_axioms;

/// The key under which a (trust, mood) pair is stored: the mood's rank,
/// offset by ten when trust is present. Distinct pairs get distinct keys.
pub open spec fn spec_pair_key(trust: Trust, mood: Mood) -> u64 {
    match (trust, mood) {
        (Trust::Absent, Mood::_01_Anguished) => 1,
        (Trust::Absent, Mood::_02_Closed) => 2,
        (Trust::Absent, Mood::_03_Cautious) => 3,
        (Trust::Absent, Mood::_04_Unsettled) => 4,
        (Trust::Absent, Mood::_05_Calm) => 5,
        (Trust::Absent, Mood::_06_Hopeful) => 6,
        (Trust::Present, Mood::_01_Anguished) => 11,
        (Trust::Present, Mood::_02_Closed) => 12,
        (Trust::Present, Mood::_03_Cautious) => 13,
        (Trust::Present, Mood::_04_Unsettled) => 14,
        (Trust::Present, Mood::_05_Calm) => 15,
        (Trust::Present, Mood::_06_Hopeful) => 16,
    }
}

/// The action authored for each (trust, mood) pair.
pub open spec fn spec_action(trust: Trust, mood: Mood) -> Seq<char> {
    match (trust, mood) {
        (Trust::Absent, Mood::_01_Anguished) => "Stay away"@,
        (Trust::Absent, Mood::_02_Closed) => "Stay away"@,
        (Trust::Absent, Mood::_03_Cautious) => "Occasionally ask if they want something"@,
        (Trust::Absent, Mood::_04_Unsettled) => "Ask, \"would you like to say anything?\", then wait."@,
        (Trust::Absent, Mood::_05_Calm) => "Be calm / hopeful."@,
        (Trust::Absent, Mood::_06_Hopeful) => "Enjoy yourselves."@,
        (Trust::Present, Mood::_01_Anguished) => "Be fully present with them"@,
        (Trust::Present, Mood::_02_Closed) => "Remain at a small distance"@,
        (Trust::Present, Mood::_03_Cautious) => "Occasionally ask if they want something"@,
        (Trust::Present, Mood::_04_Unsettled) => "Ask, \"would you like to say anything?\", then wait."@,
        (Trust::Present, Mood::_05_Calm) => "Be calm / hopeful."@,
        (Trust::Present, Mood::_06_Hopeful) => "Enjoy yourselves."@,
    }
}

/// The rationale authored for each (trust, mood) pair.
pub open spec fn spec_rationale(trust: Trust, mood: Mood) -> Seq<char> {
    match (trust, mood) {
        (Trust::Absent, Mood::_01_Anguished) => "As a \"stranger\", your presence pressurizes the person, \
            and may aggravate them, even when your motive is pure.\n\
            \n\
            It may be best to find someone whom they already trust."@,
        (Trust::Absent, Mood::_02_Closed) => "Leave a gift if you must (e.g. chocolate), but your \
            presence pressurizes the person.\n\
            \n\
            If they accept the gift in your  absence, then that may be the \
            beginning of trust."@,
        (Trust::Absent, Mood::_03_Cautious) => "If you are sure the person wants something (that \
            isn't harmful), ask \"do you want ____\"?\n\
            \n\
            Make sure the conversation is paced such that they are able to \
            handle it.\n\
            \n\
            Don't ask why, don't require an answer -- provide a way \"out\" \
            (e.g. \"you don't have to answer\"). Asking such questions is \
            perceived as \"justify yourself\", and may cause them to hate \
            you (which they may not vocalize)."@,
        (Trust::Absent, Mood::_04_Unsettled) => "Just listen, don't problem solve -- you haven't established \
            trust with the person to do so.\n\
            \n\
            At this stage, you may have some rational conversation, but \
            nothing that would introduce too much emotional pressure.\n\
            \n\
            Be ready to leave them alone if that is what they want (they \
            may not say it)."@,
        (Trust::Absent, Mood::_05_Calm) => "Find some gentle fun -- the person is ready to explore.\n\
            \n\
            Be ready to leave them alone if that is what they want (they \
            may not say it)."@,
        (Trust::Absent, Mood::_06_Hopeful) => "Make new happy memories -- the person needs them.\n\
            \n\
            This is your chance to help them believe life can be good."@,
        (Trust::Present, Mood::_01_Anguished) => "Simply sit quietly with them and allow them to \
            grieve.\n\
            \n\
            Any more than that may overwhelm the person."@,
        (Trust::Present, Mood::_02_Closed) => "Leave a gift if you have one, to show that they are \
            still someone you care for; but allow a little distance -- \
            your presence may feel like pressure to the person in the \
            moment.\n\
            \n\
            Distance allows them to settle, proximity allows them to feel \
            cared for."@,
        (Trust::Present, Mood::_03_Cautious) => "If you are sure the person wants something (that \
            isn't harmful), ask \"do you want ____\"?\n\
            \n\
            Make sure the conversation is paced such that they are able to \
            handle it.\n\
            \n\
            Don't ask why, don't require an answer -- provide a way \"out\" \
            (e.g. \"you don't have to answer\"). Asking such questions is \
            perceived as \"justify yourself\", and may cause them to hate \
            you (which they may not vocalize)."@,
        (Trust::Present, Mood::_04_Unsettled) => "Listen, and if it feels right you may ask, \"Would \
            you like some help with it?\" (if you are able to help).\n\
            \n\
            At this stage, you may have some rational conversation, but \
            nothing that would introduce too much emotional pressure.\n\
        "@,
        (Trust::Present, Mood::_05_Calm) => "Find some gentle fun -- the person is ready to explore."@,
        (Trust::Present, Mood::_06_Hopeful) => "Make new happy memories -- the person needs them.\n\
            \n\
            Help them remember life can be good."@,
    }
}

/// A map holds the full recommendation data: every one of the twelve
/// (trust, mood) pairs is present under its key, with the authored action
/// and rationale.
pub open spec fn table_complete(m: Map<u64, Suggestion>) -> bool {
    forall|trust: Trust, mood: Mood|
        #![trigger spec_pair_key(trust, mood)]
        {
            &&& m.contains_key(spec_pair_key(trust, mood))
            &&& m[spec_pair_key(trust, mood)].action@ == spec_action(trust, mood)
            &&& m[spec_pair_key(trust, mood)].description@ == spec_rationale(trust, mood)
        }
}

/// The key under which the suggestion for a (trust, mood) pair is stored.
pub fn pair_key(trust: Trust, mood: Mood) -> (k: u64)
    ensures
        k == spec_pair_key(trust, mood),
{
    let base: u64 = match trust {
        Trust::Absent => 0,
        Trust::Present => 10,
    };
    base + (mood.rank() as u64)
}

/// Default suggestions: one entry for every (trust, mood) pair.
pub fn suggestions_map() -> (suggestions: HashMap<u64, Suggestion>)
    ensures
        table_complete(suggestions@),
{
    let mut suggestions: HashMap<u64, Suggestion> = HashMap::with_capacity(32);
    suggestions.insert(
        pair_key(Trust::Absent, Mood::_01_Anguished),
        Suggestion {
            action: "Stay away",
            description: "As a \"stranger\", your presence pressurizes the person, \
                and may aggravate them, even when your motive is pure.\n\
                \n\
                It may be best to find someone whom they already trust.",
        },
    );
    suggestions.insert(
        pair_key(Trust::Absent, Mood::_02_Closed),
        Suggestion {
            action: "Stay away",
            description: "Leave a gift if you must (e.g. chocolate), but your \
                presence pressurizes the person.\n\
                \n\
                If they accept the gift in your  absence, then that may be the \
                beginning of trust.",
        },
    );
    suggestions.insert(
        pair_key(Trust::Absent, Mood::_03_Cautious),
        Suggestion {
            action: "Occasionally ask if they want something",
            description: "If you are sure the person wants something (that \
                isn't harmful), ask \"do you want ____\"?\n\
                \n\
                Make sure the conversation is paced such that they are able to \
                handle it.\n\
                \n\
                Don't ask why, don't require an answer -- provide a way \"out\" \
                (e.g. \"you don't have to answer\"). Asking such questions is \
                perceived as \"justify yourself\", and may cause them to hate \
                you (which they may not vocalize).",
        },
    );
    suggestions.insert(
        pair_key(Trust::Absent, Mood::_04_Unsettled),
        Suggestion {
            action: "Ask, \"would you like to say anything?\", then wait.",
            description: "Just listen, don't problem solve -- you haven't established \
                trust with the person to do so.\n\
                \n\
                At this stage, you may have some rational conversation, but \
                nothing that would introduce too much emotional pressure.\n\
                \n\
                Be ready to leave them alone if that is what they want (they \
                may not say it).",
        },
    );
    suggestions.insert(
        pair_key(Trust::Absent, Mood::_05_Calm),
        Suggestion {
            action: "Be calm / hopeful.",
            description: "Find some gentle fun -- the person is ready to explore.\n\
                \n\
                Be ready to leave them alone if that is what they want (they \
                may not say it).",
        },
    );
    suggestions.insert(
        pair_key(Trust::Absent, Mood::_06_Hopeful),
        Suggestion {
            action: "Enjoy yourselves.",
            description: "Make new happy memories -- the person needs them.\n\
                \n\
                This is your chance to help them believe life can be good.",
        },
    );
    suggestions.insert(
        pair_key(Trust::Present, Mood::_01_Anguished),
        Suggestion {
            action: "Be fully present with them",
            description: "Simply sit quietly with them and allow them to \
                grieve.\n\
                \n\
                Any more than that may overwhelm the person.",
        },
    );
    suggestions.insert(
        pair_key(Trust::Present, Mood::_02_Closed),
        Suggestion {
            action: "Remain at a small distance",
            description: "Leave a gift if you have one, to show that they are \
                still someone you care for; but allow a little distance -- \
                your presence may feel like pressure to the person in the \
                moment.\n\
                \n\
                Distance allows them to settle, proximity allows them to feel \
                cared for.",
        },
    );
    suggestions.insert(
        pair_key(Trust::Present, Mood::_03_Cautious),
        Suggestion {
            action: "Occasionally ask if they want something",
            description: "If you are sure the person wants something (that \
                isn't harmful), ask \"do you want ____\"?\n\
                \n\
                Make sure the conversation is paced such that they are able to \
                handle it.\n\
                \n\
                Don't ask why, don't require an answer -- provide a way \"out\" \
                (e.g. \"you don't have to answer\"). Asking such questions is \
                perceived as \"justify yourself\", and may cause them to hate \
                you (which they may not vocalize).",
        },
    );
    suggestions.insert(
        pair_key(Trust::Present, Mood::_04_Unsettled),
        Suggestion {
            action: "Ask, \"would you like to say anything?\", then wait.",
            description: "Listen, and if it feels right you may ask, \"Would \
                you like some help with it?\" (if you are able to help).\n\
                \n\
                At this stage, you may have some rational conversation, but \
                nothing that would introduce too much emotional pressure.\n\
            ",
        },
    );
    suggestions.insert(
        pair_key(Trust::Present, Mood::_05_Calm),
        Suggestion {
            action: "Be calm / hopeful.",
            description: "Find some gentle fun -- the person is ready to explore.",
        },
    );
    suggestions.insert(
        pair_key(Trust::Present, Mood::_06_Hopeful),
        Suggestion {
            action: "Enjoy yourselves.",
            description: "Make new happy memories -- the person needs them.\n\
                \n\
                Help them remember life can be good.",
        },
    );
    proof {
        assert forall|trust: Trust, mood: Mood|
            #![trigger spec_pair_key(trust, mood)]
            {
                &&& suggestions@.contains_key(spec_pair_key(trust, mood))
                &&& suggestions@[spec_pair_key(trust, mood)].action@ == spec_action(trust, mood)
                &&& suggestions@[spec_pair_key(trust, mood)].description@ == spec_rationale(
                    trust,
                    mood,
                )
            } by {
            assert(suggestions@.contains_key(spec_pair_key(trust, mood)));
        }
    }
    suggestions
}

/// Every entry is meaningful: for each of the twelve (trust, mood) pairs,
/// both the authored action and the authored rationale are non-empty.
pub proof fn lemma_suggestion_nonempty(trust: Trust, mood: Mood)
    ensures
        spec_action(trust, mood).len() > 0,
        spec_rationale(trust, mood).len() > 0,
{
    reveal_strlit("Stay away");
    reveal_strlit("Occasionally ask if they want something");
    reveal_strlit("Ask, \"would you like to say anything?\", then wait.");
    reveal_strlit("Be calm / hopeful.");
    reveal_strlit("Enjoy yourselves.");
    reveal_strlit("Be fully present with them");
    reveal_strlit("Remain at a small distance");
    assert("Stay away"@.len() > 0);
    assert("Occasionally ask if they want something"@.len() > 0);
    assert("Ask, \"would you like to say anything?\", then wait."@.len() > 0);
    assert("Be calm / hopeful."@.len() > 0);
    assert("Enjoy yourselves."@.len() > 0);
    assert("Be fully present with them"@.len() > 0);
    assert("Remain at a small distance"@.len() > 0);
    reveal_strlit("As a \"stranger\", your presence pressurizes the person, \
        and may aggravate them, even when your motive is pure.\n\
        \n\
        It may be best to find someone whom they already trust.");
    reveal_strlit("Leave a gift if you must (e.g. chocolate), but your \
        presence pressurizes the person.\n\
        \n\
        If they accept the gift in your  absence, then that may be the \
        beginning of trust.");
    reveal_strlit("If you are sure the person wants something (that \
        isn't harmful), ask \"do you want ____\"?\n\
        \n\
        Make sure the conversation is paced such that they are able to \
        handle it.\n\
        \n\
        Don't ask why, don't require an answer -- provide a way \"out\" \
        (e.g. \"you don't have to answer\"). Asking such questions is \
        perceived as \"justify yourself\", and may cause them to hate \
        you (which they may not vocalize).");
    reveal_strlit("Just listen, don't problem solve -- you haven't established \
        trust with the person to do so.\n\
        \n\
        At this stage, you may have some rational conversation, but \
        nothing that would introduce too much emotional pressure.\n\
        \n\
        Be ready to leave them alone if that is what they want (they \
        may not say it).");
    reveal_strlit("Find some gentle fun -- the person is ready to explore.\n\
        \n\
        Be ready to leave them alone if that is what they want (they \
        may not say it).");
    reveal_strlit("Make new happy memories -- the person needs them.\n\
        \n\
        This is your chance to help them believe life can be good.");
    reveal_strlit("Simply sit quietly with them and allow them to \
        grieve.\n\
        \n\
        Any more than that may overwhelm the person.");
    reveal_strlit("Leave a gift if you have one, to show that they are \
        still someone you care for; but allow a little distance -- \
        your presence may feel like pressure to the person in the \
        moment.\n\
        \n\
        Distance allows them to settle, proximity allows them to feel \
        cared for.");
    reveal_strlit("Listen, and if it feels right you may ask, \"Would \
        you like some help with it?\" (if you are able to help).\n\
        \n\
        At this stage, you may have some rational conversation, but \
        nothing that would introduce too much emotional pressure.\n\
    ");
    reveal_strlit("Find some gentle fun -- the person is ready to explore.");
    reveal_strlit("Make new happy memories -- the person needs them.\n\
        \n\
        Help them remember life can be good.");
    assert("As a \"stranger\", your presence pressurizes the person, \
        and may aggravate them, even when your motive is pure.\n\
        \n\
        It may be best to find someone whom they already trust."@.len() > 0);
    assert("Leave a gift if you must (e.g. chocolate), but your \
        presence pressurizes the person.\n\
        \n\
        If they accept the gift in your  absence, then that may be the \
        beginning of trust."@.len() > 0);
    assert("If you are sure the person wants something (that \
        isn't harmful), ask \"do you want ____\"?\n\
        \n\
        Make sure the conversation is paced such that they are able to \
        handle it.\n\
        \n\
        Don't ask why, don't require an answer -- provide a way \"out\" \
        (e.g. \"you don't have to answer\"). Asking such questions is \
        perceived as \"justify yourself\", and may cause them to hate \
        you (which they may not vocalize)."@.len() > 0);
    assert("Just listen, don't problem solve -- you haven't established \
        trust with the person to do so.\n\
        \n\
        At this stage, you may have some rational conversation, but \
        nothing that would introduce too much emotional pressure.\n\
        \n\
        Be ready to leave them alone if that is what they want (they \
        may not say it)."@.len() > 0);
    assert("Find some gentle fun -- the person is ready to explore.\n\
        \n\
        Be ready to leave them alone if that is what they want (they \
        may not say it)."@.len() > 0);
    assert("Make new happy memories -- the person needs them.\n\
        \n\
        This is your chance to help them believe life can be good."@.len() > 0);
    assert("Simply sit quietly with them and allow them to \
        grieve.\n\
        \n\
        Any more than that may overwhelm the person."@.len() > 0);
    assert("Leave a gift if you have one, to show that they are \
        still someone you care for; but allow a little distance -- \
        your presence may feel like pressure to the person in the \
        moment.\n\
        \n\
        Distance allows them to settle, proximity allows them to feel \
        cared for."@.len() > 0);
    assert("Listen, and if it feels right you may ask, \"Would \
        you like some help with it?\" (if you are able to help).\n\
        \n\
        At this stage, you may have some rational conversation, but \
        nothing that would introduce too much emotional pressure.\n\
    "@.len() > 0);
    assert("Find some gentle fun -- the person is ready to explore."@.len() > 0);
    assert("Make new happy memories -- the person needs them.\n\
        \n\
        Help them remember life can be good."@.len() > 0);
}

/// The full recommendation table, built once and read-only afterwards.
pub struct SuggestionTable {
    map: HashMap<u64, Suggestion>,
}

impl SuggestionTable {
    /// Every one of the twelve (trust, mood) pairs has its authored entry;
    /// established at construction, so a partial table cannot exist.
    #[verifier::type_invariant]
    spec fn complete(self) -> bool {
        table_complete(self.map@)
    }

    /// Builds the full twelve-entry table.
    pub fn build() -> SuggestionTable {
        SuggestionTable { map: suggestions_map() }
    }

    /// Looks up the suggestion for a pair: total over all twelve pairs, and
    /// returns exactly the authored entry for this one.
    pub fn lookup(&self, trust: Trust, mood: Mood) -> (s: Suggestion)
        ensures
            s.action@ == spec_action(trust, mood),
            s.description@ == spec_rationale(trust, mood),
    {
        proof {
            use_type_invariant(&*self);
        }
        let key = pair_key(trust, mood);
        let entry = self.map.get(&key);
        proof {
            assert(self.map@.contains_key(key));
        }
        *entry.unwrap()
    }
}

} // verus!
