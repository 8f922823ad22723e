use tears::Mood;
use tears::SuggestionTable;
use tears::Trust;
use tears::pair_key;
use tears::suggestions_map;

#[test]
fn every_pair_has_a_nonempty_suggestion() {
    let table = SuggestionTable::build();
    for trust in Trust::iter() {
        for mood in Mood::iter() {
            let suggestion = table.lookup(trust, mood);
            assert!(!suggestion.action().is_empty());
            assert!(!suggestion.description().is_empty());
        }
    }
}

#[test]
fn suggestions_map_holds_exactly_the_twelve_pairs() {
    let map = suggestions_map();
    assert_eq!(map.len(), 12);
    for trust in Trust::iter() {
        for mood in Mood::iter() {
            assert!(map.contains_key(&pair_key(trust, mood)));
        }
    }
}

#[test]
fn actions_are_exact() {
    let table = SuggestionTable::build();
    assert_eq!(table.lookup(Trust::Absent, Mood::_01_Anguished).action(), "Stay away");
    assert_eq!(table.lookup(Trust::Absent, Mood::_02_Closed).action(), "Stay away");
    assert_eq!(
        table.lookup(Trust::Absent, Mood::_03_Cautious).action(),
        "Occasionally ask if they want something",
    );
    assert_eq!(
        table.lookup(Trust::Absent, Mood::_04_Unsettled).action(),
        "Ask, \"would you like to say anything?\", then wait.",
    );
    assert_eq!(table.lookup(Trust::Absent, Mood::_05_Calm).action(), "Be calm / hopeful.");
    assert_eq!(table.lookup(Trust::Absent, Mood::_06_Hopeful).action(), "Enjoy yourselves.");
    assert_eq!(
        table.lookup(Trust::Present, Mood::_01_Anguished).action(),
        "Be fully present with them",
    );
    assert_eq!(
        table.lookup(Trust::Present, Mood::_02_Closed).action(),
        "Remain at a small distance",
    );
    assert_eq!(
        table.lookup(Trust::Present, Mood::_03_Cautious).action(),
        "Occasionally ask if they want something",
    );
    assert_eq!(
        table.lookup(Trust::Present, Mood::_04_Unsettled).action(),
        "Ask, \"would you like to say anything?\", then wait.",
    );
    assert_eq!(table.lookup(Trust::Present, Mood::_05_Calm).action(), "Be calm / hopeful.");
    assert_eq!(table.lookup(Trust::Present, Mood::_06_Hopeful).action(), "Enjoy yourselves.");
}

#[test]
fn description_samples_are_exact() {
    let table = SuggestionTable::build();
    assert_eq!(
        table.lookup(Trust::Present, Mood::_05_Calm).description(),
        "Find some gentle fun -- the person is ready to explore.",
    );
    assert_eq!(
        table.lookup(Trust::Present, Mood::_06_Hopeful).description(),
        "Make new happy memories -- the person needs them.\n\nHelp them remember life can be good.",
    );
    assert_eq!(
        table.lookup(Trust::Absent, Mood::_01_Anguished).description(),
        "As a \"stranger\", your presence pressurizes the person, and may aggravate them, \
         even when your motive is pure.\n\nIt may be best to find someone whom they already trust.",
    );
}

#[test]
fn descriptions_use_blank_line_paragraph_breaks() {
    let table = SuggestionTable::build();
    let description = table.lookup(Trust::Absent, Mood::_03_Cautious).description().to_string();
    let paragraphs: Vec<&str> = description.split("\n\n").collect();
    assert_eq!(paragraphs.len(), 3);
    assert!(paragraphs.iter().all(|p| !p.is_empty()));
}
