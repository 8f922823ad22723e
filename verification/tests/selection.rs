use tears::InvalidValue;
use tears::Mood;
use tears::Selection;
use tears::SuggestionTable;
use tears::Trust;
use tears::current_recommendation;

#[test]
fn fresh_session_recommends_nothing() {
    let selection = Selection::new();
    let table = SuggestionTable::build();
    assert!(current_recommendation(&selection, &table).is_none());
    assert!(selection.get_trust().is_none());
    assert!(selection.get_mood().is_none());
}

#[test]
fn trust_alone_recommends_nothing() {
    let mut selection = Selection::new();
    let table = SuggestionTable::build();
    selection.set_trust(Trust::Present);
    assert!(current_recommendation(&selection, &table).is_none());
}

#[test]
fn mood_alone_recommends_nothing() {
    let mut selection = Selection::new();
    let table = SuggestionTable::build();
    selection.set_mood(Mood::_03_Cautious);
    assert!(current_recommendation(&selection, &table).is_none());
}

#[test]
fn present_and_hopeful_recommend_enjoying_yourselves() {
    let mut selection = Selection::new();
    let table = SuggestionTable::build();
    selection.set_trust(Trust::Present);
    selection.set_mood(Mood::_06_Hopeful);
    let suggestion = current_recommendation(&selection, &table).unwrap();
    assert_eq!(suggestion.action(), "Enjoy yourselves.");
}

#[test]
fn clearing_trust_drops_the_recommendation_but_keeps_the_mood() {
    let mut selection = Selection::new();
    let table = SuggestionTable::build();
    selection.set_trust(Trust::Present);
    selection.set_mood(Mood::_06_Hopeful);
    assert!(current_recommendation(&selection, &table).is_some());
    selection.clear_trust();
    assert!(current_recommendation(&selection, &table).is_none());
    assert_eq!(selection.get_mood(), Some(Mood::_06_Hopeful));
    assert_eq!(selection.get_trust(), None);
}

#[test]
fn rank_one_and_absent_recommend_staying_away() {
    let mut selection = Selection::new();
    let table = SuggestionTable::build();
    assert_eq!(selection.set_mood_from_rank(1), Ok(()));
    selection.set_trust(Trust::Absent);
    let suggestion = current_recommendation(&selection, &table).unwrap();
    assert_eq!(suggestion.action(), "Stay away");
}

#[test]
fn invalid_text_leaves_the_targeted_selection_unchanged() {
    let mut selection = Selection::new();
    let table = SuggestionTable::build();
    selection.set_trust(Trust::Present);
    selection.set_mood(Mood::_05_Calm);

    assert_eq!(selection.set_trust_from_name("not a trust level"), Err(InvalidValue));
    assert_eq!(selection.get_trust(), Some(Trust::Present));
    assert_eq!(selection.get_mood(), Some(Mood::_05_Calm));

    assert_eq!(selection.set_mood_from_name("not a mood"), Err(InvalidValue));
    assert_eq!(selection.get_mood(), Some(Mood::_05_Calm));

    assert_eq!(selection.set_mood_from_rank(9), Err(InvalidValue));
    assert_eq!(selection.get_mood(), Some(Mood::_05_Calm));

    assert!(current_recommendation(&selection, &table).is_some());
}

#[test]
fn invalid_text_on_a_fresh_session_changes_nothing() {
    let mut selection = Selection::new();
    let table = SuggestionTable::build();
    assert_eq!(selection.set_trust_from_name("Absent!"), Err(InvalidValue));
    assert!(selection.get_trust().is_none());
    assert!(current_recommendation(&selection, &table).is_none());
}

#[test]
fn valid_text_events_set_the_cells() {
    let mut selection = Selection::new();
    let table = SuggestionTable::build();
    assert_eq!(selection.set_trust_from_name("Present"), Ok(()));
    assert_eq!(selection.set_mood_from_name("Hopeful"), Ok(()));
    assert_eq!(selection.get_trust(), Some(Trust::Present));
    assert_eq!(selection.get_mood(), Some(Mood::_06_Hopeful));
    let suggestion = current_recommendation(&selection, &table).unwrap();
    assert_eq!(suggestion.action(), "Enjoy yourselves.");
}

#[test]
fn setting_mood_never_alters_trust_and_vice_versa() {
    let mut selection = Selection::new();
    selection.set_trust(Trust::Absent);
    for mood in Mood::iter() {
        selection.set_mood(mood);
        assert_eq!(selection.get_trust(), Some(Trust::Absent));
    }
    for trust in Trust::iter() {
        selection.set_trust(trust);
        assert_eq!(selection.get_mood(), Some(Mood::_06_Hopeful));
    }
    selection.clear_mood();
    assert_eq!(selection.get_trust(), Some(Trust::Present));
    selection.clear_trust();
    assert_eq!(selection.get_mood(), None);
}

#[test]
fn clearing_an_unset_cell_is_idempotent() {
    let mut selection = Selection::new();
    let table = SuggestionTable::build();
    selection.set_mood(Mood::_02_Closed);
    let before = current_recommendation(&selection, &table);
    selection.clear_trust();
    selection.clear_trust();
    assert!(selection.get_trust().is_none());
    assert_eq!(selection.get_mood(), Some(Mood::_02_Closed));
    let after = current_recommendation(&selection, &table);
    assert_eq!(before.is_some(), after.is_some());
    assert!(after.is_none());
}
