use tears::InvalidValue;
use tears::Mood;
use tears::Trust;

#[test]
fn trust_iter_yields_both_levels_in_order() {
    let levels = Trust::iter();
    assert_eq!(levels, vec![Trust::Absent, Trust::Present]);
    // Restartable: a second iteration yields the same fixed order.
    assert_eq!(Trust::iter(), levels);
}

#[test]
fn mood_iter_yields_all_six_moods_in_rank_order() {
    let moods = Mood::iter();
    assert_eq!(
        moods,
        vec![
            Mood::_01_Anguished,
            Mood::_02_Closed,
            Mood::_03_Cautious,
            Mood::_04_Unsettled,
            Mood::_05_Calm,
            Mood::_06_Hopeful,
        ]
    );
    for (i, mood) in moods.iter().enumerate() {
        assert_eq!(mood.rank() as usize, i + 1);
    }
    assert_eq!(Mood::iter(), moods);
}

#[test]
fn trust_display_names_round_trip() {
    for trust in Trust::iter() {
        assert_eq!(Trust::parse(trust.display_name()), Ok(trust));
    }
}

#[test]
fn mood_display_names_round_trip() {
    for mood in Mood::iter() {
        assert_eq!(Mood::parse(mood.display_name()), Ok(mood));
    }
}

#[test]
fn mood_ranks_round_trip() {
    for mood in Mood::iter() {
        assert_eq!(Mood::from_rank(mood.rank()), Ok(mood));
    }
}

#[test]
fn rank_zero_is_rejected() {
    assert_eq!(Mood::from_rank(0), Err(InvalidValue));
}

#[test]
fn rank_seven_is_rejected() {
    assert_eq!(Mood::from_rank(7), Err(InvalidValue));
}

#[test]
fn trust_parse_rejects_unknown_text() {
    assert_eq!(Trust::parse(""), Err(InvalidValue));
    assert_eq!(Trust::parse("absent"), Err(InvalidValue));
    assert_eq!(Trust::parse("Present "), Err(InvalidValue));
    assert_eq!(Trust::parse("Maybe"), Err(InvalidValue));
}

#[test]
fn mood_parse_rejects_unknown_text() {
    assert_eq!(Mood::parse(""), Err(InvalidValue));
    assert_eq!(Mood::parse("hopeful"), Err(InvalidValue));
    assert_eq!(Mood::parse(" Calm"), Err(InvalidValue));
    assert_eq!(Mood::parse("Joyful"), Err(InvalidValue));
}

#[test]
fn trust_display_names_are_exact() {
    assert_eq!(Trust::Absent.display_name(), "Absent");
    assert_eq!(Trust::Present.display_name(), "Present");
}

#[test]
fn mood_display_names_are_exact() {
    assert_eq!(Mood::_01_Anguished.display_name(), "Anguished");
    assert_eq!(Mood::_02_Closed.display_name(), "Closed");
    assert_eq!(Mood::_03_Cautious.display_name(), "Cautious");
    assert_eq!(Mood::_04_Unsettled.display_name(), "Unsettled");
    assert_eq!(Mood::_05_Calm.display_name(), "Calm");
    assert_eq!(Mood::_06_Hopeful.display_name(), "Hopeful");
}

#[test]
fn trust_descriptions_are_exact() {
    assert_eq!(
        Trust::Absent.description(),
        "The person has not initiated a conversation with you recently.",
    );
    assert_eq!(
        Trust::Present.description(),
        "The person has initiated a conversation with you recently, with no obligation.",
    );
}

#[test]
fn mood_metadata_is_nonempty() {
    for mood in Mood::iter() {
        assert!(!mood.symptoms().is_empty());
        assert!(!mood.summary().is_empty());
        assert!(!mood.description().is_empty());
    }
}

#[test]
fn mood_metadata_samples_are_exact() {
    assert_eq!(
        Mood::_01_Anguished.symptoms(),
        "Unresponsiveness to any interaction. Outbursts, self-harm.",
    );
    assert_eq!(
        Mood::_05_Calm.symptoms(),
        "No sad symptoms, smile takes conscious effort.",
    );
    assert_eq!(
        Mood::_06_Hopeful.summary(),
        "The person believes there is good in life.",
    );
    assert_eq!(
        Mood::_05_Calm.description(),
        "There is little / no bias towards things being positive or negative.",
    );
}
