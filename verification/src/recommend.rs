use vstd::prelude::*;

use crate::mood::Mood;
use crate::selection::Selection;
use crate::suggestion::Suggestion;
use crate::table::SuggestionTable;
use crate::table::spec_action;
use crate::table::spec_rationale;
use crate::trust::Trust;

verus! {

/// What a session should currently show: the authored (action, rationale)
/// pair when both cells are set, nothing otherwise.
pub open spec fn spec_recommendation(trust: Option<Trust>, mood: Option<Mood>) -> Option<
    (Seq<char>, Seq<char>),
> {
    match (trust, mood) {
        (Some(t), Some(m)) => Some((spec_action(t, m), spec_rationale(t, m))),
        _ => None,
    }
}

/// The derivation: the recommendation for the current pair of selections, or
/// none if either is unset. A pure function of the selection state at the
/// moment of evaluation, so re-evaluating it after any change of the state
/// can never show a stale pairing.
pub fn current_recommendation(selection: &Selection, table: &SuggestionTable) -> (r: Option<
    Suggestion,
>)
    ensures
        r is Some <==> (selection.trust_sel() is Some && selection.mood_sel() is Some),
        match r {
            Some(s) => spec_recommendation(selection.trust_sel(), selection.mood_sel()) == Some(
                (s.action@, s.description@),
            ),
            None => spec_recommendation(selection.trust_sel(), selection.mood_sel()) is None,
        },
{
    match (selection.get_trust(), selection.get_mood()) {
        (Some(trust), Some(mood)) => Some(table.lookup(trust, mood)),
        _ => None,
    }
}

} // verus!
