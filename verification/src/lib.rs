//! A small advisory engine: given whether a person currently trusts you and
//! the mood they are in, it looks up a fixed recommendation (an action plus a
//! rationale) from a table covering every combination of the two inputs.
//!
//! The crate holds the finite domain model ([`Trust`], [`Mood`]), the
//! recommendation data ([`Suggestion`], [`SuggestionTable`]), the two
//! independently settable and clearable selections ([`Selection`]), and the
//! derivation of the current recommendation from them
//! ([`current_recommendation`]). Rendering and event plumbing live outside.

use vstd::prelude::*;

mod mood;
mod recommend;
mod selection;
mod suggestion;
mod table;
mod text;
mod trust;

pub use mood::Mood;
pub use mood::lemma_mood_name_round_trip;
pub use mood::lemma_mood_rank_round_trip;
pub use recommend::current_recommendation;
pub use recommend::spec_recommendation;
pub use selection::Selection;
pub use suggestion::Suggestion;
pub use table::lemma_suggestion_nonempty;
pub use table::SuggestionTable;
pub use table::pair_key;
pub use table::spec_action;
pub use table::spec_pair_key;
pub use table::spec_rationale;
pub use table::suggestions_map;
pub use table::table_complete;
pub use trust::Trust;
pub use trust::lemma_trust_name_round_trip;

verus! {

/// Error for input that names no value of the domain: text that is not a
/// display name, or a number that is not a legal rank.
#[derive(Clone, Copy, Debug, PartialEq, Eq, Structural)]
pub struct InvalidValue;

} // verus!
