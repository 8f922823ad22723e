use vstd::prelude::*;

use crate::InvalidValue;
use crate::mood::Mood;
use crate::recommend::spec_recommendation;
use crate::trust::Trust;

verus! {

/// The two independent, optional selections of one session: the current
/// trust choice and the current mood choice. Both start unset, and each is
/// set or cleared without touching the other.
#[derive(Clone, Copy, Debug)]
pub struct Selection {
    trust: Option<Trust>,
    mood: Option<Mood>,
}

impl Selection {
    /// The current trust choice.
    pub closed spec fn trust_sel(self) -> Option<Trust> {
        self.trust
    }

    /// The current mood choice.
    pub closed spec fn mood_sel(self) -> Option<Mood> {
        self.mood
    }

    /// A fresh session: neither cell is set.
    pub fn new() -> (s: Selection)
        ensures
            s.trust_sel() is None,
            s.mood_sel() is None,
    {
        Selection { trust: None, mood: None }
    }

    /// Reads the current trust choice.
    pub fn get_trust(&self) -> (r: Option<Trust>)
        ensures
            r == self.trust_sel(),
    {
        self.trust
    }

    /// Reads the current mood choice.
    pub fn get_mood(&self) -> (r: Option<Mood>)
        ensures
            r == self.mood_sel(),
    {
        self.mood
    }

    /// Overwrites the trust cell; the mood cell is untouched.
    pub fn set_trust(&mut self, trust: Trust)
        ensures
            final(self).trust_sel() == Some(trust),
            final(self).mood_sel() == old(self).mood_sel(),
    {
        self.trust = Some(trust);
    }

    /// Overwrites the mood cell; the trust cell is untouched.
    pub fn set_mood(&mut self, mood: Mood)
        ensures
            final(self).mood_sel() == Some(mood),
            final(self).trust_sel() == old(self).trust_sel(),
    {
        self.mood = Some(mood);
    }

    /// Unsets the trust cell; the mood cell is untouched. Clearing a cell
    /// that is already unset changes nothing: neither the state nor the
    /// recommendation derived from it.
    pub fn clear_trust(&mut self)
        ensures
            final(self).trust_sel() is None,
            final(self).mood_sel() == old(self).mood_sel(),
            old(self).trust_sel() is None ==> *final(self) == *old(self),
            old(self).trust_sel() is None ==> spec_recommendation(
                final(self).trust_sel(),
                final(self).mood_sel(),
            ) == spec_recommendation(old(self).trust_sel(), old(self).mood_sel()),
    {
        self.trust = None;
    }

    /// Unsets the mood cell; the trust cell is untouched. Clearing a cell
    /// that is already unset changes nothing: neither the state nor the
    /// recommendation derived from it.
    pub fn clear_mood(&mut self)
        ensures
            final(self).mood_sel() is None,
            final(self).trust_sel() == old(self).trust_sel(),
            old(self).mood_sel() is None ==> *final(self) == *old(self),
            old(self).mood_sel() is None ==> spec_recommendation(
                final(self).trust_sel(),
                final(self).mood_sel(),
            ) == spec_recommendation(old(self).trust_sel(), old(self).mood_sel()),
    {
        self.mood = None;
    }

    /// Handles a raw text event aimed at the trust cell: one of the display
    /// names sets the cell to its value; any other text is rejected and the
    /// whole state is left as it was. The mood cell is untouched either way.
    pub fn set_trust_from_name(&mut self, name: &str) -> (r: Result<(), InvalidValue>)
        ensures
            final(self).mood_sel() == old(self).mood_sel(),
            match Trust::spec_parse(name@) {
                Ok(t) => r is Ok && final(self).trust_sel() == Some(t),
                Err(_) => r is Err && *final(self) == *old(self),
            },
    {
        match Trust::parse(name) {
            Ok(trust) => {
                self.trust = Some(trust);
                Ok(())
            },
            Err(e) => Err(e),
        }
    }

    /// Handles a raw text event aimed at the mood cell: one of the display
    /// names sets the cell to its value; any other text is rejected and the
    /// whole state is left as it was. The trust cell is untouched either way.
    pub fn set_mood_from_name(&mut self, name: &str) -> (r: Result<(), InvalidValue>)
        ensures
            final(self).trust_sel() == old(self).trust_sel(),
            match Mood::spec_parse(name@) {
                Ok(m) => r is Ok && final(self).mood_sel() == Some(m),
                Err(_) => r is Err && *final(self) == *old(self),
            },
    {
        match Mood::parse(name) {
            Ok(mood) => {
                self.mood = Some(mood);
                Ok(())
            },
            Err(e) => Err(e),
        }
    }

    /// Handles a raw rank event aimed at the mood cell: a rank in `1..=6`
    /// sets the cell to its mood; any other number is rejected and the whole
    /// state is left as it was. The trust cell is untouched either way.
    pub fn set_mood_from_rank(&mut self, rank: u8) -> (r: Result<(), InvalidValue>)
        ensures
            final(self).trust_sel() == old(self).trust_sel(),
            match Mood::spec_from_rank(rank) {
                Ok(m) => r is Ok && final(self).mood_sel() == Some(m),
                Err(_) => r is Err && *final(self) == *old(self),
            },
    {
        match Mood::from_rank(rank) {
            Ok(mood) => {
                self.mood = Some(mood);
                Ok(())
            },
            Err(e) => Err(e),
        }
    }
}

} // verus!
