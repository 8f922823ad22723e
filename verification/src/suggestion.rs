use vstd::prelude::*;

verus! {

/// A suggestion to show for a given trust + mood level.
#[derive(Clone, Copy, Debug, Hash, PartialEq, Eq)]
pub struct Suggestion {
    /// Action to take, e.g. `"Stay Away"`.
    pub action: &'static str,
    /// Description or rationale.
    ///
    /// One or more paragraphs, separated by a blank line.
    pub description: &'static str,
}

impl Suggestion {
    /// The action text.
    pub fn action(&self) -> (r: &str)
        ensures
            r@ == self.action@,
    {
        self.action
    }

    /// The rationale text.
    pub fn description(&self) -> (r: &str)
        ensures
            r@ == self.description@,
    {
        self.description
    }
}

} // verus!
