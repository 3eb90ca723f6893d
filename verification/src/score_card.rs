//! Score bookkeeping for one finished round.

use vstd::prelude::*;

verus! {

/// One line of the score table: who played, on which map, and what they
/// scored.
#[derive(Debug, Default)]
pub struct ScoreCard {
    name: String,
    map: String,
    score: i32,
}

impl ScoreCard {
    /// The player name recorded on the card.
    pub closed spec fn spec_name(&self) -> Seq<char> {
        self.name@
    }

    /// The map name recorded on the card.
    pub closed spec fn spec_map(&self) -> Seq<char> {
        self.map@
    }

    /// The score recorded on the card.
    pub closed spec fn spec_score(&self) -> i32 {
        self.score
    }

    /// Records a finished round.
    pub fn new(name: String, map: String, score: i32) -> (r: ScoreCard)
        ensures
            r.spec_name() == name@,
            r.spec_map() == map@,
            r.spec_score() == score,
    {
        ScoreCard { name, map, score }
    }

    /// Read access to the player name.
    pub fn name(&self) -> (r: &String)
        ensures
            r@ == self.spec_name(),
    {
        &self.name
    }
}

} // verus!
