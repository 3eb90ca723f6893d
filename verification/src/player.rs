//! Player identity.

use vstd::prelude::*;

verus! {

/// The name a player gets when none is supplied.
pub const ANON: &'static str = "The great unknown; anon";

/// A participant of the game, by name.
pub struct Player {
    name: &'static str,
}

impl Player {
    /// The player's name.
    pub closed spec fn spec_name(&self) -> Seq<char> {
        self.name@
    }

    /// Makes a player, falling back to the anonymous name when none is
    /// given.
    pub fn new(name: Option<&'static str>) -> (r: Player)
        ensures
            r.spec_name() == match name {
                Some(actual) => actual@,
                None => ANON@,
            },
    {
        Player {
            name: match name {
                Some(actual_name) => actual_name,
                None => ANON,
            },
        }
    }
}

} // verus!
