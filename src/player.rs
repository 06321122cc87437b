//! A participant of a room, known by a validated name.
use crate::player_name::PlayerName;
use vstd::prelude::*;

verus! {

/// A player, identified by name.
#[derive(Clone, Debug)]
pub struct Player {
    pub player_name: PlayerName,
}

impl Player {
    /// The player called `player_name`.
    pub fn new(player_name: PlayerName) -> (r: Self)
        ensures
            r.player_name == player_name,
    {
        Player { player_name }
    }
}

} // verus!
