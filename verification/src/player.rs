//! Players: a small number given at connection time, and a name.

use vstd::prelude::*;
use vstd::string::StringExecFns;

verus! {

/// The number a player gets from the session when the connection is accepted.
pub type Id = i8;

/// How many players a session holds at most.
pub const MAX_PLAYERS: usize = 7;

/// A player as a number and the characters of the name.
pub struct PlayerView {
    pub id: Id,
    pub name: Seq<char>,
}

/// One participant of a session.
#[derive(Debug)]
pub struct Player {
    pub id: Id,
    pub name: String,
}

impl View for Player {
    type V = PlayerView;

    open spec fn view(&self) -> PlayerView {
        PlayerView { id: self.id, name: self.name@ }
    }
}

/// The name a player has until it is changed: one per seat, and a marker for
/// a number that is no seat.
pub open spec fn default_name(id: Id) -> Seq<char> {
    if id == 0 {
        "Capybara"@
    } else if id == 1 {
        "Anaconda"@
    } else if id == 2 {
        "Axolotl"@
    } else if id == 3 {
        "Iguana"@
    } else if id == 4 {
        "Zebra"@
    } else if id == 5 {
        "Gorilla"@
    } else if id == 6 {
        "Tiger"@
    } else {
        "Error???"@
    }
}

impl Player {
    /// The player with the given number under the name that belongs to it.
    pub fn new(id: Id) -> (r: Player)
        ensures
            r@ == (PlayerView { id, name: default_name(id) }),
    {
        let name = match id {
            0 => "Capybara",
            1 => "Anaconda",
            2 => "Axolotl",
            3 => "Iguana",
            4 => "Zebra",
            5 => "Gorilla",
            6 => "Tiger",
            _ => "Error???",
        };
        Player { id, name: String::from_str(name) }
    }
}

impl Default for Player {
    /// Number zero with an empty name: a player the session has not named yet.
    fn default() -> (r: Player)
        ensures
            r@ == (PlayerView { id: 0, name: Seq::empty() }),
    {
        Player { id: 0, name: String::new() }
    }
}

impl Clone for Player {
    fn clone(&self) -> (r: Player)
        ensures
            r == *self,
    {
        Player { id: self.id, name: self.name.clone() }
    }
}

impl PartialEq for Player {
    fn eq(&self, other: &Player) -> (r: bool) {
        self.id == other.id && self.name.eq(&other.name)
    }
}

impl vstd::std_specs::cmp::PartialEqSpecImpl for Player {
    open spec fn obeys_eq_spec() -> bool {
        true
    }

    open spec fn eq_spec(&self, other: &Player) -> bool {
        self@ == other@
    }
}

impl Eq for Player {

}

/// The players of a sequence, each as number and name.
pub open spec fn players_view(players: Seq<Player>) -> Seq<PlayerView> {
    players.map_values(|p: Player| p@)
}

} // verus!
