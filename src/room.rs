//! A room: its code and the players who joined, at most two, in join order.
use crate::player::Player;
use crate::room_code::RoomCode;
use vstd::prelude::*;

verus! {

/// How many players a room holds once full.
pub const ROOM_CAPACITY: usize = 2;

/// The names of `players`, in order.
pub open spec fn names_of(players: Seq<Player>) -> Seq<Seq<char>> {
    players.map_values(|p: Player| p.player_name@)
}

/// Whether a room with `players` is full: more than one already present.
pub open spec fn is_full_with(players: Seq<Player>) -> bool {
    players.len() > 1
}

/// The players of a room with `players` once `player` tried to join: added
/// at the end unless the room is full.
pub open spec fn after_join(players: Seq<Player>, player: Player) -> Seq<Player> {
    if is_full_with(players) {
        players
    } else {
        players.push(player)
    }
}

/// A room and the players who joined it, in join order.
#[derive(Clone, Debug)]
pub struct Room {
    pub room_code: RoomCode,
    pub players: Vec<Player>,
}

impl Room {
    /// A room never holds more players than its capacity.
    pub open spec fn wf(&self) -> bool {
        self.players@.len() <= ROOM_CAPACITY
    }

    /// The names of the players, in join order.
    pub open spec fn player_names(&self) -> Seq<Seq<char>> {
        names_of(self.players@)
    }

    /// Whether the room is full: more than one player already present.
    pub open spec fn full(&self) -> bool {
        is_full_with(self.players@)
    }

    /// `self` is an empty room with the code `code`.
    pub open spec fn is_new_for(&self, code: Seq<char>) -> bool {
        self.room_code@ == code && self.players@.len() == 0
    }

    /// Whether the room is full: more than one player already present.
    pub fn is_full(&self) -> (r: bool)
        ensures
            r == self.full(),
    {
        self.players.len() > 1
    }

    /// Appends `player` when the room is not full; otherwise leaves the room
    /// as it was.
    pub fn add_player(&mut self, player: Player)
        ensures
            final(self).room_code == old(self).room_code,
            final(self).players@ == after_join(old(self).players@, player),
            old(self).wf() ==> final(self).wf(),
    {
        if !self.is_full() {
            self.players.push(player);
        }
    }

    /// The players' names, in join order.
    pub fn get_players(&self) -> (r: Vec<String>)
        ensures
            r@.map_values(|s: String| s@) == self.player_names(),
    {
        let mut names: Vec<String> = Vec::new();
        let mut i: usize = 0;
        while i < self.players.len()
            invariant
                i <= self.players@.len(),
                names@.len() == i,
                forall|j: int| 0 <= j < i ==> (#[trigger] names@[j])@ == self.players@[j].player_name@,
            decreases self.players@.len() - i,
        {
            names.push(self.players[i].player_name.value().to_owned());
            i = i + 1;
        }
        assert(names@.map_values(|s: String| s@) =~= self.player_names());
        names
    }

    /// An empty room with the code `room_code`.
    pub fn new(room_code: RoomCode) -> (r: Self)
        ensures
            r.room_code == room_code,
            r.players@.len() == 0,
            r.wf(),
    {
        Room { room_code, players: Vec::new() }
    }
}

/// A new room lists no players.
pub proof fn lemma_new_room_lists_no_one(room: Room, code: Seq<char>)
    requires
        room.is_new_for(code),
    ensures
        room.player_names() == Seq::<Seq<char>>::empty(),
{
    assert(room.player_names() =~= Seq::<Seq<char>>::empty());
}

/// Two players who join an empty room in turn are listed in join order and
/// fill it; a third who tries to join afterwards is ignored.
pub proof fn lemma_two_players_fill_room(a: Player, b: Player, c: Player)
    ensures
        ({
            let two = after_join(after_join(Seq::empty(), a), b);
            &&& names_of(two) == seq![a.player_name@, b.player_name@]
            &&& is_full_with(two)
            &&& after_join(two, c) == two
            &&& names_of(after_join(two, c)) == seq![a.player_name@, b.player_name@]
        }),
{
    let two = after_join(after_join(Seq::empty(), a), b);
    assert(two =~= seq![a, b]);
    assert(names_of(two) =~= seq![a.player_name@, b.player_name@]);
}

} // verus!
