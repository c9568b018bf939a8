//! Players and the tagger, as the server reports them.

use vstd::prelude::*;

verus! {

/// A cell coordinate on the arena grid, in the client's axes.
#[derive(Clone, Copy, PartialEq, Eq, Structural, Debug)]
pub struct GridPos {
    pub x: i32,
    pub z: i32,
}

/// One player of the match: where it stands, who it is.
#[derive(Clone, PartialEq, Eq, Debug)]
pub struct Player {
    pub pos: GridPos,
    pub uid: u128,
    pub name: String,
}

impl Player {
    pub fn new(pos: GridPos, uid: u128, name: String) -> (r: Player)
        ensures
            r.pos == pos,
            r.uid == uid,
            r.name == name,
    {
        Player { pos, uid, name }
    }
}

/// The chaser role; at most one per match.
#[derive(Clone, Copy, PartialEq, Eq, Structural, Debug)]
pub struct Tagger {
    pub pos: GridPos,
}

impl Tagger {
    pub fn new(pos: GridPos) -> (r: Tagger)
        ensures
            r.pos == pos,
    {
        Tagger { pos }
    }
}

/// Finds the local player's entry: the first player carrying `uid`.
pub fn find_own_player(players: &Vec<Player>, uid: u128) -> (r: Option<usize>)
    ensures
        r matches Some(i) ==> {
            &&& i < players@.len()
            &&& players@[i as int].uid == uid
            &&& forall|j: int| 0 <= j < i ==> #[trigger] players@[j].uid != uid
        },
        r is None ==> forall|j: int| 0 <= j < players@.len() ==> #[trigger] players@[j].uid != uid,
{
    let mut i: usize = 0;
    while i < players.len()
        invariant
            i <= players@.len(),
            forall|j: int| 0 <= j < i ==> #[trigger] players@[j].uid != uid,
        decreases players@.len() - i,
    {
        if players[i].uid == uid {
            return Some(i);
        }
        i += 1;
    }
    None
}

} // verus!
