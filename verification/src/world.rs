//! The authoritative local copy of the arena: field, players, tagger.
//!
//! The grid is replaced wholesale on every field update and its diff
//! matrices are recomputed exactly then — the type invariant keeps the
//! stored diff derived from the stored field at all times, so renderers
//! never see the two out of step.

use vstd::prelude::*;

use crate::field::{
    cell_index, diff_at, height_at, in_bounds, make_diff, spec_faces, wall_faces, Direction,
    FieldDiff, FieldGrid, WallFace, FIELD_SIZE,
};
use crate::player::{Player, Tagger};

verus! {

/// A point in world space, in half-block units on every axis (the
/// renderer works in fractional block coordinates; halves keep the
/// arithmetic exact).
#[derive(Clone, Copy, PartialEq, Eq, Structural, Debug)]
pub struct WorldPos {
    pub half_x: i64,
    pub half_y: i64,
    pub half_z: i64,
}

/// The world model. Only the state machine mutates it, once per relevant
/// inbound event while a match is running.
pub struct World {
    field: FieldGrid,
    diff: FieldDiff,
    players: Vec<Player>,
    tagger: Option<Tagger>,
}

impl World {
    #[verifier::type_invariant]
    spec fn type_wf(self) -> bool {
        self.diff.matches(self.field@)
    }

    /// The current height grid.
    pub closed spec fn spec_field(&self) -> Seq<i32> {
        self.field@
    }

    /// The current player list.
    pub closed spec fn spec_players(&self) -> Seq<Player> {
        self.players@
    }

    /// The current tagger, if one is known.
    pub closed spec fn spec_tagger(&self) -> Option<Tagger> {
        self.tagger
    }

    /// A world as it stands before the first field update: flat zero
    /// field, nobody on it.
    pub open spec fn is_initial(&self) -> bool {
        &&& self.spec_field().len() == FIELD_SIZE * FIELD_SIZE
        &&& forall|i: int| 0 <= i < self.spec_field().len() ==> #[trigger] self.spec_field()[i]
            == 0
        &&& self.spec_players() == Seq::<Player>::empty()
        &&& self.spec_tagger() is None
    }

    pub fn new() -> (r: World)
        ensures
            r.is_initial(),
    {
        let field = FieldGrid::new();
        let diff = make_diff(&field);
        World { field, diff, players: Vec::new(), tagger: None }
    }

    /// Replaces the height grid and recomputes the diff matrices; players
    /// and tagger are untouched.
    pub fn update(&mut self, field: FieldGrid)
        ensures
            final(self).spec_field() == field@,
            final(self).spec_players() == old(self).spec_players(),
            final(self).spec_tagger() == old(self).spec_tagger(),
    {
        proof {
            use_type_invariant(&*self);
        }
        let diff = make_diff(&field);
        let mut players: Vec<Player> = Vec::new();
        core::mem::swap(&mut players, &mut self.players);
        let tagger = self.tagger;
        *self = World { field, diff, players, tagger };
    }

    /// Replaces the player list.
    pub fn set_players(&mut self, players: Vec<Player>)
        ensures
            final(self).spec_players() == players@,
            final(self).spec_field() == old(self).spec_field(),
            final(self).spec_tagger() == old(self).spec_tagger(),
    {
        proof {
            use_type_invariant(&*self);
        }
        self.players = players;
    }

    /// Records the tagger.
    pub fn set_tagger(&mut self, tagger: Tagger)
        ensures
            final(self).spec_tagger() == Some(tagger),
            final(self).spec_field() == old(self).spec_field(),
            final(self).spec_players() == old(self).spec_players(),
    {
        proof {
            use_type_invariant(&*self);
        }
        self.tagger = Some(tagger);
    }

    /// Forgets the tagger.
    pub fn set_no_tagger(&mut self)
        ensures
            final(self).spec_tagger() is None,
            final(self).spec_field() == old(self).spec_field(),
            final(self).spec_players() == old(self).spec_players(),
    {
        proof {
            use_type_invariant(&*self);
        }
        self.tagger = None;
    }

    /// Height of cell `(x, z)` of the current field.
    pub fn height(&self, x: usize, z: usize) -> (r: i32)
        requires
            x < FIELD_SIZE,
            z < FIELD_SIZE,
        ensures
            r == height_at(self.spec_field(), x as int, z as int),
            r >= 0,
    {
        proof {
            use_type_invariant(self);
        }
        self.field.height(x, z)
    }

    /// The stored delta of cell `(x, z)` toward direction `d`; the type
    /// invariant keeps it equal to the delta derived from the current
    /// field.
    pub fn delta(&self, x: usize, z: usize, d: Direction) -> (r: i32)
        requires
            x < FIELD_SIZE,
            z < FIELD_SIZE,
        ensures
            r == diff_at(self.spec_field(), x as int, z as int, d),
    {
        proof {
            use_type_invariant(self);
        }
        self.diff.delta(x, z, d)
    }

    /// Every wall face the current field exposes, with its safe-or-lethal
    /// classification.
    pub fn faces(&self) -> (r: Vec<WallFace>)
        ensures
            r@ == spec_faces(self.spec_field()),
    {
        proof {
            use_type_invariant(self);
        }
        wall_faces(&self.field, &self.diff)
    }

    /// Where a player stands in world space: centered on its cell,
    /// resting on top of the block there. Derived from the current field
    /// on every call, so a height change under a stationary player is
    /// reflected without separate bookkeeping.
    pub fn player_world_pos(&self, player: &Player) -> (r: WorldPos)
        requires
            in_bounds(player.pos.x as int, player.pos.z as int),
        ensures
            r.half_x == 2 * player.pos.x + 1,
            r.half_y == 2 * height_at(self.spec_field(), player.pos.x as int, player.pos.z as int)
                + 3,
            r.half_z == 2 * player.pos.z + 1,
    {
        let h = self.height(player.pos.x as usize, player.pos.z as usize);
        WorldPos {
            half_x: 2 * (player.pos.x as i64) + 1,
            half_y: 2 * (h as i64) + 3,
            half_z: 2 * (player.pos.z as i64) + 1,
        }
    }

    /// The players currently known.
    pub fn players(&self) -> (r: &Vec<Player>)
        ensures
            r@ == self.spec_players(),
    {
        &self.players
    }

    /// Number of players currently known.
    pub fn player_count(&self) -> (r: usize)
        ensures
            r == self.spec_players().len(),
    {
        self.players.len()
    }

    /// The player at list index `i`.
    pub fn player_at(&self, i: usize) -> (r: &Player)
        requires
            i < self.spec_players().len(),
        ensures
            *r == self.spec_players()[i as int],
    {
        &self.players[i]
    }

    /// The tagger, if one is known.
    pub fn tagger(&self) -> (r: Option<Tagger>)
        ensures
            r == self.spec_tagger(),
    {
        self.tagger
    }
}

} // verus!
