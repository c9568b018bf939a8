//! The logical shapes of the wire payloads and their ingestion.
//!
//! These types mirror the payloads of the inbound channels field for
//! field; the network edge decodes raw JSON into them and hands them to
//! the ingestion functions below, which apply the row mirror, build the
//! typed inbound events, and reject malformed data.
//!
//! Malformed payloads (wrong field dimensions, heights beyond the block
//! range, positions off the grid, a room notice without its room id or
//! name) are reported as errors for the caller to handle as a transport
//! fault; they never panic and never reach the world model.

use vstd::prelude::*;

use crate::events::{DirectionJson, FinishReason, InboundEvent};
use crate::field::{
    cell_index, in_bounds, server_row_to_local_x, spec_local_x, FieldGrid, FIELD_SIZE,
};
use crate::player::{GridPos, Player, Tagger};

verus! {

/// A grid cell in the server's axes: `row` runs opposite to the client's
/// x axis, `column` matches the client's z axis.
#[derive(Clone, Copy, PartialEq, Eq, Structural, Debug)]
pub struct PositionJson {
    pub row: i32,
    pub column: i32,
}

/// Whether a player is still in the running.
#[derive(Clone, Copy, PartialEq, Eq, Structural, Debug)]
pub enum PlayerStatusJson {
    Alive,
    Dead,
}

/// One player entry of a field update.
#[derive(Clone, Debug)]
pub struct PlayerJson {
    pub position: PositionJson,
    pub direction: DirectionJson,
    pub point: i32,
    pub uid: u128,
    pub name: String,
    pub status: PlayerStatusJson,
}

/// The tagger entry of a field update.
#[derive(Clone, Debug)]
pub struct TaggerJson {
    pub position: PositionJson,
    pub direction: DirectionJson,
    pub name: String,
}

/// One grid cell of a field update.
#[derive(Clone, Copy, PartialEq, Eq, Structural, Debug)]
pub struct SquareJson {
    pub height: u32,
}

/// The raw height grid of a field update, rows in server order.
#[derive(Clone, Debug)]
pub struct BattleFieldJson {
    pub length: i32,
    pub squares: Vec<Vec<SquareJson>>,
}

/// The match phase a field update reports.
#[derive(Clone, Copy, PartialEq, Eq, Structural, Debug)]
pub enum GameStatusJson {
    BeforeStart,
    PendingStart,
    InGame,
    Finish,
    AbnormalEnd,
}

/// How the server says a finished match ended.
#[derive(Clone, Copy, PartialEq, Eq, Structural, Debug)]
pub enum GameFinishReasonJson {
    Fall,
    Collision,
    Timeup,
}

/// The payload of the field-update channel.
#[derive(Clone, Debug)]
pub struct UpdateFieldJson {
    pub winner: Option<PlayerJson>,
    pub tick_count: i32,
    pub battle_field: BattleFieldJson,
    pub player_list: Vec<PlayerJson>,
    pub tagger: TaggerJson,
    pub state: GameStatusJson,
    pub finish_reason: Option<GameFinishReasonJson>,
}

/// One user entry of a room-state payload.
#[derive(Clone, Debug)]
pub struct UserJson {
    pub name: String,
    pub point: i32,
    pub uid: u128,
    pub socket_id: String,
    pub requesting_to_start_game: bool,
}

/// The room phases the room-state channel reports.
#[derive(Clone, Copy, PartialEq, Eq, Structural, Debug)]
pub enum RoomStateJson {
    Empty,
    Opening,
    Fulfilled,
    NotJoining,
}

/// The payload of the room-state channel. When the state is
/// `NotJoining` the other fields are absent.
#[derive(Clone, Debug)]
pub struct RoomStateEventJson {
    pub max_member: Option<i32>,
    pub assigned_users: Vec<UserJson>,
    pub room_id: Option<String>,
    pub roomname: Option<String>,
    pub state: RoomStateJson,
}

/// The payload registering the user id with the server.
#[derive(Clone, Copy, PartialEq, Eq, Structural, Debug)]
pub struct SetupUidJson {
    pub user_id: u128,
}

/// The payload of the user-assignment channel.
#[derive(Clone, Debug)]
pub struct OnUpdateUserJson {
    pub name: String,
    pub point: i32,
    pub uid: u128,
    pub socket_id: String,
    pub requesting_to_start_game: bool,
}

/// Why an inbound payload was rejected.
#[derive(Clone, Copy, PartialEq, Eq, Structural, Debug)]
pub enum PayloadError {
    /// The height grid is not `FIELD_SIZE` by `FIELD_SIZE`.
    FieldSizeMismatch,
    /// A cell height exceeds the representable block range.
    HeightOutOfRange,
    /// A player or tagger position lies off the grid.
    PositionOutOfRange,
    /// A room notice that needs its room id and name lacks one.
    MissingRoomInfo,
}

/// The server position lies on the grid.
pub open spec fn pos_in_grid(p: PositionJson) -> bool {
    &&& 0 <= p.row < FIELD_SIZE
    &&& 0 <= p.column < FIELD_SIZE
}

/// The server position in the client's axes: the row mirrored once, the
/// column kept.
pub open spec fn spec_local_pos(p: PositionJson) -> GridPos {
    GridPos { x: spec_local_x(p.row as int) as i32, z: p.column }
}

/// The converted player carries the mirrored position, the same id, and
/// the same name text.
pub open spec fn player_matches_json(pl: Player, p: PlayerJson) -> bool {
    &&& pl.pos == spec_local_pos(p.position)
    &&& pl.uid == p.uid
    &&& pl.name@ == p.name@
}

/// The converted tagger.
pub open spec fn spec_tagger(t: TaggerJson) -> Tagger {
    Tagger { pos: spec_local_pos(t.position) }
}

/// Every listed player stands on the grid.
pub open spec fn players_valid(ps: Seq<PlayerJson>) -> bool {
    forall|i: int| 0 <= i < ps.len() ==> pos_in_grid(#[trigger] ps[i].position)
}

/// The raw grid has the announced size: `FIELD_SIZE` rows of
/// `FIELD_SIZE` cells.
pub open spec fn battle_field_dims_ok(b: BattleFieldJson) -> bool {
    &&& b.length == FIELD_SIZE as i32
    &&& b.squares@.len() == FIELD_SIZE
    &&& forall|i: int| 0 <= i < FIELD_SIZE ==> #[trigger] b.squares@[i]@.len() == FIELD_SIZE
}

/// The raw grid is ingestible: right dimensions, every height in the
/// block range.
pub open spec fn battle_field_valid(b: BattleFieldJson) -> bool {
    &&& battle_field_dims_ok(b)
    &&& forall|i: int, j: int|
        0 <= i < FIELD_SIZE && 0 <= j < FIELD_SIZE ==> #[trigger] b.squares@[i]@[j].height
            <= i32::MAX
}

/// Grid `g` is the raw grid with every row mirrored into the client's
/// axes: cell `(x, z)` holds the height the server reported at row
/// `FIELD_SIZE - 1 - x`, column `z`.
pub open spec fn spec_field_cells(b: BattleFieldJson, g: Seq<i32>) -> bool {
    &&& g.len() == FIELD_SIZE * FIELD_SIZE
    &&& forall|x: int, z: int|
        in_bounds(x, z) ==> #[trigger] g[cell_index(x, z)]
            == b.squares@[spec_local_x(x)]@[z].height as i32
}

/// The winner id a finish event carries.
pub open spec fn spec_winner(w: Option<PlayerJson>) -> Option<u128> {
    match w {
        Some(p) => Some(p.uid),
        None => None,
    }
}

/// A field update is ingestible as a whole.
pub open spec fn update_field_valid(u: UpdateFieldJson) -> bool {
    &&& battle_field_valid(u.battle_field)
    &&& players_valid(u.player_list@)
    &&& pos_in_grid(u.tagger.position)
}

/// The error a rejected field update reports, by the first check that
/// fails: dimensions, then heights, then positions.
pub open spec fn spec_update_field_error(u: UpdateFieldJson) -> PayloadError {
    if !battle_field_dims_ok(u.battle_field) {
        PayloadError::FieldSizeMismatch
    } else if !battle_field_valid(u.battle_field) {
        PayloadError::HeightOutOfRange
    } else {
        PayloadError::PositionOutOfRange
    }
}

/// `e` is the field-update event ingested from `u`.
pub open spec fn is_field_update_event(u: UpdateFieldJson, e: InboundEvent) -> bool {
    match e {
        InboundEvent::FieldUpdated { players, tagger, field } => {
            &&& players@.len() == u.player_list@.len()
            &&& forall|i: int| 0 <= i < players@.len() ==> player_matches_json(
                #[trigger] players@[i],
                u.player_list@[i],
            )
            &&& tagger == Some(spec_tagger(u.tagger))
            &&& spec_field_cells(u.battle_field, field@)
        },
        _ => false,
    }
}

/// Builds the client grid from the raw one: mirrors the rows, checks the
/// dimensions and the height range.
fn build_field(b: &BattleFieldJson) -> (r: Result<FieldGrid, PayloadError>)
    ensures
        r is Ok <==> battle_field_valid(*b),
        r matches Ok(g) ==> spec_field_cells(*b, g@),
        !battle_field_dims_ok(*b) ==> r == Err::<FieldGrid, PayloadError>(
            PayloadError::FieldSizeMismatch,
        ),
        battle_field_dims_ok(*b) && !battle_field_valid(*b) ==> r == Err::<FieldGrid, PayloadError>(
            PayloadError::HeightOutOfRange,
        ),
{
    if b.length != FIELD_SIZE as i32 {
        return Err(PayloadError::FieldSizeMismatch);
    }
    if b.squares.len() != FIELD_SIZE {
        return Err(PayloadError::FieldSizeMismatch);
    }
    let mut i: usize = 0;
    while i < FIELD_SIZE
        invariant
            i <= FIELD_SIZE,
            b.squares@.len() == FIELD_SIZE,
            forall|j: int| 0 <= j < i ==> #[trigger] b.squares@[j]@.len() == FIELD_SIZE,
        decreases FIELD_SIZE - i,
    {
        if b.squares[i].len() != FIELD_SIZE {
            return Err(PayloadError::FieldSizeMismatch);
        }
        i += 1;
    }
    let mut heights: Vec<i32> = Vec::new();
    let mut x: usize = 0;
    while x < FIELD_SIZE
        invariant
            x <= FIELD_SIZE,
            battle_field_dims_ok(*b),
            heights@.len() == x * FIELD_SIZE,
            forall|k: int| 0 <= k < heights@.len() ==> #[trigger] heights@[k] >= 0,
            forall|xx: int, zz: int|
                0 <= xx && 0 <= zz < FIELD_SIZE && cell_index(xx, zz) < x * FIELD_SIZE
                    ==> #[trigger] heights@[cell_index(xx, zz)] == b.squares@[spec_local_x(
                    xx,
                )]@[zz].height as i32,
            forall|i: int, j: int|
                0 <= i < FIELD_SIZE && 0 <= j < FIELD_SIZE && cell_index(spec_local_x(i), j) < x
                    * FIELD_SIZE ==> #[trigger] b.squares@[i]@[j].height <= i32::MAX,
        decreases FIELD_SIZE - x,
    {
        let row = &b.squares[FIELD_SIZE - 1 - x];
        let mut z: usize = 0;
        while z < FIELD_SIZE
            invariant
                x < FIELD_SIZE,
                z <= FIELD_SIZE,
                battle_field_dims_ok(*b),
                row == &b.squares@[spec_local_x(x as int)],
                heights@.len() == x * FIELD_SIZE + z,
                forall|k: int| 0 <= k < heights@.len() ==> #[trigger] heights@[k] >= 0,
                forall|xx: int, zz: int|
                    0 <= xx && 0 <= zz < FIELD_SIZE && cell_index(xx, zz) < x * FIELD_SIZE + z
                        ==> #[trigger] heights@[cell_index(xx, zz)] == b.squares@[spec_local_x(
                        xx,
                    )]@[zz].height as i32,
                forall|i: int, j: int|
                    0 <= i < FIELD_SIZE && 0 <= j < FIELD_SIZE && cell_index(spec_local_x(i), j)
                        < x * FIELD_SIZE + z ==> #[trigger] b.squares@[i]@[j].height <= i32::MAX,
            decreases FIELD_SIZE - z,
        {
            let h = row[z].height;
            if h > 0x7fff_ffff {
                return Err(PayloadError::HeightOutOfRange);
            }
            heights.push(h as i32);
            proof {
                assert forall|xx: int, zz: int|
                    0 <= xx && 0 <= zz < FIELD_SIZE && cell_index(xx, zz) == x * FIELD_SIZE
                        + z implies xx == x && zz == z by {
                    assert(xx == x && zz == z) by (nonlinear_arith)
                        requires
                            xx * (FIELD_SIZE as int) + zz == x * (FIELD_SIZE as int) + z,
                            0 <= zz < FIELD_SIZE,
                            0 <= z < FIELD_SIZE,
                            0 <= xx,
                            0 <= x,
                    ;
                }
            }
            z += 1;
        }
        x += 1;
    }
    let grid = FieldGrid::from_valid_heights(heights);
    proof {
        assert forall|ii: int, jj: int| 0 <= ii < FIELD_SIZE && 0 <= jj < FIELD_SIZE implies
            #[trigger] b.squares@[ii]@[jj].height <= i32::MAX by {
            assert(cell_index(spec_local_x(ii), jj) < FIELD_SIZE * FIELD_SIZE);
        }
    }
    Ok(grid)
}

/// Converts the listed players into the client's axes, rejecting any
/// that stand off the grid.
fn convert_players(list: &Vec<PlayerJson>) -> (r: Result<Vec<Player>, PayloadError>)
    ensures
        r is Ok <==> players_valid(list@),
        r matches Ok(v) ==> v@.len() == list@.len() && forall|i: int|
            0 <= i < v@.len() ==> player_matches_json(#[trigger] v@[i], list@[i]),
        r is Err ==> r == Err::<Vec<Player>, PayloadError>(PayloadError::PositionOutOfRange),
{
    let mut out: Vec<Player> = Vec::new();
    let mut i: usize = 0;
    while i < list.len()
        invariant
            i <= list@.len(),
            out@.len() == i,
            forall|j: int| 0 <= j < i ==> player_matches_json(#[trigger] out@[j], list@[j]),
            forall|j: int| 0 <= j < i ==> pos_in_grid(#[trigger] list@[j].position),
        decreases list@.len() - i,
    {
        let p = &list[i];
        if p.position.row < 0 || p.position.row >= FIELD_SIZE as i32 || p.position.column < 0
            || p.position.column >= FIELD_SIZE as i32 {
            return Err(PayloadError::PositionOutOfRange);
        }
        let pos = GridPos { x: server_row_to_local_x(p.position.row), z: p.position.column };
        out.push(Player::new(pos, p.uid, p.name.clone()));
        i += 1;
    }
    Ok(out)
}

/// Ingests one field-update payload into inbound events.
///
/// Pre-match phases carry nothing; a running match yields a field
/// update; a normally finished match yields the final field update and
/// then the finish notice with the winner; an abnormal end yields the
/// finish notice alone.
pub fn events_of_update_field(u: UpdateFieldJson) -> (r: Result<Vec<InboundEvent>, PayloadError>)
    ensures
        match u.state {
            GameStatusJson::BeforeStart | GameStatusJson::PendingStart => r matches Ok(v) && v@
                =~= Seq::<InboundEvent>::empty(),
            GameStatusJson::AbnormalEnd => r matches Ok(v) && v@ =~= seq![
                InboundEvent::MatchFinished { reason: FinishReason::Abnormal },
            ],
            GameStatusJson::InGame => {
                &&& r is Ok <==> update_field_valid(u)
                &&& r matches Ok(v) ==> v@.len() == 1 && is_field_update_event(u, v@[0])
                &&& r is Err ==> r == Err::<Vec<InboundEvent>, PayloadError>(
                    spec_update_field_error(u),
                )
            },
            GameStatusJson::Finish => {
                &&& r is Ok <==> update_field_valid(u)
                &&& r matches Ok(v) ==> v@.len() == 2 && is_field_update_event(u, v@[0]) && v@[1]
                    == (InboundEvent::MatchFinished {
                    reason: FinishReason::Normal { winner: spec_winner(u.winner) },
                })
                &&& r is Err ==> r == Err::<Vec<InboundEvent>, PayloadError>(
                    spec_update_field_error(u),
                )
            },
        },
{
    match u.state {
        GameStatusJson::BeforeStart | GameStatusJson::PendingStart => Ok(Vec::new()),
        GameStatusJson::AbnormalEnd => {
            let mut v: Vec<InboundEvent> = Vec::new();
            v.push(InboundEvent::MatchFinished { reason: FinishReason::Abnormal });
            Ok(v)
        },
        GameStatusJson::InGame | GameStatusJson::Finish => {
            let field = match build_field(&u.battle_field) {
                Ok(f) => f,
                Err(e) => {
                    return Err(e);
                },
            };
            let players = match convert_players(&u.player_list) {
                Ok(ps) => ps,
                Err(e) => {
                    return Err(e);
                },
            };
            if u.tagger.position.row < 0 || u.tagger.position.row >= FIELD_SIZE as i32
                || u.tagger.position.column < 0 || u.tagger.position.column >= FIELD_SIZE as i32 {
                return Err(PayloadError::PositionOutOfRange);
            }
            let tagger = Tagger::new(
                GridPos {
                    x: server_row_to_local_x(u.tagger.position.row),
                    z: u.tagger.position.column,
                },
            );
            let mut v: Vec<InboundEvent> = Vec::new();
            v.push(InboundEvent::FieldUpdated { players, tagger: Some(tagger), field });
            if matches!(u.state, GameStatusJson::Finish) {
                let winner = match &u.winner {
                    Some(p) => Some(p.uid),
                    None => None,
                };
                v.push(
                    InboundEvent::MatchFinished { reason: FinishReason::Normal { winner } },
                );
            }
            Ok(v)
        },
    }
}

/// Ingests one room-state payload. A room that is opening, full or empty
/// must name itself; `NotJoining` means the client was put out of its
/// room and carries nothing.
pub fn event_of_room_state(u: RoomStateEventJson) -> (r: Result<InboundEvent, PayloadError>)
    ensures
        match u.state {
            RoomStateJson::NotJoining => r == Ok::<InboundEvent, PayloadError>(
                InboundEvent::RoomLeft,
            ),
            RoomStateJson::Opening | RoomStateJson::Fulfilled | RoomStateJson::Empty => {
                &&& (r is Ok <==> u.room_id is Some && u.roomname is Some)
                &&& r is Err ==> r == Err::<InboundEvent, PayloadError>(
                    PayloadError::MissingRoomInfo,
                )
                &&& u.room_id is Some && u.roomname is Some && u.state is Opening ==> r == Ok::<
                    InboundEvent,
                    PayloadError,
                >(
                    (InboundEvent::RoomOpening {
                        room_id: u.room_id->Some_0,
                        room_name: u.roomname->Some_0,
                    }),
                )
                &&& u.room_id is Some && u.roomname is Some && u.state is Fulfilled ==> r == Ok::<
                    InboundEvent,
                    PayloadError,
                >(
                    (InboundEvent::RoomFulfilled {
                        room_id: u.room_id->Some_0,
                        room_name: u.roomname->Some_0,
                    }),
                )
                &&& u.room_id is Some && u.roomname is Some && u.state is Empty ==> r == Ok::<
                    InboundEvent,
                    PayloadError,
                >(
                    (InboundEvent::RoomEmpty {
                        room_id: u.room_id->Some_0,
                        room_name: u.roomname->Some_0,
                    }),
                )
            },
        },
{
    match u.state {
        RoomStateJson::NotJoining => Ok(InboundEvent::RoomLeft),
        RoomStateJson::Opening | RoomStateJson::Fulfilled | RoomStateJson::Empty => {
            let id = match u.room_id {
                Some(id) => id,
                None => {
                    return Err(PayloadError::MissingRoomInfo);
                },
            };
            let nm = match u.roomname {
                Some(nm) => nm,
                None => {
                    return Err(PayloadError::MissingRoomInfo);
                },
            };
            match u.state {
                RoomStateJson::Opening => Ok(InboundEvent::RoomOpening {
                    room_id: id,
                    room_name: nm,
                }),
                RoomStateJson::Fulfilled => Ok(InboundEvent::RoomFulfilled {
                    room_id: id,
                    room_name: nm,
                }),
                _ => Ok(InboundEvent::RoomEmpty { room_id: id, room_name: nm }),
            }
        },
    }
}

/// Ingests one user-assignment payload.
pub fn event_of_update_user(u: OnUpdateUserJson) -> (r: InboundEvent)
    ensures
        r == (InboundEvent::UserAssigned { uid: u.uid, name: u.name }),
{
    InboundEvent::UserAssigned { uid: u.uid, name: u.name }
}

} // verus!
