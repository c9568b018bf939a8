//! The typed events the server delivers and the commands the client emits.

use vstd::prelude::*;

use crate::field::FieldGrid;
use crate::player::{Player, Tagger};

verus! {

/// Why a match ended: normally, with an optional winner, or abnormally
/// (a player left, the session broke).
#[derive(Clone, Copy, PartialEq, Eq, Structural, Debug)]
pub enum FinishReason {
    Normal { winner: Option<u128> },
    Abnormal,
}

/// One inbound event, already decoded from the wire. Produced by the
/// network edge, consumed exactly once by the state machine, in arrival
/// order.
#[derive(Debug)]
pub enum InboundEvent {
    UserAssigned { uid: u128, name: String },
    RoomOpening { room_id: String, room_name: String },
    RoomFulfilled { room_id: String, room_name: String },
    RoomEmpty { room_id: String, room_name: String },
    RoomLeft,
    FieldUpdated { players: Vec<Player>, tagger: Option<Tagger>, field: FieldGrid },
    MatchFinished { reason: FinishReason },
}

/// The player's answer on the result screen.
#[derive(Clone, Copy, PartialEq, Eq, Structural, Debug)]
pub enum RequestAfterGameJson {
    Restart,
    Leave,
}

/// A movement intent, as named on the wire.
#[derive(Clone, Copy, PartialEq, Eq, Structural, Debug)]
pub enum DirectionJson {
    Down,
    Up,
    Left,
    Right,
}

impl DirectionJson {
    /// The name the wire protocol uses for this direction.
    pub fn wire_name(&self) -> (r: &'static str)
        ensures
            r@ == match self {
                DirectionJson::Down => "down"@,
                DirectionJson::Up => "up"@,
                DirectionJson::Left => "left"@,
                DirectionJson::Right => "right"@,
            },
    {
        match self {
            DirectionJson::Down => "down",
            DirectionJson::Up => "up",
            DirectionJson::Left => "left",
            DirectionJson::Right => "right",
        }
    }
}

/// One outbound command for the server.
#[derive(Clone, Copy, PartialEq, Eq, Structural, Debug)]
pub enum OutboundCommand {
    SetupUid { user_id: u128 },
    JoinRoom,
    TryMove { direction: DirectionJson },
    RequestAfterGame { choice: RequestAfterGameJson },
}

impl OutboundCommand {
    /// The event-channel name this command is emitted on. The protocol
    /// fixes these strings; `udpate-field` below mirrors a misspelling
    /// the server side shipped with, kept for wire compatibility.
    pub fn channel_name(&self) -> (r: &'static str)
        ensures
            r@ == match self {
                OutboundCommand::SetupUid { .. } => "setup-uid"@,
                OutboundCommand::JoinRoom => "join-room"@,
                OutboundCommand::TryMove { .. } => "try-move"@,
                OutboundCommand::RequestAfterGame { .. } => "request-after-game"@,
            },
    {
        match self {
            OutboundCommand::SetupUid { .. } => "setup-uid",
            OutboundCommand::JoinRoom => "join-room",
            OutboundCommand::TryMove { .. } => "try-move",
            OutboundCommand::RequestAfterGame { .. } => "request-after-game",
        }
    }
}

/// The inbound event channels the client subscribes to.
#[derive(Clone, Copy, PartialEq, Eq, Structural, Debug)]
pub enum InboundChannel {
    UpdateUser,
    RoomState,
    UpdateField,
}

impl InboundChannel {
    /// The name the wire protocol uses for this inbound channel;
    /// `udpate-field` is the protocol's own spelling.
    pub fn wire_name(&self) -> (r: &'static str)
        ensures
            r@ == match self {
                InboundChannel::UpdateUser => "on-update-user"@,
                InboundChannel::RoomState => "room-state"@,
                InboundChannel::UpdateField => "udpate-field"@,
            },
    {
        match self {
            InboundChannel::UpdateUser => "on-update-user",
            InboundChannel::RoomState => "room-state",
            InboundChannel::UpdateField => "udpate-field",
        }
    }
}

} // verus!
