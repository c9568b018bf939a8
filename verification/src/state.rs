//! The session state machine.
//!
//! Owns the session state, the local user's identity and the world model.
//! Once per tick the game loop drains the event queue into
//! [`ClientStateMachine::handle_event`] and drives the per-state actions
//! (connect, join, move) through the small decision methods below; the
//! loop performs the outside work and reports each outcome back.
//!
//! Events that do not fit the current state are a deliberate tolerance
//! mechanism: the protocol does not track client state synchronously, so
//! mismatches are reported as [`EventOutcome::Ignored`] (the caller may
//! log them) and change nothing.

use vstd::prelude::*;

use crate::events::{DirectionJson, FinishReason, InboundEvent, OutboundCommand};
use crate::world::World;

verus! {

/// Ticks to wait before retrying a failed room join: about three seconds
/// at the nominal 60 Hz tick rate, re-armed on every failed attempt.
pub const JOIN_RETRY_TICKS: u32 = 180;

/// The session states, exactly one active at a time.
#[derive(Clone, Copy, PartialEq, Eq, Structural, Debug)]
pub enum SessionState {
    /// The title screen, waiting for the start key.
    TitleScreen,
    /// Must connect to the server and register the user id.
    SettingConnection,
    /// Waiting for the server to confirm the user assignment.
    WaitingSettingUid,
    /// Waiting `wait_ticks` ticks, then attempting to join a room.
    JoiningRoom { wait_ticks: u32 },
    /// In a room, waiting for the match to start.
    WaitingInRoom,
    /// A match is running.
    Playing,
    /// The match ended; the result screen is up.
    GameFinished { reason: FinishReason },
    /// The process must persist its settings and exit the loop.
    Quit,
}

/// What became of one delivered event.
#[derive(Clone, Copy, PartialEq, Eq, Structural, Debug)]
pub enum EventOutcome {
    Applied,
    Ignored,
}

/// One tick of waiting: counts a pending join delay down by one and
/// changes nothing else.
pub open spec fn spec_ticked(s: SessionState) -> SessionState {
    match s {
        SessionState::JoiningRoom { wait_ticks } => if wait_ticks > 0 {
            SessionState::JoiningRoom { wait_ticks: (wait_ticks - 1) as u32 }
        } else {
            s
        },
        _ => s,
    }
}

/// `n` ticks of waiting in a row.
pub open spec fn spec_ticked_n(s: SessionState, n: nat) -> SessionState
    decreases n,
{
    if n == 0 {
        s
    } else {
        spec_ticked(spec_ticked_n(s, (n - 1) as nat))
    }
}

/// The client's session: state, identity, world.
pub struct ClientStateMachine {
    state: SessionState,
    user_id: u128,
    user_name: String,
    world: World,
}

/// Neither state, identity nor world changed between `pre` and `post`.
pub open spec fn same_session(pre: ClientStateMachine, post: ClientStateMachine) -> bool {
    &&& post.spec_state() == pre.spec_state()
    &&& post.spec_user_id() == pre.spec_user_id()
    &&& post.spec_user_name() == pre.spec_user_name()
    &&& post.spec_world() == pre.spec_world()
}

impl ClientStateMachine {
    /// The current session state.
    pub closed spec fn spec_state(&self) -> SessionState {
        self.state
    }

    /// The local user's id.
    pub closed spec fn spec_user_id(&self) -> u128 {
        self.user_id
    }

    /// The local user's display name.
    pub closed spec fn spec_user_name(&self) -> String {
        self.user_name
    }

    /// The world model.
    pub closed spec fn spec_world(&self) -> World {
        self.world
    }

    /// A fresh session on the title screen. `user_id` is the identity the
    /// settings hand over; the server may reassign it.
    pub fn new(user_id: u128) -> (r: ClientStateMachine)
        ensures
            r.spec_state() == SessionState::TitleScreen,
            r.spec_user_id() == user_id,
            r.spec_user_name()@ == Seq::<char>::empty(),
            r.spec_world().is_initial(),
    {
        ClientStateMachine {
            state: SessionState::TitleScreen,
            user_id,
            user_name: String::new(),
            world: World::new(),
        }
    }

    pub fn state(&self) -> (r: SessionState)
        ensures
            r == self.spec_state(),
    {
        self.state
    }

    pub fn user_id(&self) -> (r: u128)
        ensures
            r == self.spec_user_id(),
    {
        self.user_id
    }

    pub fn user_name(&self) -> (r: &String)
        ensures
            *r == self.spec_user_name(),
    {
        &self.user_name
    }

    pub fn world(&self) -> (r: &World)
        ensures
            *r == self.spec_world(),
    {
        &self.world
    }

    /// Consumes one inbound event according to the transition table.
    ///
    /// Field, player and tagger data reach the world only while a match
    /// is running; a user assignment is honored only while one is
    /// awaited; leaving the room returns to the title screen from any
    /// state and re-initializes the world (the result screen keeps the
    /// final world, which is dropped only on that return).
    pub fn handle_event(&mut self, event: InboundEvent) -> (r: EventOutcome)
        ensures
            match event {
                InboundEvent::UserAssigned { uid, name } => if old(self).spec_state()
                    is WaitingSettingUid {
                    &&& r == EventOutcome::Applied
                    &&& final(self).spec_state() == (SessionState::JoiningRoom { wait_ticks: 0 })
                    &&& final(self).spec_user_id() == uid
                    &&& final(self).spec_user_name() == name
                    &&& final(self).spec_world() == old(self).spec_world()
                } else {
                    r == EventOutcome::Ignored && same_session(*old(self), *final(self))
                },
                InboundEvent::RoomOpening { .. } => r == EventOutcome::Ignored && same_session(
                    *old(self),
                    *final(self),
                ),
                InboundEvent::RoomEmpty { .. } => r == EventOutcome::Ignored && same_session(
                    *old(self),
                    *final(self),
                ),
                InboundEvent::RoomFulfilled { .. } => if old(self).spec_state() is WaitingInRoom {
                    &&& r == EventOutcome::Applied
                    &&& final(self).spec_state() == SessionState::Playing
                    &&& final(self).spec_user_id() == old(self).spec_user_id()
                    &&& final(self).spec_user_name() == old(self).spec_user_name()
                    &&& final(self).spec_world() == old(self).spec_world()
                } else {
                    r == EventOutcome::Ignored && same_session(*old(self), *final(self))
                },
                InboundEvent::RoomLeft => {
                    &&& r == EventOutcome::Applied
                    &&& final(self).spec_state() == SessionState::TitleScreen
                    &&& final(self).spec_world().is_initial()
                    &&& final(self).spec_user_id() == old(self).spec_user_id()
                    &&& final(self).spec_user_name() == old(self).spec_user_name()
                },
                InboundEvent::FieldUpdated { players, tagger, field } => if old(self).spec_state()
                    is Playing {
                    &&& r == EventOutcome::Applied
                    &&& final(self).spec_state() == SessionState::Playing
                    &&& final(self).spec_world().spec_field() == field@
                    &&& final(self).spec_world().spec_players() == players@
                    &&& final(self).spec_world().spec_tagger() == tagger
                    &&& final(self).spec_user_id() == old(self).spec_user_id()
                    &&& final(self).spec_user_name() == old(self).spec_user_name()
                } else {
                    r == EventOutcome::Ignored && same_session(*old(self), *final(self))
                },
                InboundEvent::MatchFinished { reason } => if old(self).spec_state() is Playing {
                    &&& r == EventOutcome::Applied
                    &&& final(self).spec_state() == (SessionState::GameFinished { reason })
                    &&& final(self).spec_user_id() == old(self).spec_user_id()
                    &&& final(self).spec_user_name() == old(self).spec_user_name()
                    &&& final(self).spec_world() == old(self).spec_world()
                } else {
                    r == EventOutcome::Ignored && same_session(*old(self), *final(self))
                },
            },
    {
        match event {
            InboundEvent::UserAssigned { uid, name } => {
                if matches!(self.state, SessionState::WaitingSettingUid) {
                    self.user_id = uid;
                    self.user_name = name;
                    self.state = SessionState::JoiningRoom { wait_ticks: 0 };
                    EventOutcome::Applied
                } else {
                    EventOutcome::Ignored
                }
            },
            InboundEvent::RoomOpening { .. } => EventOutcome::Ignored,
            InboundEvent::RoomEmpty { .. } => EventOutcome::Ignored,
            InboundEvent::RoomFulfilled { .. } => {
                if matches!(self.state, SessionState::WaitingInRoom) {
                    self.state = SessionState::Playing;
                    EventOutcome::Applied
                } else {
                    EventOutcome::Ignored
                }
            },
            InboundEvent::RoomLeft => {
                self.state = SessionState::TitleScreen;
                self.world = World::new();
                EventOutcome::Applied
            },
            InboundEvent::FieldUpdated { players, tagger, field } => {
                if matches!(self.state, SessionState::Playing) {
                    self.world.update(field);
                    self.world.set_players(players);
                    match tagger {
                        Some(t) => self.world.set_tagger(t),
                        None => self.world.set_no_tagger(),
                    }
                    EventOutcome::Applied
                } else {
                    EventOutcome::Ignored
                }
            },
            InboundEvent::MatchFinished { reason } => {
                if matches!(self.state, SessionState::Playing) {
                    self.state = SessionState::GameFinished { reason };
                    EventOutcome::Applied
                } else {
                    EventOutcome::Ignored
                }
            },
        }
    }

    /// The start key on the title screen begins connecting; anywhere else
    /// the key means nothing.
    pub fn on_start_pressed(&mut self)
        ensures
            old(self).spec_state() is TitleScreen ==> final(self).spec_state()
                == SessionState::SettingConnection,
            !(old(self).spec_state() is TitleScreen)
                ==> final(self).spec_state() == old(self).spec_state(),
            final(self).spec_user_id() == old(self).spec_user_id(),
            final(self).spec_user_name() == old(self).spec_user_name(),
            final(self).spec_world() == old(self).spec_world(),
    {
        if matches!(self.state, SessionState::TitleScreen) {
            self.state = SessionState::SettingConnection;
        }
    }

    /// Whether the loop must connect and register the user id this tick.
    pub fn needs_connection_attempt(&self) -> (r: bool)
        ensures
            r == (self.spec_state() is SettingConnection),
    {
        matches!(self.state, SessionState::SettingConnection)
    }

    /// Reports whether connecting and registering succeeded. On failure
    /// the session falls back to the title screen (with a fresh world);
    /// on success it waits for the server's user assignment.
    pub fn on_connect_result(&mut self, ok: bool)
        ensures
            old(self).spec_state() is SettingConnection ==> {
                &&& ok ==> final(self).spec_state() == SessionState::WaitingSettingUid
                    && final(self).spec_world() == old(self).spec_world()
                &&& !ok ==> final(self).spec_state() == SessionState::TitleScreen
                    && final(self).spec_world().is_initial()
            },
            !(old(self).spec_state() is SettingConnection) ==> same_session(
                *old(self),
                *final(self),
            ),
            final(self).spec_user_id() == old(self).spec_user_id(),
            final(self).spec_user_name() == old(self).spec_user_name(),
    {
        if matches!(self.state, SessionState::SettingConnection) {
            if ok {
                self.state = SessionState::WaitingSettingUid;
            } else {
                self.state = SessionState::TitleScreen;
                self.world = World::new();
            }
        }
    }

    /// Whether the loop must attempt a room join this tick: the join
    /// delay has run out.
    pub fn needs_join_attempt(&self) -> (r: bool)
        ensures
            r == (self.spec_state() == (SessionState::JoiningRoom { wait_ticks: 0u32 })),
    {
        matches!(self.state, SessionState::JoiningRoom { wait_ticks: 0 })
    }

    /// Reports whether the join emit succeeded. Success puts the session
    /// in the room; failure re-arms the retry delay, so the join is
    /// attempted again only after `JOIN_RETRY_TICKS` further ticks.
    pub fn on_join_result(&mut self, ok: bool)
        ensures
            old(self).spec_state() == (SessionState::JoiningRoom { wait_ticks: 0u32 }) ==> {
                &&& ok ==> final(self).spec_state() == SessionState::WaitingInRoom
                &&& !ok ==> final(self).spec_state() == (SessionState::JoiningRoom {
                    wait_ticks: JOIN_RETRY_TICKS,
                })
            },
            old(self).spec_state() != (SessionState::JoiningRoom { wait_ticks: 0u32 })
                ==> final(self).spec_state() == old(self).spec_state(),
            final(self).spec_user_id() == old(self).spec_user_id(),
            final(self).spec_user_name() == old(self).spec_user_name(),
            final(self).spec_world() == old(self).spec_world(),
    {
        if matches!(self.state, SessionState::JoiningRoom { wait_ticks: 0 }) {
            if ok {
                self.state = SessionState::WaitingInRoom;
            } else {
                self.state = SessionState::JoiningRoom { wait_ticks: JOIN_RETRY_TICKS };
            }
        }
    }

    /// One tick passes: a pending join delay counts down by one.
    pub fn on_tick(&mut self)
        ensures
            final(self).spec_state() == spec_ticked(old(self).spec_state()),
            final(self).spec_user_id() == old(self).spec_user_id(),
            final(self).spec_user_name() == old(self).spec_user_name(),
            final(self).spec_world() == old(self).spec_world(),
    {
        match self.state {
            SessionState::JoiningRoom { wait_ticks } => {
                if wait_ticks > 0 {
                    self.state = SessionState::JoiningRoom { wait_ticks: wait_ticks - 1 };
                }
            },
            _ => {},
        }
    }

    /// The continue key on the result screen returns to the title screen
    /// and re-initializes the world; anywhere else the key means nothing.
    /// No command is sent to the server on leaving the result screen.
    pub fn on_continue_pressed(&mut self)
        ensures
            old(self).spec_state() is GameFinished ==> final(self).spec_state()
                == SessionState::TitleScreen && final(self).spec_world().is_initial(),
            !(old(self).spec_state() is GameFinished) ==> same_session(*old(self), *final(self)),
            final(self).spec_user_id() == old(self).spec_user_id(),
            final(self).spec_user_name() == old(self).spec_user_name(),
    {
        if matches!(self.state, SessionState::GameFinished { .. }) {
            self.state = SessionState::TitleScreen;
            self.world = World::new();
        }
    }

    /// The operating system asked the process to quit.
    pub fn on_quit(&mut self)
        ensures
            final(self).spec_state() == SessionState::Quit,
            final(self).spec_user_id() == old(self).spec_user_id(),
            final(self).spec_user_name() == old(self).spec_user_name(),
            final(self).spec_world() == old(self).spec_world(),
    {
        self.state = SessionState::Quit;
    }

    /// Whether the loop must persist settings and exit.
    pub fn should_exit(&self) -> (r: bool)
        ensures
            r == (self.spec_state() is Quit),
    {
        matches!(self.state, SessionState::Quit)
    }

    /// The command registering the user id, due right after a successful
    /// connect and only then.
    pub fn setup_uid_command(&self) -> (r: Option<OutboundCommand>)
        ensures
            r == if self.spec_state() is SettingConnection {
                Some(OutboundCommand::SetupUid { user_id: self.spec_user_id() })
            } else {
                None::<OutboundCommand>
            },
    {
        if matches!(self.state, SessionState::SettingConnection) {
            Some(OutboundCommand::SetupUid { user_id: self.user_id })
        } else {
            None
        }
    }

    /// The room-join command, due only when the join delay has run out.
    pub fn join_command(&self) -> (r: Option<OutboundCommand>)
        ensures
            r == if self.spec_state() == (SessionState::JoiningRoom { wait_ticks: 0u32 }) {
                Some(OutboundCommand::JoinRoom)
            } else {
                None::<OutboundCommand>
            },
    {
        if matches!(self.state, SessionState::JoiningRoom { wait_ticks: 0 }) {
            Some(OutboundCommand::JoinRoom)
        } else {
            None
        }
    }

    /// A move intent from the keys, forwarded only while a match is
    /// running.
    pub fn move_command(&self, direction: DirectionJson) -> (r: Option<OutboundCommand>)
        ensures
            r == if self.spec_state() is Playing {
                Some(OutboundCommand::TryMove { direction })
            } else {
                None::<OutboundCommand>
            },
    {
        if matches!(self.state, SessionState::Playing) {
            Some(OutboundCommand::TryMove { direction })
        } else {
            None
        }
    }
}

/// The retry backoff runs its full length and re-arms one join attempt:
/// starting from a freshly failed join, after `n < JOIN_RETRY_TICKS`
/// ticks the delay still has `JOIN_RETRY_TICKS - n` ticks to run and no
/// join is due; after exactly `JOIN_RETRY_TICKS` ticks the delay is out
/// and the join is due. Attempting it then leaves the join-ready state
/// at once (either into the room or into a fresh delay), so the
/// re-attempt happens exactly once.
pub proof fn lemma_join_backoff(n: nat)
    requires
        n <= JOIN_RETRY_TICKS,
    ensures
        spec_ticked_n(SessionState::JoiningRoom { wait_ticks: JOIN_RETRY_TICKS }, n)
            == (SessionState::JoiningRoom { wait_ticks: (JOIN_RETRY_TICKS - n) as u32 }),
        n < JOIN_RETRY_TICKS ==> spec_ticked_n(
            SessionState::JoiningRoom { wait_ticks: JOIN_RETRY_TICKS },
            n,
        ) != (SessionState::JoiningRoom { wait_ticks: 0u32 }),
    decreases n,
{
    if n > 0 {
        lemma_join_backoff((n - 1) as nat);
    }
}

} // verus!
