//! Client-side core of a grid-arena multiplayer tag game.
//!
//! Players stand on a square grid of integer block heights; a server sends
//! authoritative snapshots of the arena over an event channel. This crate
//! holds the logic the client needs between the network edge and the
//! renderer: the session state machine, the event queue that bridges
//! network callbacks into the game loop, the world model, and the
//! field-diff engine that classifies which wall faces are exposed and
//! whether stepping off them is survivable.

pub mod camera;
pub mod events;
pub mod field;
pub mod payload;
pub mod player;
pub mod queue;
pub mod socketio_encoding;
pub mod state;
pub mod world;

pub use field::FIELD_SIZE;
