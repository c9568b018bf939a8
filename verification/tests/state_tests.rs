use blocking_io_client::events::{FinishReason, InboundEvent};
use blocking_io_client::field::{Direction, FieldGrid, FIELD_SIZE};
use blocking_io_client::player::{GridPos, Player, Tagger};
use blocking_io_client::state::{
    ClientStateMachine, EventOutcome, SessionState, JOIN_RETRY_TICKS,
};

const UID: u128 = 0xa1b2;

fn user_assigned(uid: u128) -> InboundEvent {
    InboundEvent::UserAssigned { uid, name: String::from("player-one") }
}

fn room_fulfilled() -> InboundEvent {
    InboundEvent::RoomFulfilled { room_id: String::from("r1"), room_name: String::from("room") }
}

fn field_with_block(x: usize, z: usize, h: i32) -> FieldGrid {
    let mut v = vec![0; FIELD_SIZE * FIELD_SIZE];
    v[x * FIELD_SIZE + z] = h;
    FieldGrid::from_heights(v).unwrap()
}

fn field_updated() -> InboundEvent {
    InboundEvent::FieldUpdated {
        players: vec![Player::new(GridPos { x: 2, z: 2 }, UID, String::from("player-one"))],
        tagger: Some(Tagger::new(GridPos { x: 0, z: 0 })),
        field: field_with_block(2, 2, 3),
    }
}

/// Drives a fresh machine into the `Playing` state.
fn machine_in_playing() -> ClientStateMachine {
    let mut m = ClientStateMachine::new(UID);
    m.on_start_pressed();
    m.on_connect_result(true);
    assert_eq!(m.handle_event(user_assigned(UID)), EventOutcome::Applied);
    m.on_join_result(true);
    assert_eq!(m.handle_event(room_fulfilled()), EventOutcome::Applied);
    assert_eq!(m.state(), SessionState::Playing);
    m
}

#[test]
fn update_user_in_waiting_setting_uid_assigns_and_joins() {
    let mut m = ClientStateMachine::new(7);
    m.on_start_pressed();
    m.on_connect_result(true);
    assert_eq!(m.state(), SessionState::WaitingSettingUid);
    let outcome = m.handle_event(user_assigned(42));
    assert_eq!(outcome, EventOutcome::Applied);
    assert_eq!(m.state(), SessionState::JoiningRoom { wait_ticks: 0 });
    assert_eq!(m.user_id(), 42);
    assert_eq!(m.user_name().as_str(), "player-one");
}

#[test]
fn update_user_while_playing_is_ignored() {
    let mut m = machine_in_playing();
    assert_eq!(m.handle_event(field_updated()), EventOutcome::Applied);
    let players_before = m.world().player_count();
    let outcome = m.handle_event(user_assigned(999));
    assert_eq!(outcome, EventOutcome::Ignored);
    assert_eq!(m.state(), SessionState::Playing);
    assert_eq!(m.user_id(), UID);
    assert_eq!(m.world().player_count(), players_before);
    assert_eq!(m.world().height(2, 2), 3);
}

#[test]
fn join_failure_backs_off_and_retries_exactly_once() {
    let mut m = ClientStateMachine::new(UID);
    m.on_start_pressed();
    m.on_connect_result(true);
    m.handle_event(user_assigned(UID));
    assert!(m.needs_join_attempt());
    m.on_join_result(false);
    assert_eq!(m.state(), SessionState::JoiningRoom { wait_ticks: JOIN_RETRY_TICKS });
    let mut attempts = 0;
    for _ in 0..JOIN_RETRY_TICKS {
        assert!(!m.needs_join_attempt());
        m.on_tick();
        if m.needs_join_attempt() {
            attempts += 1;
        }
    }
    // After exactly JOIN_RETRY_TICKS ticks the join is due again, once.
    assert_eq!(attempts, 1);
    assert_eq!(m.state(), SessionState::JoiningRoom { wait_ticks: 0 });
    m.on_join_result(true);
    assert_eq!(m.state(), SessionState::WaitingInRoom);
    assert!(!m.needs_join_attempt());
}

#[test]
fn field_update_outside_playing_is_ignored() {
    let mut m = ClientStateMachine::new(UID);
    assert_eq!(m.handle_event(field_updated()), EventOutcome::Ignored);
    assert_eq!(m.state(), SessionState::TitleScreen);
    assert_eq!(m.world().height(2, 2), 0);
    assert_eq!(m.world().player_count(), 0);
}

#[test]
fn match_finished_outside_playing_is_ignored() {
    let mut m = ClientStateMachine::new(UID);
    let outcome =
        m.handle_event(InboundEvent::MatchFinished { reason: FinishReason::Abnormal });
    assert_eq!(outcome, EventOutcome::Ignored);
    assert_eq!(m.state(), SessionState::TitleScreen);
}

#[test]
fn room_left_returns_to_title_and_clears_world() {
    let mut m = machine_in_playing();
    m.handle_event(field_updated());
    assert_eq!(m.world().height(2, 2), 3);
    assert_eq!(m.handle_event(InboundEvent::RoomLeft), EventOutcome::Applied);
    assert_eq!(m.state(), SessionState::TitleScreen);
    assert_eq!(m.world().height(2, 2), 0);
    assert_eq!(m.world().player_count(), 0);
    assert!(m.world().tagger().is_none());
}

#[test]
fn connect_failure_falls_back_to_title() {
    let mut m = ClientStateMachine::new(UID);
    m.on_start_pressed();
    assert!(m.needs_connection_attempt());
    m.on_connect_result(false);
    assert_eq!(m.state(), SessionState::TitleScreen);
}

#[test]
fn quit_overrides_any_state() {
    let mut m = machine_in_playing();
    assert!(!m.should_exit());
    m.on_quit();
    assert!(m.should_exit());
    assert_eq!(m.state(), SessionState::Quit);
}

#[test]
fn continue_on_result_screen_returns_to_title() {
    let mut m = machine_in_playing();
    m.handle_event(field_updated());
    m.handle_event(InboundEvent::MatchFinished {
        reason: FinishReason::Normal { winner: Some(UID) },
    });
    assert!(matches!(m.state(), SessionState::GameFinished { .. }));
    // The final world stays up behind the result screen.
    assert_eq!(m.world().height(2, 2), 3);
    m.on_continue_pressed();
    assert_eq!(m.state(), SessionState::TitleScreen);
    assert_eq!(m.world().height(2, 2), 0);
}

#[test]
fn full_session_from_title_to_win() {
    let mut m = ClientStateMachine::new(UID);
    assert_eq!(m.state(), SessionState::TitleScreen);

    m.on_start_pressed();
    assert_eq!(m.state(), SessionState::SettingConnection);

    m.on_connect_result(true);
    assert_eq!(m.state(), SessionState::WaitingSettingUid);

    assert_eq!(m.handle_event(user_assigned(UID)), EventOutcome::Applied);
    assert_eq!(m.state(), SessionState::JoiningRoom { wait_ticks: 0 });

    assert!(m.needs_join_attempt());
    m.on_join_result(true);
    assert_eq!(m.state(), SessionState::WaitingInRoom);

    assert_eq!(m.handle_event(room_fulfilled()), EventOutcome::Applied);
    assert_eq!(m.state(), SessionState::Playing);

    assert_eq!(m.handle_event(field_updated()), EventOutcome::Applied);
    assert_eq!(m.state(), SessionState::Playing);
    let w = m.world();
    assert_eq!(w.height(2, 2), 3);
    assert_eq!(w.player_count(), 1);
    assert_eq!(w.tagger().unwrap().pos, GridPos { x: 0, z: 0 });
    // The raised cell walls all four of its sides by 3.
    assert_eq!(w.delta(2, 2, Direction::Up), 3);
    assert_eq!(w.delta(2, 2, Direction::Down), 3);
    assert_eq!(w.delta(2, 2, Direction::Left), 3);
    assert_eq!(w.delta(2, 2, Direction::Right), 3);
    // The neighbors' matching sides stay unwalled.
    assert_eq!(w.delta(3, 2, Direction::Up), 0);
    assert_eq!(w.delta(1, 2, Direction::Down), 0);
    assert_eq!(w.delta(2, 1, Direction::Left), 0);
    assert_eq!(w.delta(2, 3, Direction::Right), 0);

    m.handle_event(InboundEvent::MatchFinished {
        reason: FinishReason::Normal { winner: Some(UID) },
    });
    match m.state() {
        SessionState::GameFinished { reason } => {
            assert_eq!(reason, FinishReason::Normal { winner: Some(UID) });
        }
        other => panic!("unexpected state {:?}", other),
    }
}

#[test]
fn world_faces_follow_the_latest_field() {
    let mut m = machine_in_playing();
    assert!(m.world().faces().is_empty());
    m.handle_event(field_updated());
    let faces = m.world().faces();
    // The lone height-3 block exposes exactly its four lethal sides.
    assert_eq!(faces.len(), 4);
    for f in &faces {
        assert_eq!((f.x, f.z, f.top, f.drop), (2, 2, 3, 3));
    }
}

#[test]
fn player_world_pos_rests_on_the_block() {
    let mut m = machine_in_playing();
    m.handle_event(field_updated());
    let w = m.world();
    let p = w.player_at(0);
    let pos = w.player_world_pos(p);
    // Centered on cell (2, 2), on top of the height-3 block: in
    // half-block units (2.5, 4.5, 2.5) doubles to (5, 9, 5).
    assert_eq!(pos.half_x, 5);
    assert_eq!(pos.half_y, 9);
    assert_eq!(pos.half_z, 5);
}
