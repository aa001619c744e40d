//! The connection state machine and screen navigation.

use platformer_core::GameContext;
use platformer_core::Pause;
use platformer_core::connection::{ConnectionState, monitor_connection, new_connect_request,
    setup_connection};
use platformer_core::protocol::PROTOCOL_ID;
use platformer_core::screens::{GameMode, GameScreen, on_multiplayer_click,
    on_single_player_click};

#[test]
fn fresh_game_starts_disconnected_in_the_menu() {
    let ctx = GameContext::new();
    assert_eq!(ctx.screen, GameScreen::MainMenu);
    assert_eq!(ctx.mode, GameMode::SinglePlayer);
    assert_eq!(ctx.pause, Pause(false));
    assert_eq!(ctx.connection, ConnectionState::Disconnected);
    assert!(ctx.input.local.is_empty());
    assert!(ctx.input.outgoing.is_empty());
    assert_eq!(ctx.store.records.len(), 0);
}

#[test]
fn menu_clicks_select_mode_and_navigate() {
    let mut mode = GameMode::SinglePlayer;
    let mut screen = GameScreen::MainMenu;
    on_multiplayer_click(&mut mode, &mut screen);
    assert_eq!(mode, GameMode::Multiplayer);
    assert_eq!(screen, GameScreen::Connecting);
    on_single_player_click(&mut mode, &mut screen);
    assert_eq!(mode, GameMode::SinglePlayer);
    assert_eq!(screen, GameScreen::Playing);
}

#[test]
fn connect_request_carries_the_protocol_id() {
    let r = new_connect_request();
    assert_eq!(r.protocol_id, PROTOCOL_ID);
}

#[test]
fn transport_construction_outcome_sets_the_state() {
    let mut state = ConnectionState::Disconnected;
    setup_connection(&mut state, true);
    assert_eq!(state, ConnectionState::Connecting);
    let mut state = ConnectionState::Disconnected;
    setup_connection(&mut state, false);
    assert_eq!(state, ConnectionState::Error);
}

#[test]
fn handshake_established_enters_the_playing_view() {
    let mut state = ConnectionState::Connecting;
    let mut screen = GameScreen::Connecting;
    monitor_connection(&mut state, &mut screen, true, false);
    assert_eq!(state, ConnectionState::Connected);
    assert_eq!(screen, GameScreen::Playing);
}

#[test]
fn handshake_failure_returns_to_the_menu() {
    let mut state = ConnectionState::Connecting;
    let mut screen = GameScreen::Connecting;
    monitor_connection(&mut state, &mut screen, false, true);
    assert_eq!(state, ConnectionState::Disconnected);
    assert_eq!(screen, GameScreen::MainMenu);
}

#[test]
fn mid_session_loss_enters_the_distinct_disconnected_view() {
    let mut state = ConnectionState::Connected;
    let mut screen = GameScreen::Playing;
    monitor_connection(&mut state, &mut screen, false, true);
    assert_eq!(state, ConnectionState::Disconnected);
    assert_eq!(screen, GameScreen::Disconnected);
}

#[test]
fn quiet_transport_changes_nothing() {
    let mut state = ConnectionState::Connecting;
    let mut screen = GameScreen::Connecting;
    monitor_connection(&mut state, &mut screen, false, false);
    assert_eq!(state, ConnectionState::Connecting);
    assert_eq!(screen, GameScreen::Connecting);

    let mut state = ConnectionState::Disconnected;
    let mut screen = GameScreen::MainMenu;
    monitor_connection(&mut state, &mut screen, true, true);
    assert_eq!(state, ConnectionState::Disconnected);
    assert_eq!(screen, GameScreen::MainMenu);
}

#[test]
fn paused_game_ticks_nothing() {
    let mut ctx = GameContext::new();
    platformer_core::spawning::on_spawn_local_player(&mut ctx.store);
    ctx.input.on_movement_action(GameMode::SinglePlayer, 1000);
    ctx.pause = Pause(true);
    let before = ctx.store.records[0];
    ctx.tick(100);
    assert_eq!(ctx.store.records[0], before);
    assert_eq!(ctx.input.local.len(), 1);
}

#[test]
fn unpaused_single_player_tick_applies_inputs_then_steps() {
    let mut ctx = GameContext::new();
    platformer_core::spawning::on_spawn_local_player(&mut ctx.store);
    ctx.input.on_movement_action(GameMode::SinglePlayer, 1000);
    ctx.tick(100);
    assert!(ctx.input.local.is_empty());
    assert_eq!(ctx.store.records[0].velocity.x, 450_000);
    assert_eq!(ctx.store.records[0].position.x, 45_000);
}
