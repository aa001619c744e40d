//! Input routing, clamping and jump gating.

use platformer_core::components::{PlayerRecord, Rgba, Vec2};
use platformer_core::input::{InputController, InputMessage, PlayerMovementInput, QueuedInput};
use platformer_core::protocol::{GROUNDED_Y, JUMP_VELOCITY};
use platformer_core::replication::ReplicationStore;
use platformer_core::screens::GameMode;
use platformer_core::simulation::{apply_local_jump, apply_local_movement,
    apply_network_jump, apply_network_movement, drain_inputs, server_tick};

fn owned_record(owner: Option<u64>) -> PlayerRecord {
    PlayerRecord {
        position: Vec2 { x: 0, y: GROUNDED_Y },
        velocity: Vec2 { x: 0, y: 0 },
        grounded: true,
        color: Rgba { r: 0, g: 0, b: 0, a: 1000 },
        owner,
    }
}

#[test]
fn single_player_routing_keeps_sender_order() {
    let mut ctl = InputController::new();
    ctl.on_movement_action(GameMode::SinglePlayer, 1000);
    ctl.on_jump_action(GameMode::SinglePlayer);
    ctl.on_movement_stop(GameMode::SinglePlayer);
    assert!(ctl.outgoing.is_empty());
    let msgs = ctl.drain_local();
    assert_eq!(msgs.len(), 3);
    assert!(matches!(msgs[0], InputMessage::Movement(PlayerMovementInput { movement: 1000 })));
    assert!(matches!(msgs[1], InputMessage::Jump(_)));
    assert!(matches!(msgs[2], InputMessage::Movement(PlayerMovementInput { movement: 0 })));
    assert!(ctl.local.is_empty());
}

#[test]
fn multiplayer_routing_goes_out_over_the_network() {
    let mut ctl = InputController::new();
    ctl.on_movement_action(GameMode::Multiplayer, -500);
    ctl.on_jump_action(GameMode::Multiplayer);
    assert!(ctl.local.is_empty());
    let msgs = ctl.take_outgoing();
    assert_eq!(msgs.len(), 2);
    assert!(matches!(msgs[0], InputMessage::Movement(PlayerMovementInput { movement: -500 })));
    assert!(matches!(msgs[1], InputMessage::Jump(_)));
    assert!(ctl.outgoing.is_empty());
}

#[test]
fn movement_scales_by_move_speed() {
    let mut store = ReplicationStore::new();
    store.records.push(owned_record(Some(9)));
    apply_network_movement(&mut store, 9, &PlayerMovementInput { movement: 1000 });
    assert_eq!(store.records[0].velocity.x, 450_000);
    apply_network_movement(&mut store, 9, &PlayerMovementInput { movement: -200 });
    assert_eq!(store.records[0].velocity.x, -90_000);
}

#[test]
fn out_of_range_movement_is_clamped_before_scaling() {
    let mut store = ReplicationStore::new();
    store.records.push(owned_record(Some(9)));
    apply_network_movement(&mut store, 9, &PlayerMovementInput { movement: 1_000_000 });
    assert_eq!(store.records[0].velocity.x, 450_000);
    apply_network_movement(&mut store, 9, &PlayerMovementInput { movement: -7_777 });
    assert_eq!(store.records[0].velocity.x, -450_000);
}

#[test]
fn jump_fires_only_on_grounded_records() {
    let mut store = ReplicationStore::new();
    store.records.push(owned_record(Some(3)));
    apply_network_jump(&mut store, 3);
    assert_eq!(store.records[0].velocity.y, JUMP_VELOCITY);
    assert!(!store.records[0].grounded);

    // Airborne now: a second jump is accepted but changes nothing.
    let before = store.records[0];
    apply_network_jump(&mut store, 3);
    assert_eq!(store.records[0], before);
}

#[test]
fn local_inputs_drive_the_unowned_record() {
    let mut store = ReplicationStore::new();
    store.records.push(owned_record(None));
    apply_local_movement(&mut store, &PlayerMovementInput { movement: 500 });
    assert_eq!(store.records[0].velocity.x, 225_000);
    apply_local_jump(&mut store);
    assert_eq!(store.records[0].velocity.y, JUMP_VELOCITY);
    assert!(!store.records[0].grounded);
}

#[test]
fn input_for_unknown_owner_is_dropped_silently() {
    let mut store = ReplicationStore::new();
    store.records.push(owned_record(Some(1)));
    let before = store.records[0];
    apply_network_movement(&mut store, 2, &PlayerMovementInput { movement: 1000 });
    apply_network_jump(&mut store, 2);
    assert_eq!(store.records.len(), 1);
    assert_eq!(store.records[0], before);
}

#[test]
fn server_tick_applies_inputs_then_integrates() {
    let mut store = ReplicationStore::new();
    store.records.push(owned_record(Some(5)));
    let inbox = vec![
        QueuedInput { sender: 5, message: InputMessage::Movement(PlayerMovementInput { movement: 1000 }) },
    ];
    server_tick(&mut store, &inbox, 100);
    // The intent lands before the step, so the step already moves at
    // full speed: 45 pixels in a tenth of a second.
    assert_eq!(store.records[0].velocity.x, 450_000);
    assert_eq!(store.records[0].position.x, 45_000);
}

#[test]
fn drain_applies_messages_in_arrival_order() {
    let mut store = ReplicationStore::new();
    store.records.push(owned_record(Some(5)));
    let inbox = vec![
        QueuedInput { sender: 5, message: InputMessage::Movement(PlayerMovementInput { movement: 1000 }) },
        QueuedInput { sender: 5, message: InputMessage::Movement(PlayerMovementInput { movement: -1000 }) },
    ];
    drain_inputs(&mut store, &inbox);
    // The later message wins: arrival order was kept.
    assert_eq!(store.records[0].velocity.x, -450_000);
}
