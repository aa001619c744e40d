//! Player lifecycle: connect, disconnect, and the races between them.

use platformer_core::input::{InputMessage, PlayerMovementInput, QueuedInput};
use platformer_core::protocol::GROUNDED_Y;
use platformer_core::replication::ReplicationStore;
use platformer_core::spawning::{SPAWN_SPREAD, SPAWN_Y, on_client_connect, on_client_disconnect,
    on_spawn_local_player};
use platformer_core::simulation::drain_inputs;

#[test]
fn connect_then_disconnect_leaves_no_records() {
    let mut store = ReplicationStore::new();
    on_client_connect(&mut store, 7);
    assert_eq!(store.records.len(), 1);
    on_client_disconnect(&mut store, 7);
    assert_eq!(store.records.len(), 0);
}

#[test]
fn n_distinct_clients_yield_n_owned_records() {
    let mut store = ReplicationStore::new();
    on_client_connect(&mut store, 1);
    on_client_connect(&mut store, 2);
    on_client_connect(&mut store, 3);
    assert_eq!(store.records.len(), 3);
    for id in [1u64, 2, 3] {
        assert!(store.find_index(Some(id)).is_some());
    }
    let owners: Vec<Option<u64>> = store.records.iter().map(|r| r.owner).collect();
    assert_eq!(owners, vec![Some(1), Some(2), Some(3)]);
}

#[test]
fn spawned_record_starts_airborne_at_rest() {
    let mut store = ReplicationStore::new();
    on_client_connect(&mut store, 11);
    let rec = store.records[0];
    assert_eq!(rec.position.y, SPAWN_Y);
    assert!(rec.position.y > GROUNDED_Y);
    assert!(rec.position.x >= -SPAWN_SPREAD && rec.position.x < SPAWN_SPREAD);
    assert_eq!(rec.velocity.x, 0);
    assert_eq!(rec.velocity.y, 0);
    assert!(!rec.grounded);
    assert_eq!(rec.owner, Some(11));
    // The hue was drawn below 360 degrees, so the canonical conversion
    // keeps every channel within full intensity and alpha full.
    assert!(rec.color.r <= 1000 && rec.color.g <= 1000 && rec.color.b <= 1000);
    assert_eq!(rec.color.a, 1000);
}

#[test]
fn local_spawn_is_unowned_and_centered() {
    let mut store = ReplicationStore::new();
    on_spawn_local_player(&mut store);
    assert_eq!(store.records.len(), 1);
    let rec = store.records[0];
    assert_eq!(rec.owner, None);
    assert_eq!(rec.position.x, 0);
    assert_eq!(rec.position.y, SPAWN_Y);
    assert!(!rec.grounded);
}

#[test]
fn disconnect_without_a_record_is_a_no_op() {
    let mut store = ReplicationStore::new();
    on_client_connect(&mut store, 1);
    on_client_disconnect(&mut store, 99);
    assert_eq!(store.records.len(), 1);
    assert_eq!(store.records[0].owner, Some(1));
}

#[test]
fn queued_input_after_disconnect_revives_nothing() {
    let mut store = ReplicationStore::new();
    on_client_connect(&mut store, 7);
    let inbox = vec![
        QueuedInput { sender: 7, message: InputMessage::Movement(PlayerMovementInput { movement: 1000 }) },
    ];
    on_client_disconnect(&mut store, 7);
    drain_inputs(&mut store, &inbox);
    assert_eq!(store.records.len(), 0);
    assert!(store.find_index(Some(7)).is_none());
}

#[test]
fn replicate_mirrors_the_whole_store() {
    let mut store = ReplicationStore::new();
    on_client_connect(&mut store, 1);
    on_client_connect(&mut store, 2);
    let mirror = store.replicate();
    assert_eq!(mirror.len(), 2);
    assert_eq!(mirror[0], store.records[0]);
    assert_eq!(mirror[1], store.records[1]);
}
