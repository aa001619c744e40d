//! Player lifecycle: spawning and despawning records.
//!
//! The server spawns one record when a client connects and removes it
//! when that client disconnects; a single-player game spawns one unowned
//! record on request. A spawn draws a random hue for the player's color
//! and, in multiplayer, a random horizontal offset so players do not
//! stack; everything else about the fresh record is fixed.

use vstd::prelude::*;

use rand::Rng;

use crate::GameContext;
use crate::components::{PlayerRecord, Rgba, Vec2, hsl_to_rgba};
use crate::protocol::GROUNDED_Y;
use crate::replication::{ReplicationStore, find_by_owner, has_owner, lemma_find_from};

verus! {

/// Y-coordinate at which a fresh player appears: well above its resting
/// point, so it falls onto the ground.
pub const SPAWN_Y: i64 = GROUNDED_Y + 100_000;

/// Multiplayer spawns scatter this far, in thousandths of a pixel,
/// either side of the center.
pub const SPAWN_SPREAD: i64 = 200_000;

/// Saturation of every spawn color, in thousandths.
pub const SPAWN_SATURATION: u32 = 800;

/// Lightness of every spawn color, in thousandths.
pub const SPAWN_LIGHTNESS: u32 = 600;

/// Relies on rand's `Rng::random_range` over `0..360_000`: the draw lies
/// in the half-open range.
#[verifier::external_body]
fn random_hue() -> (h: u32)
    ensures
        h < 360_000,
{
    rand::rng().random_range(0u32..360_000u32)
}

/// Relies on rand's `Rng::random_range` over a half-open `i64` range:
/// the draw lies in it.
#[verifier::external_body]
fn random_spawn_x() -> (x: i64)
    ensures
        -SPAWN_SPREAD <= x < SPAWN_SPREAD,
{
    rand::rng().random_range(-200_000i64..200_000i64)
}

/// The record a spawn with owner `owner`, hue `hue` and horizontal
/// position `x` creates: at rest, airborne above the ground, colored by
/// the canonical HSL conversion at fixed saturation and lightness.
pub open spec fn spawn_record(owner: Option<u64>, hue: int, x: int) -> PlayerRecord {
    PlayerRecord {
        position: Vec2 { x: x as i64, y: SPAWN_Y },
        velocity: Vec2 { x: 0, y: 0 },
        grounded: false,
        color: hsl_to_rgba(hue, SPAWN_SATURATION as int, SPAWN_LIGHTNESS as int),
        owner,
    }
}

/// A fresh record for `owner` at horizontal position `x`, with a
/// randomly drawn hue.
fn spawn(owner: Option<u64>, x: i64) -> (r: PlayerRecord)
    requires
        -SPAWN_SPREAD <= x <= SPAWN_SPREAD,
    ensures
        exists|hue: int| 0 <= hue < 360_000 && r == spawn_record(owner, hue, x as int),
        r.owner == owner,
        r.phys_wf(),
        r.in_bounds(),
        r.color.wf(),
{
    let hue: u32 = random_hue();
    let color: Rgba = Rgba::from_hsl(hue, SPAWN_SATURATION, SPAWN_LIGHTNESS);
    let r = PlayerRecord {
        position: Vec2 { x, y: SPAWN_Y },
        velocity: Vec2::zero(),
        grounded: false,
        color,
        owner,
    };
    proof {
        assert(r == spawn_record(owner, hue as int, x as int));
    }
    r
}

/// Spawn the single local player (single-player mode): one unowned
/// record at the center, with a random color.
pub fn on_spawn_local_player(store: &mut ReplicationStore)
    requires
        old(store).wf(),
    ensures
        final(store)@.len() == old(store)@.len() + 1,
        exists|hue: int|
            0 <= hue < 360_000 && final(store)@ == old(store)@.push(spawn_record(None, hue, 0)),
        final(store).wf(),
{
    let rec: PlayerRecord = spawn(None, 0);
    store.records.push(rec);
    proof {
        let ghost hue = choose|h: int| 0 <= h < 360_000 && rec == spawn_record(None, h, 0);
        assert(final(store)@ == old(store)@.push(spawn_record(None, hue, 0)));
    }
}

/// A client connected: spawn the record it will own, scattered randomly
/// around the center. Connect and disconnect events for one identity
/// arrive strictly ordered, so the client owns no record yet.
pub fn on_client_connect(store: &mut ReplicationStore, client_id: u64)
    requires
        old(store).wf(),
        !has_owner(old(store)@, client_id),
    ensures
        final(store)@.len() == old(store)@.len() + 1,
        exists|hue: int, x: int|
            0 <= hue < 360_000 && -SPAWN_SPREAD <= x < SPAWN_SPREAD && final(store)@ == old(
                store,
            )@.push(spawn_record(Some(client_id), hue, x)),
        has_owner(final(store)@, client_id),
        final(store).wf(),
{
    let x: i64 = random_spawn_x();
    let rec: PlayerRecord = spawn(Some(client_id), x);
    store.records.push(rec);
    proof {
        let ghost hue = choose|h: int|
            0 <= h < 360_000 && rec == spawn_record(Some(client_id), h, x as int);
        assert(final(store)@ == old(store)@.push(spawn_record(Some(client_id), hue, x as int)));
        assert(final(store)@[old(store)@.len() as int].owner == Some(client_id));
    }
}

/// The store after client `id` disconnects: its record, if any, is
/// removed; with none (a disconnect racing a spawn) nothing changes.
pub open spec fn disconnect_spec(s: Seq<PlayerRecord>, id: u64) -> Seq<PlayerRecord> {
    let f = find_by_owner(s, Some(id));
    if f < 0 {
        s
    } else {
        s.remove(f)
    }
}

/// A client disconnected: remove the record it owned. Afterwards no
/// record with that owner exists, so an input still queued for it can
/// only be dropped.
pub fn on_client_disconnect(store: &mut ReplicationStore, client_id: u64)
    requires
        old(store).wf(),
    ensures
        final(store)@ == disconnect_spec(old(store)@, client_id),
        final(store).wf(),
        !has_owner(final(store)@, client_id),
        has_owner(old(store)@, client_id) ==> final(store)@.len() == old(store)@.len() - 1,
        !has_owner(old(store)@, client_id) ==> final(store)@ == old(store)@,
{
    let ghost s = old(store)@;
    let found: Option<usize> = store.find_index(Some(client_id));
    match found {
        None => {
            proof {
                assert(!has_owner(s, client_id));
            }
        },
        Some(i) => {
            let _removed: PlayerRecord = store.records.remove(i);
            proof {
                let d = final(store)@;
                assert(d == s.remove(i as int));
                assert forall|a: int| 0 <= a < d.len() implies d[a] == if a < i {
                    s[a]
                } else {
                    s[a + 1]
                } by {}
                assert forall|a: int, b: int|
                    0 <= a < b < d.len() && d[a].owner is Some implies d[a].owner != d[b].owner by {
                    let a0 = if a < i { a } else { a + 1 };
                    let b0 = if b < i { b } else { b + 1 };
                    assert(d[a] == s[a0] && d[b] == s[b0]);
                }
                assert forall|a: int| 0 <= a < d.len() implies d[a].owner != Some(client_id) by {
                    let a0 = if a < i { a } else { a + 1 };
                    assert(d[a] == s[a0]);
                    assert(s[i as int].owner == Some(client_id));
                }
                assert(has_owner(s, client_id));
            }
        },
    }
}

/// Connecting a fresh client and then disconnecting it restores the
/// store exactly: the lifecycle leaves no residue, whatever hue and
/// spawn position the connect drew.
pub proof fn lemma_connect_then_disconnect(s: Seq<PlayerRecord>, id: u64, hue: int, x: int)
    requires
        !has_owner(s, id),
    ensures
        disconnect_spec(s.push(spawn_record(Some(id), hue, x)), id) == s,
{
    let rec = spawn_record(Some(id), hue, x);
    let t = s.push(rec);
    lemma_find_from(t, Some(id), 0);
    let f = find_by_owner(t, Some(id));
    assert(t[s.len() as int].owner == Some(id));
    if f < s.len() {
        assert(t[f].owner == Some(id));
        assert(s[f] == t[f]);
        assert(has_owner(s, id));
    }
    assert(f == s.len());
    assert(t.remove(f) =~= s);
}

/// Install the lifecycle manager: the game starts with no player
/// records.
pub fn plugin(ctx: &mut GameContext)
    ensures
        final(ctx).store@.len() == 0,
        final(ctx).store.wf(),
        final(ctx).screen == old(ctx).screen,
        final(ctx).mode == old(ctx).mode,
        final(ctx).pause == old(ctx).pause,
        final(ctx).connection == old(ctx).connection,
        final(ctx).input == old(ctx).input,
{
    ctx.store = ReplicationStore::new();
}

} // verus!
