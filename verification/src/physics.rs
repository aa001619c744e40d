//! The deterministic fixed-step physics integrator.
//!
//! One step applies, in this exact order: gravity to the vertical
//! velocity, the velocity to the position, a horizontal clamp to the
//! playable area, and a ground collision that snaps the player onto the
//! ground plane. The step is a pure function of the incoming state and
//! the time delta; [`stepped`] pins every field of the outcome, so two
//! evaluations of the same state can never disagree.

use vstd::prelude::*;

use crate::components::{PlayerRecord, Vec2};
use crate::fixed::{clamp_i64, clamp_spec, lemma_scale_spec_bound, lemma_scale_spec_sign,
    scale_mul, scale_spec};
use crate::protocol::{COORD_LIMIT, DT_LIMIT, GRAVITY, GROUNDED_Y, MAX_X, UNIT};
use crate::replication::ReplicationStore;

verus! {

/// Vertical velocity after gravity has acted for `dt` milliseconds.
pub open spec fn step_velocity_y(vy: int, dt: int) -> int {
    vy - scale_spec(GRAVITY as int, dt)
}

/// Vertical position after the new vertical velocity has acted for `dt`
/// milliseconds, before ground collision.
pub open spec fn step_raw_y(py: int, vy: int, dt: int) -> int {
    py + scale_spec(step_velocity_y(vy, dt), dt)
}

/// Horizontal position after the horizontal velocity has acted for `dt`
/// milliseconds, before clamping.
pub open spec fn step_raw_x(px: int, vx: int, dt: int) -> int {
    px + scale_spec(vx, dt)
}

/// Whether the step ends with the player on the ground: the uncollided
/// vertical position would not stay above the ground plane.
pub open spec fn lands(py: int, vy: int, dt: int) -> bool {
    step_raw_y(py, vy, dt) <= GROUNDED_Y as int
}

/// `post` is exactly the state that one physics step of `dt` milliseconds
/// produces from `pre`. Every field of `post` is pinned, so the step is
/// deterministic: see [`lemma_step_deterministic`].
pub open spec fn stepped(pre: PlayerRecord, post: PlayerRecord, dt: int) -> bool {
    let px = pre.position.x as int;
    let py = pre.position.y as int;
    let vx = pre.velocity.x as int;
    let vy = pre.velocity.y as int;
    &&& post.position.x as int == clamp_spec(step_raw_x(px, vx, dt), -(MAX_X as int), MAX_X as int)
    &&& post.position.y as int == if lands(py, vy, dt) {
        GROUNDED_Y as int
    } else {
        step_raw_y(py, vy, dt)
    }
    &&& post.velocity.x == pre.velocity.x
    &&& post.velocity.y as int == if lands(py, vy, dt) {
        0
    } else {
        step_velocity_y(vy, dt)
    }
    &&& post.grounded == (pre.grounded || lands(py, vy, dt))
    &&& post.color == pre.color
    &&& post.owner == pre.owner
}

/// Advance one player record by one fixed time step of `dt` milliseconds.
///
/// The outcome is pinned by [`stepped`]; in addition the post-state always
/// rests on or above the ground inside the horizontal bounds, and a record
/// that satisfied the physical invariants still does.
pub fn step_record(rec: &mut PlayerRecord, dt: i64)
    requires
        old(rec).in_bounds(),
        0 < dt <= DT_LIMIT,
    ensures
        stepped(*old(rec), *final(rec), dt as int),
        final(rec).position.y >= GROUNDED_Y,
        -MAX_X <= final(rec).position.x <= MAX_X,
        old(rec).phys_wf() ==> final(rec).phys_wf(),
{
    proof {
        lemma_scale_spec_bound(GRAVITY as int, dt as int, GRAVITY as int, DT_LIMIT as int);
    }
    let fall: i64 = scale_mul(GRAVITY, dt);
    let vy: i64 = rec.velocity.y - fall;
    proof {
        lemma_scale_spec_bound(vy as int, dt as int,
            COORD_LIMIT as int + (GRAVITY as int) * (DT_LIMIT as int) / (UNIT as int),
            DT_LIMIT as int);
    }
    let dy: i64 = scale_mul(vy, dt);
    let py: i64 = rec.position.y + dy;
    proof {
        lemma_scale_spec_bound(rec.velocity.x as int, dt as int, COORD_LIMIT as int,
            DT_LIMIT as int);
    }
    let dx: i64 = scale_mul(rec.velocity.x, dt);
    let px: i64 = clamp_i64(rec.position.x + dx, -MAX_X, MAX_X);
    if py <= GROUNDED_Y {
        rec.position = Vec2 { x: px, y: GROUNDED_Y };
        rec.velocity = Vec2 { x: rec.velocity.x, y: 0 };
        rec.grounded = true;
    } else {
        rec.position = Vec2 { x: px, y: py };
        rec.velocity = Vec2 { x: rec.velocity.x, y: vy };
    }
    proof {
        lemma_stepped_in_play_area(*old(rec), *rec, dt as int);
        if old(rec).phys_wf() {
            lemma_stepped_preserves_wf(*old(rec), *rec, dt as int);
        }
    }
}

/// Bounds invariant: after any step, from any starting state, the player
/// rests on or above the ground plane and inside the playable area.
pub proof fn lemma_stepped_in_play_area(pre: PlayerRecord, post: PlayerRecord, dt: int)
    requires
        stepped(pre, post, dt),
    ensures
        post.position.y >= GROUNDED_Y,
        -MAX_X <= post.position.x <= MAX_X,
{
}

/// Ground invariant: a record that satisfies the physical invariants
/// still does after any step; in particular, whenever a post-step state
/// is grounded, its vertical velocity is zero and it sits exactly on the
/// ground.
pub proof fn lemma_stepped_preserves_wf(pre: PlayerRecord, post: PlayerRecord, dt: int)
    requires
        stepped(pre, post, dt),
        pre.phys_wf(),
        0 < dt,
    ensures
        post.phys_wf(),
{
    let py = pre.position.y as int;
    let vy = pre.velocity.y as int;
    if pre.grounded {
        // At rest on the ground, gravity can only pull the raw position
        // down, so the step lands again.
        lemma_scale_spec_sign(GRAVITY as int, dt);
        lemma_scale_spec_sign(step_velocity_y(vy, dt), dt);
        assert(lands(py, vy, dt));
    }
}

/// Advance every record in the store by one fixed time step of `dt`
/// milliseconds. Each record steps independently, exactly as
/// [`step_record`] does; owners and colors are untouched, so the store
/// stays well formed.
pub fn calculate_physics(store: &mut ReplicationStore, dt: i64)
    requires
        0 < dt <= DT_LIMIT,
        forall|i: int| 0 <= i < old(store)@.len() ==> old(store)@[i].in_bounds(),
    ensures
        final(store)@.len() == old(store)@.len(),
        forall|i: int|
            0 <= i < old(store)@.len() ==> stepped(old(store)@[i], #[trigger] final(store)@[i],
                dt as int),
        forall|i: int|
            0 <= i < old(store)@.len() ==> (#[trigger] final(store)@[i]).position.y >= GROUNDED_Y
                && -MAX_X <= final(store)@[i].position.x <= MAX_X,
        forall|i: int|
            0 <= i < old(store)@.len() && old(store)@[i].phys_wf()
                ==> (#[trigger] final(store)@[i]).phys_wf(),
        old(store).wf() ==> final(store).wf(),
{
    let n: usize = store.records.len();
    let mut k: usize = 0;
    while k < n
        invariant
            k <= n,
            n == store@.len(),
            old(store)@.len() == n,
            0 < dt <= DT_LIMIT,
            forall|i: int| 0 <= i < n ==> old(store)@[i].in_bounds(),
            forall|i: int| k <= i < n ==> store@[i] == old(store)@[i],
            forall|i: int|
                0 <= i < k ==> stepped(old(store)@[i], #[trigger] store@[i], dt as int),
            forall|i: int|
                0 <= i < k ==> (#[trigger] store@[i]).position.y >= GROUNDED_Y
                    && -MAX_X <= store@[i].position.x <= MAX_X,
            forall|i: int|
                0 <= i < k && old(store)@[i].phys_wf() ==> (#[trigger] store@[i]).phys_wf(),
        decreases n - k,
    {
        let mut rec: PlayerRecord = store.records[k];
        step_record(&mut rec, dt);
        store.records.set(k, rec);
        k = k + 1;
    }
    proof {
        if old(store).wf() {
            assert forall|i: int, j: int|
                0 <= i < j < final(store)@.len() && final(store)@[i].owner is Some
                implies final(store)@[i].owner != final(store)@[j].owner by {
                assert(final(store)@[i].owner == old(store)@[i].owner);
                assert(final(store)@[j].owner == old(store)@[j].owner);
            }
        }
    }
}

/// Determinism of the step: a state pinned by [`stepped`] is unique, so
/// two independent evaluations of the step on equal inputs produce
/// identical results.
pub proof fn lemma_step_deterministic(pre: PlayerRecord, post1: PlayerRecord, post2: PlayerRecord,
    dt: int)
    requires
        stepped(pre, post1, dt),
        stepped(pre, post2, dt),
    ensures
        post1 == post2,
{
    assert(post1.position.x == post2.position.x);
    assert(post1.position.y == post2.position.y);
    assert(post1.velocity.y == post2.velocity.y);
}

} // verus!
