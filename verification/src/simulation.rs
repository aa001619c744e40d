//! Applying input intents to the authoritative store.
//!
//! The authority owns the move-speed multiplication: a movement intent is
//! clamped to `[-1000, 1000]` and only then scaled, so an out-of-range
//! value can never push a player past the designed speed envelope. A jump
//! fires only on a grounded record; anything else is a no-op, never an
//! error. A message whose sender owns no record is dropped silently.
//!
//! Each tick drains the queued intents in arrival order and only then
//! integrates, making the apply-then-integrate ordering an explicit step.

use vstd::prelude::*;

use crate::components::PlayerRecord;
use crate::components::Vec2;
use crate::fixed::{clamp_i64, clamp_spec, scale_mul, scale_spec};
use crate::input::{InputMessage, PlayerJumpInput, PlayerMovementInput, QueuedInput};
use crate::physics::{calculate_physics, stepped};
use crate::protocol::{DT_LIMIT, GROUNDED_Y, JUMP_VELOCITY, MAX_X, MOVE_SPEED, UNIT};
use crate::replication::{ReplicationStore, distinct_owners, find_by_owner, has_owner,
    lemma_find_from};

verus! {

/// The horizontal velocity a movement intent `m` produces: the intent is
/// clamped to one full unit either way, then scaled by the move speed.
pub open spec fn movement_velocity(m: int) -> int {
    scale_spec(clamp_spec(m, -(UNIT as int), UNIT as int), MOVE_SPEED as int)
}

/// The clamp-then-scale rule in closed form: the produced velocity is
/// exactly 450 thousandths of a pixel per second per thousandth of
/// intent, and never exceeds the move speed in magnitude.
pub proof fn lemma_movement_velocity_exact(m: int)
    ensures
        movement_velocity(m) == clamp_spec(m, -(UNIT as int), UNIT as int) * 450,
        -MOVE_SPEED <= movement_velocity(m) <= MOVE_SPEED,
{
    let c = clamp_spec(m, -(UNIT as int), UNIT as int);
    assert(c * (MOVE_SPEED as int) == (UNIT as int) * (c * 450)) by (nonlinear_arith);
    if c >= 0 {
        assert(c * (MOVE_SPEED as int) >= 0) by (nonlinear_arith)
            requires
                c >= 0,
        ;
        vstd::arithmetic::div_mod::lemma_div_multiples_vanish(c * 450, UNIT as int);
    } else {
        assert(c * (MOVE_SPEED as int) < 0) by (nonlinear_arith)
            requires
                c < 0,
        ;
        assert(-(c * (MOVE_SPEED as int)) == (UNIT as int) * (-(c * 450))) by (nonlinear_arith);
        vstd::arithmetic::div_mod::lemma_div_multiples_vanish(-(c * 450), UNIT as int);
    }
    assert(-450_000 <= c * 450 <= 450_000) by (nonlinear_arith)
        requires
            -1000 <= c <= 1000,
    ;
}

/// A record after a movement intent `m`: only the horizontal velocity
/// changes, to [`movement_velocity`] of the intent.
pub open spec fn apply_movement_spec(r: PlayerRecord, m: int) -> PlayerRecord {
    PlayerRecord { velocity: Vec2 { x: movement_velocity(m) as i64, y: r.velocity.y }, ..r }
}

/// A record after a jump intent: a grounded record leaves the ground
/// with the jump velocity; an airborne one is untouched.
pub open spec fn apply_jump_spec(r: PlayerRecord) -> PlayerRecord {
    if r.grounded {
        PlayerRecord {
            velocity: Vec2 { x: r.velocity.x, y: JUMP_VELOCITY },
            grounded: false,
            ..r
        }
    } else {
        r
    }
}

/// Jump gating: a jump on an airborne record changes nothing at all,
/// and a jump on a grounded record sets exactly the jump velocity and
/// clears the grounded flag, leaving position and horizontal velocity
/// alone.
pub proof fn lemma_jump_gating(r: PlayerRecord)
    ensures
        !r.grounded ==> apply_jump_spec(r) == r,
        r.grounded ==> apply_jump_spec(r).velocity.y == JUMP_VELOCITY && !apply_jump_spec(
            r,
        ).grounded && apply_jump_spec(r).velocity.x == r.velocity.x && apply_jump_spec(r).position
            == r.position,
{
}

/// A record after one input message.
pub open spec fn apply_message_to(r: PlayerRecord, message: InputMessage) -> PlayerRecord {
    match message {
        InputMessage::Movement(mv) => apply_movement_spec(r, mv.movement as int),
        InputMessage::Jump(_) => apply_jump_spec(r),
    }
}

/// The store after delivering `message` to the record owned by `who`:
/// the first such record takes the message; with no such record the
/// message is dropped silently.
pub open spec fn apply_targeted_spec(s: Seq<PlayerRecord>, who: Option<u64>,
    message: InputMessage) -> Seq<PlayerRecord> {
    let f = find_by_owner(s, who);
    if f < 0 {
        s
    } else {
        s.update(f, apply_message_to(s[f], message))
    }
}

/// The store after draining a queue of client-tagged intents in arrival
/// order.
pub open spec fn drain_spec(s: Seq<PlayerRecord>, q: Seq<QueuedInput>) -> Seq<PlayerRecord>
    decreases q.len(),
{
    if q.len() == 0 {
        s
    } else {
        drain_spec(apply_queued_spec(s, q[0]), q.drop_first())
    }
}

/// The store after one client-tagged intent.
pub open spec fn apply_queued_spec(s: Seq<PlayerRecord>, q: QueuedInput) -> Seq<PlayerRecord> {
    apply_targeted_spec(s, Some(q.sender), q.message)
}

/// The store after draining the local (unowned) input queue in order.
pub open spec fn drain_local_spec(s: Seq<PlayerRecord>, q: Seq<InputMessage>) -> Seq<
    PlayerRecord,
>
    decreases q.len(),
{
    if q.len() == 0 {
        s
    } else {
        drain_local_spec(apply_targeted_spec(s, None, q[0]), q.drop_first())
    }
}

/// Deliver one message to the record owned by `who`, exactly as
/// [`apply_targeted_spec`] states.
fn apply_message(store: &mut ReplicationStore, who: Option<u64>, message: InputMessage)
    ensures
        final(store)@ == apply_targeted_spec(old(store)@, who, message),
{
    let found: Option<usize> = store.find_index(who);
    match found {
        None => {},
        Some(i) => {
            let mut rec: PlayerRecord = store.records[i];
            match message {
                InputMessage::Movement(mv) => {
                    let clamped: i64 = clamp_i64(mv.movement, -UNIT, UNIT);
                    proof {
                        lemma_movement_velocity_exact(mv.movement as int);
                    }
                    let vx: i64 = scale_mul(clamped, MOVE_SPEED);
                    rec.velocity = Vec2 { x: vx, y: rec.velocity.y };
                },
                InputMessage::Jump(_) => {
                    if rec.grounded {
                        rec.velocity = Vec2 { x: rec.velocity.x, y: JUMP_VELOCITY };
                        rec.grounded = false;
                    }
                },
            }
            store.records.set(i, rec);
        },
    }
}

/// Apply a movement intent to the local (unowned) player record, if one
/// exists.
pub fn apply_local_movement(store: &mut ReplicationStore, input: &PlayerMovementInput)
    ensures
        final(store)@ == apply_targeted_spec(old(store)@, None, InputMessage::Movement(*input)),
{
    apply_message(store, None, InputMessage::Movement(*input));
}

/// Apply a jump intent to the local (unowned) player record, if one
/// exists.
pub fn apply_local_jump(store: &mut ReplicationStore)
    ensures
        final(store)@ == apply_targeted_spec(old(store)@, None,
            InputMessage::Jump(PlayerJumpInput)),
{
    apply_message(store, None, InputMessage::Jump(PlayerJumpInput));
}

/// Apply a client's movement intent to the record it owns; with no such
/// record (a lifecycle race) the intent is dropped silently.
pub fn apply_network_movement(store: &mut ReplicationStore, client_id: u64,
    input: &PlayerMovementInput)
    ensures
        final(store)@ == apply_targeted_spec(old(store)@, Some(client_id),
            InputMessage::Movement(*input)),
{
    apply_message(store, Some(client_id), InputMessage::Movement(*input));
}

/// Apply a client's jump intent to the record it owns; with no such
/// record the intent is dropped silently.
pub fn apply_network_jump(store: &mut ReplicationStore, client_id: u64)
    ensures
        final(store)@ == apply_targeted_spec(old(store)@, Some(client_id),
            InputMessage::Jump(PlayerJumpInput)),
{
    apply_message(store, Some(client_id), InputMessage::Jump(PlayerJumpInput));
}

/// An intent whose sender owns no record changes nothing: a message
/// still queued for a client that has disconnected is discarded, never
/// applied to a removed or foreign record.
pub proof fn lemma_stale_input_dropped(s: Seq<PlayerRecord>, id: u64, message: InputMessage)
    requires
        !has_owner(s, id),
    ensures
        apply_targeted_spec(s, Some(id), message) == s,
{
    lemma_find_from(s, Some(id), 0);
    let f = find_by_owner(s, Some(id));
    if f >= 0 {
        assert(s[f].owner == Some(id));
    }
}

/// Delivering a message never creates or removes records, never moves
/// one, never reassigns an owner or a color, and keeps every record
/// inside the integrator's bounds and physical invariants.
pub proof fn lemma_apply_preserves(s: Seq<PlayerRecord>, who: Option<u64>, message: InputMessage)
    ensures
        ({
            let d = apply_targeted_spec(s, who, message);
            &&& d.len() == s.len()
            &&& forall|i: int|
                0 <= i < s.len() ==> (#[trigger] d[i]).owner == s[i].owner && d[i].position
                    == s[i].position && d[i].color == s[i].color
            &&& forall|i: int| 0 <= i < s.len() && s[i].in_bounds() ==> (#[trigger] d[i]).in_bounds()
            &&& forall|i: int| 0 <= i < s.len() && s[i].phys_wf() ==> (#[trigger] d[i]).phys_wf()
        }),
{
    crate::replication::lemma_find_from(s, who, 0);
    match message {
        InputMessage::Movement(mv) => lemma_movement_velocity_exact(mv.movement as int),
        InputMessage::Jump(_) => {},
    }
    let d = apply_targeted_spec(s, who, message);
    let f = find_by_owner(s, who);
    if f >= 0 {
        assert forall|i: int| 0 <= i < s.len() && s[i].in_bounds() implies (#[trigger] d[i]).in_bounds() by {
            if i == f {
                assert(d[i] == apply_message_to(s[f], message));
            }
        }
        assert forall|i: int| 0 <= i < s.len() && s[i].phys_wf() implies (#[trigger] d[i]).phys_wf() by {
            if i == f {
                assert(d[i] == apply_message_to(s[f], message));
            }
        }
    }
}

/// Draining a queue preserves everything [`lemma_apply_preserves`] lists,
/// and distinctness of owners with it.
pub proof fn lemma_drain_preserves(s: Seq<PlayerRecord>, q: Seq<QueuedInput>)
    ensures
        ({
            let d = drain_spec(s, q);
            &&& d.len() == s.len()
            &&& forall|i: int|
                0 <= i < s.len() ==> (#[trigger] d[i]).owner == s[i].owner && d[i].position
                    == s[i].position && d[i].color == s[i].color
            &&& forall|i: int| 0 <= i < s.len() && s[i].in_bounds() ==> (#[trigger] d[i]).in_bounds()
            &&& forall|i: int| 0 <= i < s.len() && s[i].phys_wf() ==> (#[trigger] d[i]).phys_wf()
            &&& distinct_owners(s) ==> distinct_owners(d)
        }),
    decreases q.len(),
{
    if q.len() > 0 {
        lemma_apply_preserves(s, Some(q[0].sender), q[0].message);
        lemma_drain_preserves(apply_queued_spec(s, q[0]), q.drop_first());
    }
}

/// Draining the local queue preserves the same properties.
pub proof fn lemma_drain_local_preserves(s: Seq<PlayerRecord>, q: Seq<InputMessage>)
    ensures
        ({
            let d = drain_local_spec(s, q);
            &&& d.len() == s.len()
            &&& forall|i: int|
                0 <= i < s.len() ==> (#[trigger] d[i]).owner == s[i].owner && d[i].position
                    == s[i].position && d[i].color == s[i].color
            &&& forall|i: int| 0 <= i < s.len() && s[i].in_bounds() ==> (#[trigger] d[i]).in_bounds()
            &&& forall|i: int| 0 <= i < s.len() && s[i].phys_wf() ==> (#[trigger] d[i]).phys_wf()
            &&& distinct_owners(s) ==> distinct_owners(d)
        }),
    decreases q.len(),
{
    if q.len() > 0 {
        lemma_apply_preserves(s, None, q[0]);
        lemma_drain_local_preserves(apply_targeted_spec(s, None, q[0]), q.drop_first());
    }
}

/// Deliver every queued client intent to the store, in arrival order.
pub fn drain_inputs(store: &mut ReplicationStore, inbox: &Vec<QueuedInput>)
    ensures
        final(store)@ == drain_spec(old(store)@, inbox@),
{
    proof {
        assert(inbox@.skip(0) =~= inbox@);
    }
    let n: usize = inbox.len();
    let mut k: usize = 0;
    while k < n
        invariant
            k <= n,
            n == inbox@.len(),
            drain_spec(old(store)@, inbox@) == drain_spec(store@, inbox@.skip(k as int)),
        decreases n - k,
    {
        let q: QueuedInput = inbox[k];
        proof {
            assert(inbox@.skip(k as int).drop_first() =~= inbox@.skip(k as int + 1));
            assert(inbox@.skip(k as int)[0] == inbox@[k as int]);
        }
        apply_message(store, Some(q.sender), q.message);
        k = k + 1;
    }
    proof {
        assert(inbox@.skip(n as int) =~= Seq::<QueuedInput>::empty());
    }
}

/// Deliver every locally queued intent to the store, in order.
pub fn apply_local_inputs(store: &mut ReplicationStore, inputs: &Vec<InputMessage>)
    ensures
        final(store)@ == drain_local_spec(old(store)@, inputs@),
{
    proof {
        assert(inputs@.skip(0) =~= inputs@);
    }
    let n: usize = inputs.len();
    let mut k: usize = 0;
    while k < n
        invariant
            k <= n,
            n == inputs@.len(),
            drain_local_spec(old(store)@, inputs@) == drain_local_spec(store@,
                inputs@.skip(k as int)),
        decreases n - k,
    {
        let q: InputMessage = inputs[k];
        proof {
            assert(inputs@.skip(k as int).drop_first() =~= inputs@.skip(k as int + 1));
            assert(inputs@.skip(k as int)[0] == inputs@[k as int]);
        }
        apply_message(store, None, q);
        k = k + 1;
    }
    proof {
        assert(inputs@.skip(n as int) =~= Seq::<InputMessage>::empty());
    }
}

/// One authoritative server tick: drain the inbox in arrival order, then
/// integrate every record by one fixed step. The post-state is pinned:
/// each record is exactly one physics step of the drained state.
pub fn server_tick(store: &mut ReplicationStore, inbox: &Vec<QueuedInput>, dt: i64)
    requires
        old(store).wf(),
        0 < dt <= DT_LIMIT,
        forall|i: int| 0 <= i < old(store)@.len() ==> old(store)@[i].in_bounds(),
    ensures
        final(store)@.len() == old(store)@.len(),
        ({
            let mid = drain_spec(old(store)@, inbox@);
            forall|i: int|
                0 <= i < mid.len() ==> stepped(mid[i], #[trigger] final(store)@[i], dt as int)
        }),
        forall|i: int|
            0 <= i < final(store)@.len() ==> (#[trigger] final(store)@[i]).position.y
                >= GROUNDED_Y && -MAX_X <= final(store)@[i].position.x <= MAX_X,
        forall|i: int|
            0 <= i < old(store)@.len() && old(store)@[i].phys_wf()
                ==> (#[trigger] final(store)@[i]).phys_wf(),
        final(store).wf(),
{
    proof {
        lemma_drain_preserves(old(store)@, inbox@);
    }
    drain_inputs(store, inbox);
    calculate_physics(store, dt);
}

} // verus!
