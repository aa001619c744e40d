//! The client's input channel.
//!
//! Movement and jump intents are queued in the order the player produced
//! them. In single-player mode they are handed to the local authority in
//! the same tick; in multiplayer mode they go out over the ordered
//! reliable channel. Either way the queue keeps sender order: every
//! routing function appends exactly one message at the tail.

use vstd::prelude::*;

use crate::GameContext;
use crate::screens::GameMode;

verus! {

/// Movement intent: a normalized horizontal direction in thousandths of
/// full scale, so `1000` means full speed to the right. Values beyond
/// `[-1000, 1000]` may arrive over the wire; the authority clamps them
/// before scaling.
#[derive(Clone, Copy, PartialEq, Eq, Structural, Debug)]
pub struct PlayerMovementInput {
    pub movement: i64,
}

/// Jump intent; it carries no payload.
#[derive(Clone, Copy, PartialEq, Eq, Structural, Debug)]
pub struct PlayerJumpInput;

/// One queued input intent.
#[derive(Clone, Copy, PartialEq, Eq, Structural, Debug)]
pub enum InputMessage {
    Movement(PlayerMovementInput),
    Jump(PlayerJumpInput),
}

/// An input intent as the server receives it, tagged with the identity
/// of the connection that sent it.
#[derive(Clone, Copy, PartialEq, Eq, Structural, Debug)]
pub struct QueuedInput {
    pub sender: u64,
    pub message: InputMessage,
}

/// The client-side input channel: intents queued for the local authority
/// and intents queued for the network, each in sender order.
pub struct InputController {
    /// Intents to hand to the local simulation this tick (single-player).
    pub local: Vec<InputMessage>,
    /// Intents to serialize onto the ordered reliable channel
    /// (multiplayer).
    pub outgoing: Vec<InputMessage>,
}

impl InputController {
    /// A channel with nothing queued.
    pub fn new() -> (c: InputController)
        ensures
            c.local@ =~= Seq::<InputMessage>::empty(),
            c.outgoing@ =~= Seq::<InputMessage>::empty(),
    {
        InputController { local: Vec::new(), outgoing: Vec::new() }
    }

    /// Append `message` to the queue the current mode routes to; the
    /// other queue is untouched, and no queued message is lost or
    /// reordered.
    pub fn route(&mut self, mode: GameMode, message: InputMessage)
        ensures
            mode == GameMode::SinglePlayer ==> final(self).local@ == old(self).local@.push(message)
                && final(self).outgoing@ == old(self).outgoing@,
            mode == GameMode::Multiplayer ==> final(self).outgoing@
                == old(self).outgoing@.push(message) && final(self).local@ == old(self).local@,
    {
        match mode {
            GameMode::SinglePlayer => self.local.push(message),
            GameMode::Multiplayer => self.outgoing.push(message),
        }
    }

    /// A movement action fired: queue the current intent.
    pub fn on_movement_action(&mut self, mode: GameMode, movement: i64)
        ensures
            mode == GameMode::SinglePlayer ==> final(self).local@ == old(self).local@.push(
                InputMessage::Movement(PlayerMovementInput { movement }),
            ) && final(self).outgoing@ == old(self).outgoing@,
            mode == GameMode::Multiplayer ==> final(self).outgoing@ == old(self).outgoing@.push(
                InputMessage::Movement(PlayerMovementInput { movement }),
            ) && final(self).local@ == old(self).local@,
    {
        self.route(mode, InputMessage::Movement(PlayerMovementInput { movement }));
    }

    /// The movement action stopped (key released): queue a zero intent so
    /// the authority halts the player.
    pub fn on_movement_stop(&mut self, mode: GameMode)
        ensures
            mode == GameMode::SinglePlayer ==> final(self).local@ == old(self).local@.push(
                InputMessage::Movement(PlayerMovementInput { movement: 0 }),
            ) && final(self).outgoing@ == old(self).outgoing@,
            mode == GameMode::Multiplayer ==> final(self).outgoing@ == old(self).outgoing@.push(
                InputMessage::Movement(PlayerMovementInput { movement: 0 }),
            ) && final(self).local@ == old(self).local@,
    {
        self.route(mode, InputMessage::Movement(PlayerMovementInput { movement: 0 }));
    }

    /// A jump action started: queue a jump intent.
    pub fn on_jump_action(&mut self, mode: GameMode)
        ensures
            mode == GameMode::SinglePlayer ==> final(self).local@ == old(self).local@.push(
                InputMessage::Jump(PlayerJumpInput),
            ) && final(self).outgoing@ == old(self).outgoing@,
            mode == GameMode::Multiplayer ==> final(self).outgoing@ == old(self).outgoing@.push(
                InputMessage::Jump(PlayerJumpInput),
            ) && final(self).local@ == old(self).local@,
    {
        self.route(mode, InputMessage::Jump(PlayerJumpInput));
    }

    /// Take every locally queued intent, in order, leaving the local
    /// queue empty; the outgoing queue is untouched.
    pub fn drain_local(&mut self) -> (msgs: Vec<InputMessage>)
        ensures
            msgs@ == old(self).local@,
            final(self).local@ =~= Seq::<InputMessage>::empty(),
            final(self).outgoing@ == old(self).outgoing@,
    {
        let mut msgs: Vec<InputMessage> = Vec::new();
        let n: usize = self.local.len();
        let mut k: usize = 0;
        while k < n
            invariant
                k <= n,
                n == self.local@.len(),
                self.local@ == old(self).local@,
                self.outgoing@ == old(self).outgoing@,
                msgs@ =~= self.local@.subrange(0, k as int),
            decreases n - k,
        {
            msgs.push(self.local[k]);
            k = k + 1;
        }
        self.local.clear();
        assert(msgs@ =~= old(self).local@);
        msgs
    }

    /// Take every intent queued for the network, in order, leaving the
    /// outgoing queue empty; the local queue is untouched.
    pub fn take_outgoing(&mut self) -> (msgs: Vec<InputMessage>)
        ensures
            msgs@ == old(self).outgoing@,
            final(self).outgoing@ =~= Seq::<InputMessage>::empty(),
            final(self).local@ == old(self).local@,
    {
        let mut msgs: Vec<InputMessage> = Vec::new();
        let n: usize = self.outgoing.len();
        let mut k: usize = 0;
        while k < n
            invariant
                k <= n,
                n == self.outgoing@.len(),
                self.outgoing@ == old(self).outgoing@,
                self.local@ == old(self).local@,
                msgs@ =~= self.outgoing@.subrange(0, k as int),
            decreases n - k,
        {
            msgs.push(self.outgoing[k]);
            k = k + 1;
        }
        self.outgoing.clear();
        assert(msgs@ =~= old(self).outgoing@);
        msgs
    }
}

/// Install an empty input channel.
pub fn plugin(ctx: &mut GameContext)
    ensures
        final(ctx).input.local@ =~= Seq::<InputMessage>::empty(),
        final(ctx).input.outgoing@ =~= Seq::<InputMessage>::empty(),
        final(ctx).screen == old(ctx).screen,
        final(ctx).mode == old(ctx).mode,
        final(ctx).pause == old(ctx).pause,
        final(ctx).connection == old(ctx).connection,
        final(ctx).store == old(ctx).store,
{
    ctx.input = InputController::new();
}

} // verus!
