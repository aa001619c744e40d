//! Core simulation for a small networked platformer.
//!
//! The library holds the deterministic pieces of the game: a fixed-step
//! physics integrator, the client connection state machine, the input
//! channel, the server's replication store and the player lifecycle.
//! All world quantities are fixed-point integers in thousandths of a
//! pixel (or of a pixel per second), so that a single-player run and a
//! server run of the same input sequence produce identical trajectories.

pub mod components;
pub mod connection;
pub mod fixed;
pub mod input;
pub mod physics;
pub mod protocol;
pub mod replication;
pub mod screens;
pub mod simulation;
pub mod spawning;

use vstd::prelude::*;

use crate::connection::ConnectionState;
use crate::input::InputController;
use crate::physics::{calculate_physics, stepped};
use crate::protocol::DT_LIMIT;
use crate::replication::ReplicationStore;
use crate::screens::{GameMode, GameScreen};
use crate::simulation::{apply_local_inputs, drain_local_spec, lemma_drain_local_preserves};

verus! {

/// Whether the game is paused; a paused game ticks nothing.
#[derive(Clone, Copy, PartialEq, Eq, Structural, Debug)]
pub struct Pause(pub bool);

/// Everything one running game instance carries: navigation, pause flag,
/// connection state, the input channel and the authoritative store.
/// Threading one explicit context through all subsystem calls replaces
/// ambient shared flags.
pub struct GameContext {
    pub screen: GameScreen,
    pub mode: GameMode,
    pub pause: Pause,
    pub connection: ConnectionState,
    pub input: InputController,
    pub store: ReplicationStore,
}

impl GameContext {
    /// A fresh game: every subsystem installed at its startup state.
    pub fn new() -> (ctx: GameContext)
        ensures
            ctx.screen == GameScreen::MainMenu,
            ctx.mode == GameMode::SinglePlayer,
            ctx.pause == Pause(false),
            ctx.connection == ConnectionState::Disconnected,
            ctx.input.local@.len() == 0,
            ctx.input.outgoing@.len() == 0,
            ctx.store@.len() == 0,
            ctx.store.wf(),
    {
        let mut ctx = GameContext {
            screen: GameScreen::MainMenu,
            mode: GameMode::SinglePlayer,
            pause: Pause(false),
            connection: ConnectionState::Disconnected,
            input: InputController::new(),
            store: ReplicationStore::new(),
        };
        crate::screens::plugin(&mut ctx);
        crate::connection::plugin(&mut ctx);
        crate::input::plugin(&mut ctx);
        crate::spawning::plugin(&mut ctx);
        ctx
    }

    /// One fixed-rate tick of the locally authoritative game: when
    /// unpaused and in single-player mode, drain the locally queued
    /// intents in arrival order, then integrate every record by one
    /// step. A paused game ticks nothing, and a multiplayer client runs
    /// no local physics: it only mirrors the server.
    pub fn tick(&mut self, dt: i64)
        requires
            0 < dt <= DT_LIMIT,
            old(self).store.wf(),
            forall|i: int| 0 <= i < old(self).store@.len() ==> old(self).store@[i].in_bounds(),
        ensures
            old(self).pause.0 || old(self).mode != GameMode::SinglePlayer ==> *final(self)
                == *old(self),
            !old(self).pause.0 && old(self).mode == GameMode::SinglePlayer ==> {
                &&& final(self).screen == old(self).screen
                &&& final(self).mode == old(self).mode
                &&& final(self).pause == old(self).pause
                &&& final(self).connection == old(self).connection
                &&& final(self).input.local@.len() == 0
                &&& final(self).input.outgoing@ == old(self).input.outgoing@
                &&& final(self).store@.len() == old(self).store@.len()
                &&& forall|i: int|
                    0 <= i < old(self).store@.len() ==> stepped(
                        drain_local_spec(old(self).store@, old(self).input.local@)[i],
                        #[trigger] final(self).store@[i],
                        dt as int,
                    )
                &&& forall|i: int|
                    0 <= i < old(self).store@.len() && old(self).store@[i].phys_wf()
                        ==> (#[trigger] final(self).store@[i]).phys_wf()
                &&& final(self).store.wf()
            },
    {
        if self.pause.0 {
            return ;
        }
        match self.mode {
            GameMode::Multiplayer => {
                return ;
            },
            GameMode::SinglePlayer => {},
        }
        proof {
            lemma_drain_local_preserves(self.store@, self.input.local@);
        }
        let msgs: Vec<crate::input::InputMessage> = self.input.drain_local();
        apply_local_inputs(&mut self.store, &msgs);
        calculate_physics(&mut self.store, dt);
    }
}

} // verus!
