//! Screen navigation and mode selection.
//!
//! The game moves between a mode-selection menu, a connecting screen
//! (multiplayer only), the playing view and a distinct disconnected view,
//! driven by menu clicks and by the connection state machine.

use vstd::prelude::*;

use crate::GameContext;

verus! {

/// The game's screen states.
#[derive(Clone, Copy, PartialEq, Eq, Structural, Debug)]
pub enum GameScreen {
    /// Main menu: mode selection.
    MainMenu,
    /// Connecting to the game server (multiplayer only).
    Connecting,
    /// Main gameplay.
    Playing,
    /// Lost the server mid-session (multiplayer only); distinct from the
    /// menu so the player can be told what happened.
    Disconnected,
}

/// The selected game mode: whether physics runs locally or on the server.
#[derive(Clone, Copy, PartialEq, Eq, Structural, Debug)]
pub enum GameMode {
    SinglePlayer,
    Multiplayer,
}

/// Install the navigation states at their startup values: the main menu,
/// in single-player mode.
pub fn plugin(ctx: &mut GameContext)
    ensures
        final(ctx).screen == GameScreen::MainMenu,
        final(ctx).mode == GameMode::SinglePlayer,
        final(ctx).pause == old(ctx).pause,
        final(ctx).connection == old(ctx).connection,
        final(ctx).input == old(ctx).input,
        final(ctx).store == old(ctx).store,
{
    ctx.screen = GameScreen::MainMenu;
    ctx.mode = GameMode::SinglePlayer;
}

/// The single-player menu button: play locally, starting right away.
pub fn on_single_player_click(mode: &mut GameMode, screen: &mut GameScreen)
    ensures
        *final(mode) == GameMode::SinglePlayer,
        *final(screen) == GameScreen::Playing,
{
    *mode = GameMode::SinglePlayer;
    *screen = GameScreen::Playing;
}

/// The multiplayer menu button: connect to the server first.
pub fn on_multiplayer_click(mode: &mut GameMode, screen: &mut GameScreen)
    ensures
        *final(mode) == GameMode::Multiplayer,
        *final(screen) == GameScreen::Connecting,
{
    *mode = GameMode::Multiplayer;
    *screen = GameScreen::Connecting;
}

} // verus!
