//! The client's connection lifecycle.
//!
//! A connection starts `Disconnected`, moves to `Connecting` when the
//! transport handshake is issued (or to `Error` when no transport could
//! even be built), and from there to `Connected` or back. There is no
//! automatic retry: re-entering `Connecting` takes a fresh user action.

use vstd::prelude::*;

use crate::GameContext;
use crate::protocol::PROTOCOL_ID;
use crate::screens::GameScreen;

verus! {

/// Current state of the connection to the server.
#[derive(Clone, Copy, PartialEq, Eq, Structural, Debug)]
pub enum ConnectionState {
    Disconnected,
    Connecting,
    Connected,
    Error,
}

/// The parameters a fresh transport handshake carries: the shared
/// protocol identifier and a client-generated random identity.
#[derive(Clone, Copy, PartialEq, Eq, Structural, Debug)]
pub struct ConnectRequest {
    pub client_id: u64,
    pub protocol_id: u64,
}

/// Relies on `uuid::Uuid::new_v4`: a randomly generated identifier, of
/// which nothing further is promised.
#[verifier::external_body]
fn generate_client_id() -> u64 {
    uuid::Uuid::new_v4().as_u64_pair().0
}

/// A handshake request for a new connection attempt, carrying the fixed
/// protocol identifier and a freshly drawn client identity.
pub fn new_connect_request() -> (r: ConnectRequest)
    ensures
        r.protocol_id == PROTOCOL_ID,
{
    ConnectRequest { client_id: generate_client_id(), protocol_id: PROTOCOL_ID }
}

/// Install the connection state machine at its initial state.
pub fn plugin(ctx: &mut GameContext)
    ensures
        final(ctx).connection == ConnectionState::Disconnected,
        final(ctx).screen == old(ctx).screen,
        final(ctx).mode == old(ctx).mode,
        final(ctx).pause == old(ctx).pause,
        final(ctx).input == old(ctx).input,
        final(ctx).store == old(ctx).store,
{
    ctx.connection = ConnectionState::Disconnected;
}

/// Record the outcome of building the transport: a built transport means
/// the handshake is under way; a transport that could not even be
/// constructed (for instance, a malformed server address) is an error
/// surfaced to the user.
pub fn setup_connection(state: &mut ConnectionState, transport_built: bool)
    ensures
        *final(state) == if transport_built {
            ConnectionState::Connecting
        } else {
            ConnectionState::Error
        },
{
    if transport_built {
        *state = ConnectionState::Connecting;
    } else {
        *state = ConnectionState::Error;
    }
}

/// Advance the connection state machine on the transport's signals, and
/// navigate accordingly: an established handshake enters the playing
/// view, a failed handshake returns to the menu, and a loss while
/// connected enters the distinct disconnected view.
pub fn monitor_connection(state: &mut ConnectionState, screen: &mut GameScreen, connected: bool,
    disconnected: bool)
    ensures
        *old(state) == ConnectionState::Connecting && connected ==> *final(state)
            == ConnectionState::Connected && *final(screen) == GameScreen::Playing,
        *old(state) == ConnectionState::Connecting && !connected && disconnected ==> *final(state)
            == ConnectionState::Disconnected && *final(screen) == GameScreen::MainMenu,
        *old(state) == ConnectionState::Connected && disconnected ==> *final(state)
            == ConnectionState::Disconnected && *final(screen) == GameScreen::Disconnected,
        !(*old(state) == ConnectionState::Connecting && (connected || disconnected))
            && !(*old(state) == ConnectionState::Connected && disconnected)
            ==> *final(state) == *old(state) && *final(screen) == *old(screen),
{
    match *state {
        ConnectionState::Connecting => {
            if connected {
                *state = ConnectionState::Connected;
                *screen = GameScreen::Playing;
            } else if disconnected {
                *state = ConnectionState::Disconnected;
                *screen = GameScreen::MainMenu;
            }
        },
        ConnectionState::Connected => {
            if disconnected {
                *state = ConnectionState::Disconnected;
                *screen = GameScreen::Disconnected;
            }
        },
        _ => {},
    }
}

} // verus!
