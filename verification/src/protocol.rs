//! Shared protocol and physics constants.
//!
//! Both sides of the network use the same values, so that the server and a
//! single-player client integrate identical trajectories. Distances are in
//! thousandths of a pixel, speeds in thousandths of a pixel per second, and
//! time deltas in milliseconds.

use vstd::prelude::*;

verus! {

/// Protocol version for netcode authentication; both sides must agree on it
/// before any game traffic flows.
pub const PROTOCOL_ID: u64 = 0x4B48414E48544E;

/// Default server port for transport connections.
pub const DEFAULT_PORT: u16 = 4433;

/// Maximum number of clients the server will accept.
pub const MAX_CLIENTS: usize = 64;

/// One whole unit (one pixel, one pixel per second, or a full-scale input)
/// in fixed-point representation.
pub const UNIT: i64 = 1000;

/// Y-coordinate of the ground plane.
pub const GROUND_LEVEL: i64 = -200_000;

/// Half the width of the playable area.
pub const GROUND_HALF_WIDTH: i64 = 640_000;

/// Half the player's collision-box width.
pub const PLAYER_HALF_WIDTH: i64 = 25_000;

/// Half the player's collision-box height.
pub const PLAYER_HALF_HEIGHT: i64 = 50_000;

/// Y-coordinate of a player's center while resting on the ground.
pub const GROUNDED_Y: i64 = GROUND_LEVEL + PLAYER_HALF_HEIGHT;

/// Largest horizontal coordinate a player's center may reach.
pub const MAX_X: i64 = GROUND_HALF_WIDTH - PLAYER_HALF_WIDTH;

/// Initial upward velocity when jumping.
pub const JUMP_VELOCITY: i64 = 300_000;

/// Acceleration due to gravity, in thousandths of a pixel per second squared.
pub const GRAVITY: i64 = 900_000;

/// Horizontal movement speed granted by a full-scale movement intent.
pub const MOVE_SPEED: i64 = 450_000;

/// Largest coordinate or velocity magnitude the integrator accepts; inputs
/// beyond it would overflow the fixed-point arithmetic.
pub const COORD_LIMIT: i64 = 1_000_000_000_000;

/// Longest time delta, in milliseconds, a single physics step accepts.
pub const DT_LIMIT: i64 = 60_000;

} // verus!
