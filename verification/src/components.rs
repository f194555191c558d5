//! Plain data components attached to game entities. The host engine stores
//! them; the systems in [`crate::level`] read and update them.

use vstd::prelude::*;

verus! {

/// Health points of an entity.
#[derive(Clone, Copy, Debug, PartialEq, Eq, Structural)]
pub struct Health(pub u32);

/// Marker for the player's game object.
#[derive(Clone, Copy, Debug, PartialEq, Eq, Structural)]
pub struct Player;

/// Marker for the player's shape, queried separately from its parent.
#[derive(Clone, Copy, Debug, PartialEq, Eq, Structural)]
pub struct PlayerMesh;

/// Marker for the enemy game objects.
#[derive(Clone, Copy, Debug, PartialEq, Eq, Structural)]
pub struct Enemy;

/// Marker for the player projectiles.
#[derive(Clone, Copy, Debug, PartialEq, Eq, Structural)]
pub struct ShotProjectile;

/// Marker for the boss health bar UI node.
#[derive(Clone, Copy, Debug, PartialEq, Eq, Structural)]
pub struct BossHealth;

/// Which procedurally built room an entity belongs to, used to scope
/// per-room logic.
#[derive(Clone, Copy, Debug, PartialEq, Eq, Structural)]
pub struct LevelLocation(pub u32);

} // verus!
