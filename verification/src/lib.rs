//! Gameplay-state library for a small third-person action game.
//!
//! The game itself — rendering, physics, camera smoothing, menus — is driven
//! by a host engine; this crate holds the state machines the engine's systems
//! consult each frame, stated and proved over plain values:
//!
//! - [`ability::AttackController`]: the cooldown/grace-window latch that decides
//!   how often an ability may fire, with a request/consume protocol;
//! - [`dash::CharacterDash`]: the dash animation state machine layered on its
//!   own cooldown timer;
//! - [`level`]: the per-frame pass over enemies and projectile contacts that
//!   applies damage and advances the current level.
//!
//! Time is measured in ticks (the engine's frame clock supplies the current
//! tick each step); callers choose the unit, and the tests use milliseconds.

pub mod ability;
pub mod components;
pub mod dash;
pub mod level;
