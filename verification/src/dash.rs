//! The dash ability's animation state machine, layered on its own cooldown
//! timer: Idle, then Requested once a dash input arrives while the character
//! is moving, then Active while the animation plays, then Idle again. A
//! request made while the cooldown still runs stays standing, so the dash
//! starts the instant it becomes legal.
//!
//! The movement direction recorded when a dash starts, and the eased speed
//! interpolation while it plays, are kinematic quantities the engine-side
//! caller keeps next to this state; the decisions live here.

use vstd::prelude::*;

verus! {

/// State of the dash ability: the request flag, the playing animation and
/// its progress, and the cooldown timer between dash starts.
#[derive(Clone, Copy, Debug, PartialEq, Eq, Structural)]
pub struct CharacterDash {
    /// A dash input arrived while the character was moving; it stays
    /// standing until the dash can start, and is cleared only then.
    pub requested: bool,
    /// The dash animation is currently playing.
    pub started: bool,
    /// Ticks of the animation already played, never past `duration`.
    pub progress: u64,
    /// Tick of the most recent dash start.
    pub last_update: u64,
    /// Cooldown between dash starts, in ticks.
    pub cooldown: u64,
    /// Length of the dash animation, in ticks.
    pub duration: u64,
}

impl CharacterDash {
    /// The animation never plays past its duration.
    pub open spec fn wf(self) -> bool {
        self.progress <= self.duration
    }

    /// The state after a pending request is evaluated at tick `now`: the
    /// dash starts, and the request is consumed, exactly when the cooldown
    /// since the last start has elapsed; a request the cooldown still blocks
    /// is kept standing for a later evaluation, never dropped.
    pub open spec fn start_evaluated(self, now: u64) -> CharacterDash {
        if self.requested && !self.started && self.last_update + self.cooldown <= now {
            CharacterDash {
                requested: false,
                started: true,
                progress: 0,
                last_update: now,
                ..self
            }
        } else {
            self
        }
    }

    /// The state after the playing animation advances by `step` ticks:
    /// progress grows, capped at the duration, and the dash falls back to
    /// idle exactly when the full duration has played.
    pub open spec fn advanced(self, step: u64) -> CharacterDash {
        if self.started {
            if self.progress + step >= self.duration {
                CharacterDash { progress: self.duration, started: false, ..self }
            } else {
                CharacterDash { progress: (self.progress + step) as u64, ..self }
            }
        } else {
            self
        }
    }

    /// An idle dash with the given cooldown and animation duration; the
    /// cooldown starts running at tick 0.
    pub fn new(cooldown: u64, duration: u64) -> (d: CharacterDash)
        ensures
            d == (CharacterDash {
                requested: false,
                started: false,
                progress: 0,
                last_update: 0,
                cooldown,
                duration,
            }),
            d.wf(),
    {
        CharacterDash {
            requested: false,
            started: false,
            progress: 0,
            last_update: 0,
            cooldown,
            duration,
        }
    }

    /// Remember a dash input. The caller raises this only while the
    /// character is actually moving, so a stationary character cannot dash.
    pub fn set_requested(&mut self)
        ensures
            *final(self) == (CharacterDash { requested: true, ..*old(self) }),
    {
        self.requested = true;
    }

    /// Evaluate a pending request at tick `now` (see [`Self::start_evaluated`]).
    ///
    /// Returns true exactly when the dash starts this step; the caller then
    /// records the movement direction and replays the cosmetic trail effect.
    /// While the cooldown still blocks the start, nothing changes: the
    /// request stays standing and is honoured the instant it becomes legal.
    pub fn try_start(&mut self, now: u64) -> (started_now: bool)
        ensures
            *final(self) == old(self).start_evaluated(now),
            started_now == (old(self).requested && !old(self).started
                && old(self).last_update + old(self).cooldown <= now),
            old(self).wf() ==> final(self).wf(),
    {
        if self.requested && !self.started {
            if now >= self.last_update && now - self.last_update >= self.cooldown {
                self.requested = false;
                self.last_update = now;
                self.started = true;
                self.progress = 0;
                return true;
            }
        }

        false
    }

    /// Advance the playing animation by `step` ticks (see [`Self::advanced`]);
    /// idle when nothing is playing.
    pub fn advance(&mut self, step: u64)
        requires
            old(self).wf(),
        ensures
            *final(self) == old(self).advanced(step),
            final(self).wf(),
    {
        if self.started {
            if step >= self.duration - self.progress {
                self.progress = self.duration;
                self.started = false;
            } else {
                self.progress = self.progress + step;
            }
        }
    }
}

impl Default for CharacterDash {
    /// An idle dash with no cooldown and a zero-length animation.
    fn default() -> (d: CharacterDash)
        ensures
            d == (CharacterDash {
                requested: false,
                started: false,
                progress: 0,
                last_update: 0,
                cooldown: 0,
                duration: 0,
            }),
            d.wf(),
    {
        CharacterDash {
            requested: false,
            started: false,
            progress: 0,
            last_update: 0,
            cooldown: 0,
            duration: 0,
        }
    }
}

} // verus!
