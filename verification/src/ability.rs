//! The ability cooldown controller: limits how often an ability (the ranged
//! attack) may fire, while remembering a request issued slightly before the
//! cooldown expires so the ability fires exactly once as soon as it is legal.

use vstd::prelude::*;

verus! {

/// Cooldown/grace-window latch for one activatable ability.
///
/// The controller tracks the tick of the most recent successful activation.
/// A request made once the cooldown has elapsed marks the ability `ready`;
/// a request made inside the grace window (the last `grace_num / grace_den`
/// of the cooldown) is remembered as `pending` instead of being dropped, so
/// the caller can keep re-requesting and the ability fires the instant the
/// cooldown clears.
#[derive(Clone, Copy, Debug, PartialEq, Eq, Structural)]
pub struct AttackController {
    /// True once the cooldown has elapsed and the attack may fire this step.
    pub ready: bool,
    /// True if a request arrived inside the grace window before `ready`
    /// became true; honoured by re-requesting once the cooldown clears.
    pub pending: bool,
    /// Tick of the most recent successful activation.
    pub last_activation: u64,
    /// Cooldown length in ticks, fixed per ability instance.
    pub cooldown: u64,
    /// Numerator of the grace fraction (the slice of the cooldown, counted
    /// backward from expiry, during which an early request is remembered).
    pub grace_num: u64,
    /// Denominator of the grace fraction.
    pub grace_den: u64,
}

/// The product of two 64-bit values fits in 128 bits.
proof fn lemma_mul_u64_fits_u128(a: u64, b: u64)
    ensures
        (a as int) * (b as int) <= u128::MAX,
{
    assert((a as int) * (b as int) <= (u64::MAX as int) * (u64::MAX as int)) by (nonlinear_arith)
        requires
            a <= u64::MAX,
            b <= u64::MAX,
    ;
}

impl AttackController {
    /// The grace fraction is a well-formed fraction in `[0, 1]`.
    pub open spec fn grace_wf(self) -> bool {
        1 <= self.grace_den && self.grace_num <= self.grace_den
    }

    /// `elapsed` ticks since the last activation have reached the grace
    /// window, i.e. `elapsed >= cooldown * (1 - grace_num / grace_den)`,
    /// stated without division.
    pub open spec fn in_grace_window(self, elapsed: int) -> bool {
        elapsed * self.grace_den >= self.cooldown * (self.grace_den - self.grace_num)
    }

    /// The state after a request at tick `now`: a no-op if already `ready`
    /// or if `now` is not strictly after the last activation; `ready` once
    /// the cooldown has elapsed; `pending` on the first request inside the
    /// grace window; otherwise dropped.
    pub open spec fn requested(self, now: u64) -> AttackController {
        if self.ready || now <= self.last_activation {
            self
        } else if now - self.last_activation >= self.cooldown {
            AttackController { ready: true, ..self }
        } else if !self.pending && self.in_grace_window(now - self.last_activation) {
            AttackController { pending: true, ..self }
        } else {
            self
        }
    }

    /// The state after a consume at tick `now`: when `ready`, the whole latch
    /// resets atomically (`ready` and `pending` cleared, `last_activation`
    /// set to `now`); otherwise nothing changes.
    pub open spec fn consumed(self, now: u64) -> AttackController {
        if self.ready {
            AttackController { ready: false, pending: false, last_activation: now, ..self }
        } else {
            self
        }
    }

    /// A fresh controller with the given cooldown and the default grace
    /// fraction of one quarter.
    ///
    /// The controller's tick clock starts at construction: `last_activation`
    /// is 0, as if the ability had just fired, so the first activation also
    /// waits out the full cooldown. Callers must measure the ticks they hand
    /// to [`Self::request_attack`] and [`Self::consume_attack`] from the
    /// moment the controller was built (or treat tick 0 as that moment);
    /// ticks from an earlier epoch would make the ability ready at once.
    pub fn new(cooldown: u64) -> (c: AttackController)
        ensures
            c == (AttackController {
                ready: false,
                pending: false,
                last_activation: 0,
                cooldown,
                grace_num: 1,
                grace_den: 4,
            }),
            c.grace_wf(),
    {
        AttackController {
            ready: false,
            pending: false,
            last_activation: 0,
            cooldown,
            grace_num: 1,
            grace_den: 4,
        }
    }

    /// Whether a request is being remembered from the grace window; the
    /// calling system uses this to keep re-issuing requests even without
    /// fresh input.
    pub fn is_future_requested(&self) -> (pending: bool)
        ensures
            pending == self.pending,
    {
        self.pending
    }

    /// Evaluate an activation request at tick `now`.
    ///
    /// Every input is handled by a defined transition (see [`Self::requested`]):
    /// an already-`ready` latch and a non-monotonic clock are no-ops, a request
    /// past the cooldown marks the latch `ready`, the first request inside the
    /// grace window marks it `pending`, and an earlier request is dropped.
    pub fn request_attack(&mut self, now: u64)
        requires
            old(self).grace_wf(),
        ensures
            *final(self) == old(self).requested(now),
    {
        if self.ready || now <= self.last_activation {
            return;
        }

        let elapsed: u64 = now - self.last_activation;

        if elapsed >= self.cooldown {
            self.ready = true;
        } else if !self.pending {
            proof {
                lemma_mul_u64_fits_u128(elapsed, self.grace_den);
                lemma_mul_u64_fits_u128(self.cooldown, (self.grace_den - self.grace_num) as u64);
            }
            let lhs: u128 = (elapsed as u128) * (self.grace_den as u128);
            let rhs: u128 = (self.cooldown as u128) * ((self.grace_den - self.grace_num) as u128);
            if lhs >= rhs {
                self.pending = true;
            }
        }
    }

    /// Fire the ability if the latch is ready.
    ///
    /// Returns true iff `ready` was true immediately before the call; in that
    /// case `ready`, `pending` and `last_activation` reset atomically as one
    /// transition, with `last_activation` set to `now`. Otherwise the state
    /// is unchanged and the attack simply is not available yet.
    pub fn consume_attack(&mut self, now: u64) -> (fired: bool)
        ensures
            fired == old(self).ready,
            *final(self) == old(self).consumed(now),
    {
        if self.ready {
            self.reset(now);
            return true;
        }

        false
    }

    /// Clear the latch and restart the cooldown clock at tick `now`.
    fn reset(&mut self, now: u64)
        ensures
            *final(self) == (AttackController {
                ready: false,
                pending: false,
                last_activation: now,
                ..*old(self)
            }),
    {
        self.ready = false;
        self.pending = false;
        self.last_activation = now;
    }
}

/// A request issued strictly before the grace window opens is dropped: when
/// the latch is idle (neither ready nor pending) and
/// `(now - last_activation) * grace_den < cooldown * (grace_den - grace_num)`,
/// the request changes nothing, so `ready` and `pending` stay false.
pub proof fn lemma_request_too_early_is_dropped(s: AttackController, now: u64)
    requires
        s.grace_wf(),
        !s.ready,
        !s.pending,
        (now - s.last_activation) * s.grace_den < s.cooldown * (s.grace_den - s.grace_num),
    ensures
        s.requested(now) == s,
{
    if now > s.last_activation {
        let elapsed = now - s.last_activation;
        assert(s.cooldown * (s.grace_den - s.grace_num) <= s.cooldown * s.grace_den)
            by (nonlinear_arith)
            requires
                s.grace_num <= s.grace_den,
                s.cooldown >= 0,
        ;
        assert(elapsed < s.cooldown) by (nonlinear_arith)
            requires
                elapsed * s.grace_den < s.cooldown * s.grace_den,
                s.grace_den >= 1,
        ;
    }
}

/// Inside the grace window but before expiry, the first request marks the
/// latch pending while `ready` stays false.
///
/// The strict `now > last_activation` premise matters only for a grace
/// fraction of exactly one, where the window condition already holds at the
/// activation instant itself but the monotonicity guard makes that request a
/// no-op; for any fraction below one the other premises imply it.
pub proof fn lemma_request_in_grace_window_sets_pending(s: AttackController, now: u64)
    requires
        s.grace_wf(),
        !s.ready,
        !s.pending,
        now > s.last_activation,
        s.in_grace_window(now - s.last_activation),
        now - s.last_activation < s.cooldown,
    ensures
        s.requested(now) == (AttackController { pending: true, ..s }),
        !s.requested(now).ready,
{
}

/// Exactly one request sets `pending`: once the latch is pending, any further
/// request before the cooldown expires changes nothing.
pub proof fn lemma_request_while_pending_is_noop(s: AttackController, now: u64)
    requires
        !s.ready,
        s.pending,
        now - s.last_activation < s.cooldown,
    ensures
        s.requested(now) == s,
{
}

/// Once the full cooldown has elapsed, a request marks the latch ready,
/// whatever `pending` was; `pending` and `last_activation` are untouched.
pub proof fn lemma_request_after_cooldown_sets_ready(s: AttackController, now: u64)
    requires
        now > s.last_activation,
        now - s.last_activation >= s.cooldown,
    ensures
        s.requested(now).ready,
        s.requested(now).pending == s.pending,
        s.requested(now).last_activation == s.last_activation,
{
}

/// Requesting while already ready never changes the state, so repeating the
/// request with the same or a later `now` cannot double-count: each call
/// starts from the same state and this lemma applies to it again.
pub proof fn lemma_request_when_ready_is_noop(s: AttackController, now: u64)
    requires
        s.ready,
    ensures
        s.requested(now) == s,
{
}

/// With a clock that never regresses, `last_activation` only advances:
/// a request leaves it unchanged and a consume can only move it forward.
pub proof fn lemma_last_activation_monotone(s: AttackController, now: u64)
    requires
        now >= s.last_activation,
    ensures
        s.requested(now).last_activation == s.last_activation,
        s.consumed(now).last_activation >= s.last_activation,
{
}

impl Default for AttackController {
    /// An idle controller with no cooldown and the default grace fraction;
    /// as with [`AttackController::new`], its tick clock starts at
    /// construction (`last_activation` is 0).
    fn default() -> (c: AttackController)
        ensures
            c == (AttackController {
                ready: false,
                pending: false,
                last_activation: 0,
                cooldown: 0,
                grace_num: 1,
                grace_den: 4,
            }),
    {
        AttackController {
            ready: false,
            pending: false,
            last_activation: 0,
            cooldown: 0,
            grace_num: 1,
            grace_den: 4,
        }
    }
}

} // verus!
