//! The per-frame pass over enemies and projectile contacts: applies damage,
//! despawns what was hit, advances the current level when an enemy goes down,
//! and reports the UI updates the engine should draw.
//!
//! The pass mirrors the engine system it drives: enemies are examined in
//! order; an enemy outside the current level stops the pass for this frame;
//! projectile contacts wound the enemy one point each; the moment an enemy's
//! health is exhausted it despawns, every live projectile despawns with it,
//! and the level index advances — exactly once, since the pass ends there.

use vstd::prelude::*;

use crate::components::Health;
use crate::components::LevelLocation;

verus! {

/// Index of the currently active procedurally built room.
#[derive(Clone, Copy, Debug, PartialEq, Eq, Structural)]
pub struct Level(pub u32);

/// Event sent to the rest of the game when the current level changes.
#[derive(Clone, Copy, Debug, PartialEq, Eq, Structural)]
pub enum LevelEvent {
    Change(u32),
}

/// What one enemy looks like to the pass: its health and its room.
#[derive(Clone, Copy, Debug, PartialEq, Eq, Structural)]
pub struct EnemyState {
    pub health: Health,
    pub location: LevelLocation,
}

/// Where the pass stopped: it ran over every enemy, or it halted early at
/// the first enemy outside the current level, or at the enemy that went down.
#[derive(Clone, Copy, Debug, PartialEq, Eq, Structural)]
pub enum PassHalt {
    Completed,
    OutOfLevel(usize),
    EnemyDown(usize),
}

/// What the boss health bar should show after the pass: untouched, back to
/// full (an enemy went down), or the remaining health of the enemy hit last.
#[derive(Clone, Copy, Debug, PartialEq, Eq, Structural)]
pub enum BarUpdate {
    Unchanged,
    Full,
    Remaining(u32),
}

/// Everything one pass decides: the enemies' health afterwards, which
/// projectiles despawn, the level index afterwards, the event to send, where
/// the pass stopped, and the health-bar update.
#[derive(Clone, Debug)]
pub struct LevelOutcome {
    /// Health of each enemy after the pass, index-aligned with the input.
    pub healths: Vec<u32>,
    /// Whether each projectile despawns, index-aligned with the input.
    pub projectile_despawned: Vec<bool>,
    /// The current level after the pass.
    pub level: Level,
    /// The change event to send, when an enemy went down.
    pub event: Option<LevelEvent>,
    /// Where the pass stopped.
    pub halt: PassHalt,
    /// What the boss health bar should show.
    pub bar: BarUpdate,
}

/// How many entries of a contact row are set: the number of projectiles
/// touching one enemy this frame.
pub open spec fn count_true(row: Seq<bool>) -> nat
    decreases row.len(),
{
    if row.len() == 0 {
        0
    } else {
        count_true(row.drop_last()) + (if row.last() {
            1nat
        } else {
            0nat
        })
    }
}

/// Extending a prefix by one entry raises the count by that entry.
proof fn lemma_count_true_step(row: Seq<bool>, j: int)
    requires
        0 <= j < row.len(),
    ensures
        count_true(row.subrange(0, j + 1)) == count_true(row.subrange(0, j)) + (if row[j] {
            1nat
        } else {
            0nat
        }),
{
    let pre = row.subrange(0, j);
    let cur = row.subrange(0, j + 1);
    assert(cur.drop_last() =~= pre);
    assert(cur.last() == row[j]);
}

/// The enemy is in the current room and keeps at least one health point
/// after this frame's contacts: the pass walks on past it.
pub open spec fn enemy_survives(level: Level, e: EnemyState, row: Seq<bool>) -> bool {
    e.location.0 == level.0 && count_true(row) < e.health.0
}

/// Health left after this frame's contacts each cost one point.
pub open spec fn after_health(e: EnemyState, row: Seq<bool>) -> u32 {
    (e.health.0 - count_true(row)) as u32
}

/// The health bar after the first `k` enemies were processed and survived:
/// the remaining health of the last one that was actually hit, untouched if
/// none was.
pub open spec fn bar_after(enemies: Seq<EnemyState>, contacts: Seq<Vec<bool>>, k: int) -> BarUpdate
    decreases k,
{
    if k <= 0 {
        BarUpdate::Unchanged
    } else if count_true(contacts[k - 1]@) > 0 {
        BarUpdate::Remaining(after_health(enemies[k - 1], contacts[k - 1]@))
    } else {
        bar_after(enemies, contacts, k - 1)
    }
}

/// Length of the repeating enemy-movement cycle, in ticks.
pub const MOVEMENT_PULSE_PERIOD: u64 = 3000;

/// Leading slice of each cycle during which a fresh wander impulse is
/// applied to the enemies, in ticks.
pub const MOVEMENT_PULSE_WINDOW: u64 = 1000;

/// Whether the enemies receive a fresh wander impulse at this point of the
/// repeating movement cycle; the impulse itself (a random horizontal force)
/// is the engine's to apply.
pub fn enemy_movement_pulse(elapsed: u64) -> (active: bool)
    ensures
        active == (elapsed % MOVEMENT_PULSE_PERIOD < MOVEMENT_PULSE_WINDOW),
{
    elapsed % MOVEMENT_PULSE_PERIOD < MOVEMENT_PULSE_WINDOW
}

/// Count the set entries of one contact row.
fn count_row(row: &Vec<bool>) -> (c: usize)
    ensures
        c == count_true(row@),
{
    let mut c: usize = 0;
    let mut j: usize = 0;
    while j < row.len()
        invariant
            j <= row@.len(),
            c <= j,
            c == count_true(row@.subrange(0, j as int)),
        decreases row@.len() - j,
    {
        proof {
            lemma_count_true_step(row@, j as int);
        }
        if row[j] {
            c = c + 1;
        }
        j = j + 1;
    }
    proof {
        assert(row@.subrange(0, row@.len() as int) =~= row@);
    }
    c
}

/// A vector of `m` copies of `v`.
fn filled(m: usize, v: bool) -> (r: Vec<bool>)
    ensures
        r@.len() == m,
        forall|j: int| 0 <= j < m ==> r@[j] == v,
{
    let mut r: Vec<bool> = Vec::new();
    let mut j: usize = 0;
    while j < m
        invariant
            j <= m,
            r@.len() == j,
            forall|t: int| 0 <= t < j ==> r@[t] == v,
        decreases m - j,
    {
        r.push(v);
        j = j + 1;
    }
    r
}

/// The entrywise disjunction of two equally long rows.
fn or_rows(a: &Vec<bool>, b: &Vec<bool>) -> (r: Vec<bool>)
    requires
        a@.len() == b@.len(),
    ensures
        r@.len() == a@.len(),
        forall|j: int| 0 <= j < a@.len() ==> r@[j] == (a@[j] || b@[j]),
{
    let mut r: Vec<bool> = Vec::new();
    let mut j: usize = 0;
    while j < a.len()
        invariant
            j <= a@.len(),
            a@.len() == b@.len(),
            r@.len() == j,
            forall|t: int| 0 <= t < j ==> r@[t] == (a@[t] || b@[t]),
        decreases a@.len() - j,
    {
        r.push(a[j] || b[j]);
        j = j + 1;
    }
    r
}

/// Append the untouched health of every enemy from `from` on.
fn append_tail_healths(healths: &mut Vec<u32>, enemies: &Vec<EnemyState>, from: usize)
    requires
        from <= enemies@.len(),
    ensures
        final(healths)@.len() == old(healths)@.len() + (enemies@.len() - from),
        forall|t: int|
            0 <= t < old(healths)@.len() ==> final(healths)@[t] == old(healths)@[t],
        forall|t: int|
            from <= t < enemies@.len() ==> final(healths)@[old(healths)@.len() + (t - from)]
                == enemies@[t].health.0,
{
    let ghost base = healths@.len();
    let mut t: usize = from;
    while t < enemies.len()
        invariant
            from <= t <= enemies@.len(),
            healths@.len() == base + (t - from),
            forall|s: int| 0 <= s < base ==> healths@[s] == old(healths)@[s],
            forall|s: int|
                from <= s < t ==> healths@[base + (s - from)] == enemies@[s].health.0,
            base == old(healths)@.len(),
        decreases enemies@.len() - t,
    {
        healths.push(enemies[t].health.0);
        t = t + 1;
    }
}

/// Run one frame's pass over the enemies and the projectile contacts.
///
/// `contacts` holds one row per enemy, one entry per projectile: whether that
/// projectile touches that enemy this frame. The pass examines enemies in
/// order. An enemy outside the current level halts the pass. Otherwise each
/// contact costs the enemy one health point and despawns the projectile; an
/// enemy left with no health despawns, every projectile despawns with it,
/// the level index advances by one and a change event is reported — and the
/// pass ends there, so the level advances at most once per frame.
#[verifier::loop_isolation(false)]
pub fn update_current_level(
    current_level: &Level,
    enemies: &Vec<EnemyState>,
    contacts: &Vec<Vec<bool>>,
    n_projectiles: usize,
) -> (o: LevelOutcome)
    requires
        contacts@.len() == enemies@.len(),
        forall|i: int| 0 <= i < contacts@.len() ==> (#[trigger] contacts@[i])@.len() == n_projectiles,
        forall|i: int| 0 <= i < enemies@.len() ==> (#[trigger] enemies@[i]).health.0 >= 1,
        current_level.0 < u32::MAX,
    ensures
        o.healths@.len() == enemies@.len(),
        o.projectile_despawned@.len() == n_projectiles,
        o.halt matches PassHalt::Completed ==> {
            &&& forall|i: int|
                0 <= i < enemies@.len() ==> enemy_survives(
                    *current_level,
                    #[trigger] enemies@[i],
                    contacts@[i]@,
                )
            &&& forall|i: int|
                0 <= i < enemies@.len() ==> #[trigger] o.healths@[i] == after_health(
                    enemies@[i],
                    contacts@[i]@,
                )
            &&& forall|j: int|
                0 <= j < n_projectiles ==> #[trigger] o.projectile_despawned@[j] == (exists|t: int|
                    0 <= t < enemies@.len() && (#[trigger] contacts@[t])@[j])
            &&& o.level == *current_level
            &&& o.event is None
            &&& o.bar == bar_after(enemies@, contacts@, enemies@.len() as int)
        },
        o.halt matches PassHalt::OutOfLevel(k) ==> {
            &&& k < enemies@.len()
            &&& enemies@[k as int].location.0 != current_level.0
            &&& forall|i: int|
                0 <= i < k ==> enemy_survives(*current_level, #[trigger] enemies@[i], contacts@[i]@)
            &&& forall|i: int|
                0 <= i < k ==> #[trigger] o.healths@[i] == after_health(enemies@[i], contacts@[i]@)
            &&& forall|i: int|
                k <= i < enemies@.len() ==> #[trigger] o.healths@[i] == enemies@[i].health.0
            &&& forall|j: int|
                0 <= j < n_projectiles ==> #[trigger] o.projectile_despawned@[j] == (exists|t: int|
                    0 <= t < k && (#[trigger] contacts@[t])@[j])
            &&& o.level == *current_level
            &&& o.event is None
            &&& o.bar == bar_after(enemies@, contacts@, k as int)
        },
        o.halt matches PassHalt::EnemyDown(k) ==> {
            &&& k < enemies@.len()
            &&& enemies@[k as int].location.0 == current_level.0
            &&& count_true(contacts@[k as int]@) >= enemies@[k as int].health.0
            &&& forall|i: int|
                0 <= i < k ==> enemy_survives(*current_level, #[trigger] enemies@[i], contacts@[i]@)
            &&& forall|i: int|
                0 <= i < k ==> #[trigger] o.healths@[i] == after_health(enemies@[i], contacts@[i]@)
            &&& o.healths@[k as int] == 0
            &&& forall|i: int|
                k < i < enemies@.len() ==> #[trigger] o.healths@[i] == enemies@[i].health.0
            &&& forall|j: int| 0 <= j < n_projectiles ==> #[trigger] o.projectile_despawned@[j]
            &&& o.level.0 == current_level.0 + 1
            &&& o.event == Some(LevelEvent::Change((current_level.0 + 1) as u32))
            &&& o.bar == BarUpdate::Full
        },
{
    let n = enemies.len();
    let mut healths: Vec<u32> = Vec::new();
    let mut despawned: Vec<bool> = filled(n_projectiles, false);
    let mut bar = BarUpdate::Unchanged;
    let mut i: usize = 0;

    while i < n
        invariant
            i <= n,
            healths@.len() == i,
            forall|t: int|
                0 <= t < i ==> enemy_survives(*current_level, #[trigger] enemies@[t], contacts@[t]@),
            forall|t: int|
                0 <= t < i ==> #[trigger] healths@[t] == after_health(enemies@[t], contacts@[t]@),
            despawned@.len() == n_projectiles,
            forall|j: int|
                0 <= j < n_projectiles ==> #[trigger] despawned@[j] == (exists|t: int|
                    0 <= t < i && (#[trigger] contacts@[t])@[j]),
            bar == bar_after(enemies@, contacts@, i as int),
        decreases n - i,
    {
        let e = enemies[i];

        if e.location.0 != current_level.0 {
            append_tail_healths(&mut healths, enemies, i);
            return LevelOutcome {
                healths,
                projectile_despawned: despawned,
                level: *current_level,
                event: None,
                halt: PassHalt::OutOfLevel(i),
                bar,
            };
        }

        let hits = count_row(&contacts[i]);

        if hits as u64 >= e.health.0 as u64 {
            healths.push(0);
            append_tail_healths(&mut healths, enemies, i + 1);
            return LevelOutcome {
                healths,
                projectile_despawned: filled(n_projectiles, true),
                level: Level(current_level.0 + 1),
                event: Some(LevelEvent::Change(current_level.0 + 1)),
                halt: PassHalt::EnemyDown(i),
                bar: BarUpdate::Full,
            };
        }

        let new_h = e.health.0 - hits as u32;
        healths.push(new_h);
        despawned = or_rows(&despawned, &contacts[i]);
        if hits > 0 {
            bar = BarUpdate::Remaining(new_h);
        }
        i = i + 1;
    }

    LevelOutcome {
        healths,
        projectile_despawned: despawned,
        level: *current_level,
        event: None,
        halt: PassHalt::Completed,
        bar,
    }
}

} // verus!
