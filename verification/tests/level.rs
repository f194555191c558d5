use tower::components::Health;
use tower::components::LevelLocation;
use tower::level::enemy_movement_pulse;
use tower::level::update_current_level;
use tower::level::BarUpdate;
use tower::level::EnemyState;
use tower::level::Level;
use tower::level::LevelEvent;
use tower::level::PassHalt;

fn enemy(health: u32, location: u32) -> EnemyState {
    EnemyState { health: Health(health), location: LevelLocation(location) }
}

#[test]
fn three_hits_down_the_enemy_and_advance_the_level_once() {
    let level = Level(0);
    let enemies = vec![enemy(3, 0)];
    let contacts = vec![vec![true, true, true]];
    let o = update_current_level(&level, &enemies, &contacts, 3);
    assert_eq!(o.healths, vec![0]);
    assert_eq!(o.projectile_despawned, vec![true, true, true]);
    assert_eq!(o.level, Level(1));
    assert_eq!(o.event, Some(LevelEvent::Change(1)));
    assert_eq!(o.halt, PassHalt::EnemyDown(0));
    assert_eq!(o.bar, BarUpdate::Full);
}

#[test]
fn three_single_hits_across_frames_reach_zero_health() {
    let level = Level(0);

    let o1 = update_current_level(&level, &vec![enemy(3, 0)], &vec![vec![true]], 1);
    assert_eq!(o1.healths, vec![2]);
    assert_eq!(o1.projectile_despawned, vec![true]);
    assert_eq!(o1.halt, PassHalt::Completed);
    assert_eq!(o1.bar, BarUpdate::Remaining(2));
    assert_eq!(o1.level, Level(0));
    assert_eq!(o1.event, None);

    let o2 = update_current_level(&level, &vec![enemy(2, 0)], &vec![vec![true]], 1);
    assert_eq!(o2.healths, vec![1]);
    assert_eq!(o2.bar, BarUpdate::Remaining(1));
    assert_eq!(o2.halt, PassHalt::Completed);

    let o3 = update_current_level(&level, &vec![enemy(1, 0)], &vec![vec![true]], 1);
    assert_eq!(o3.healths, vec![0]);
    assert_eq!(o3.halt, PassHalt::EnemyDown(0));
    assert_eq!(o3.level, Level(1));
    assert_eq!(o3.event, Some(LevelEvent::Change(1)));
}

#[test]
fn out_of_level_enemy_halts_the_pass() {
    let level = Level(0);
    let enemies = vec![enemy(5, 1), enemy(2, 0)];
    let contacts = vec![vec![true], vec![true]];
    let o = update_current_level(&level, &enemies, &contacts, 1);
    assert_eq!(o.halt, PassHalt::OutOfLevel(0));
    assert_eq!(o.healths, vec![5, 2]);
    assert_eq!(o.projectile_despawned, vec![false]);
    assert_eq!(o.level, Level(0));
    assert_eq!(o.event, None);
    assert_eq!(o.bar, BarUpdate::Unchanged);
}

#[test]
fn survivor_then_out_of_level_enemy() {
    let level = Level(0);
    let enemies = vec![enemy(3, 0), enemy(3, 7), enemy(3, 0)];
    let contacts = vec![vec![true], vec![true], vec![true]];
    let o = update_current_level(&level, &enemies, &contacts, 1);
    assert_eq!(o.halt, PassHalt::OutOfLevel(1));
    assert_eq!(o.healths, vec![2, 3, 3]);
    assert_eq!(o.projectile_despawned, vec![true]);
    assert_eq!(o.bar, BarUpdate::Remaining(2));
}

#[test]
fn pass_continues_past_survivors() {
    let level = Level(0);
    let enemies = vec![enemy(5, 0), enemy(4, 0)];
    let contacts = vec![vec![true, false, false], vec![false, true, true]];
    let o = update_current_level(&level, &enemies, &contacts, 3);
    assert_eq!(o.halt, PassHalt::Completed);
    assert_eq!(o.healths, vec![4, 2]);
    assert_eq!(o.projectile_despawned, vec![true, true, true]);
    assert_eq!(o.bar, BarUpdate::Remaining(2));
    assert_eq!(o.level, Level(0));
    assert_eq!(o.event, None);
}

#[test]
fn untouched_enemies_leave_everything_unchanged() {
    let level = Level(2);
    let enemies = vec![enemy(3, 2), enemy(1, 2)];
    let contacts = vec![vec![false, false], vec![false, false]];
    let o = update_current_level(&level, &enemies, &contacts, 2);
    assert_eq!(o.halt, PassHalt::Completed);
    assert_eq!(o.healths, vec![3, 1]);
    assert_eq!(o.projectile_despawned, vec![false, false]);
    assert_eq!(o.bar, BarUpdate::Unchanged);
    assert_eq!(o.level, Level(2));
}

#[test]
fn a_downed_enemy_takes_every_projectile_with_it() {
    let level = Level(0);
    let enemies = vec![enemy(1, 0), enemy(9, 0)];
    let contacts = vec![vec![true, false], vec![false, false]];
    let o = update_current_level(&level, &enemies, &contacts, 2);
    assert_eq!(o.halt, PassHalt::EnemyDown(0));
    assert_eq!(o.healths, vec![0, 9]);
    assert_eq!(o.projectile_despawned, vec![true, true]);
    assert_eq!(o.level, Level(1));
    assert_eq!(o.event, Some(LevelEvent::Change(1)));
    assert_eq!(o.bar, BarUpdate::Full);
}

#[test]
fn one_projectile_touching_two_enemies_wounds_both() {
    let level = Level(0);
    let enemies = vec![enemy(3, 0), enemy(3, 0)];
    let contacts = vec![vec![true], vec![true]];
    let o = update_current_level(&level, &enemies, &contacts, 1);
    assert_eq!(o.healths, vec![2, 2]);
    assert_eq!(o.projectile_despawned, vec![true]);
    assert_eq!(o.bar, BarUpdate::Remaining(2));
}

#[test]
fn empty_room_completes_with_no_changes() {
    let level = Level(4);
    let o = update_current_level(&level, &Vec::new(), &Vec::new(), 0);
    assert_eq!(o.halt, PassHalt::Completed);
    assert!(o.healths.is_empty());
    assert!(o.projectile_despawned.is_empty());
    assert_eq!(o.level, Level(4));
    assert_eq!(o.event, None);
    assert_eq!(o.bar, BarUpdate::Unchanged);
}

#[test]
fn movement_pulse_covers_the_first_second_of_each_cycle() {
    assert!(enemy_movement_pulse(0));
    assert!(enemy_movement_pulse(999));
    assert!(!enemy_movement_pulse(1000));
    assert!(!enemy_movement_pulse(2999));
    assert!(enemy_movement_pulse(3000));
    assert!(enemy_movement_pulse(3500));
    assert!(!enemy_movement_pulse(4200));
}

#[test]
fn level_advances_at_the_top_of_the_tower() {
    let level = Level(u32::MAX - 1);
    let enemies = vec![enemy(1, u32::MAX - 1)];
    let contacts = vec![vec![true]];
    let o = update_current_level(&level, &enemies, &contacts, 1);
    assert_eq!(o.halt, PassHalt::EnemyDown(0));
    assert_eq!(o.level, Level(u32::MAX));
    assert_eq!(o.event, Some(LevelEvent::Change(u32::MAX)));
}
