use shooter_sim::combat::{bullet_hit_enemy, enemy_cross_gate, GameOver, Score};
use shooter_sim::cooldown::{spawn_bullet, tick_bullet_timer, try_fire, BulletSpawnConfig, Cooldown};
use shooter_sim::entities::{
    add_clamped, bullet_movement, confine_player, enemy_movement, player_movement, spawn_player,
    Bullet, Direction, Enemy, Intents, Player, Surface, SurfaceError,
};
use shooter_sim::geometry::{overlaps, Aabb};
use shooter_sim::session::Session;
use shooter_sim::spawner::{enemy_has_collision, place_enemy, respawn_enemies, spawn_enemies, SpawnError};
use shooter_sim::{ENEMY_COUNT, ENEMY_WIDTH};

fn surface_800_600() -> Surface {
    Surface { width: 800_000, height: 600_000 }
}

fn enemy_at(x: i64, y: i64) -> Enemy {
    Enemy { x, y, direction: Direction::Down }
}

fn no_input() -> Intents {
    Intents { move_left: false, move_right: false, fire: false }
}

fn assert_spread(v: &[Enemy]) {
    for i in 0..v.len() {
        for j in 0..v.len() {
            if i != j {
                assert!((v[i].x - v[j].x).abs() > ENEMY_WIDTH);
            }
        }
    }
}

#[test]
fn overlap_is_symmetric() {
    let a = Aabb { x: 0, y: 0, half_w: 10, half_h: 10 };
    let b = Aabb { x: 15, y: 5, half_w: 10, half_h: 2 };
    let c = Aabb { x: 100, y: 0, half_w: 10, half_h: 10 };
    assert!(overlaps(&a, &b));
    assert_eq!(overlaps(&a, &b), overlaps(&b, &a));
    assert!(!overlaps(&a, &c));
    assert_eq!(overlaps(&a, &c), overlaps(&c, &a));
}

#[test]
fn touching_boxes_do_not_overlap() {
    let a = Aabb { x: 0, y: 0, half_w: 10, half_h: 10 };
    let b = Aabb { x: 20, y: 0, half_w: 10, half_h: 10 };
    assert!(!overlaps(&a, &b));
    let c = Aabb { x: 19, y: 0, half_w: 10, half_h: 10 };
    assert!(overlaps(&a, &c));
}

#[test]
fn placement_collision_counts_touching() {
    let placed = vec![enemy_at(100_000, 550_000)];
    assert!(enemy_has_collision(150_000, &placed));
    assert!(enemy_has_collision(50_000, &placed));
    assert!(!enemy_has_collision(150_001, &placed));
    assert!(!enemy_has_collision(49_999, &placed));
    assert!(!enemy_has_collision(0, &Vec::new()));
}

#[test]
fn player_spawns_bottom_centre_and_moves_right() {
    let mut player = Some(spawn_player(Some(surface_800_600())).unwrap());
    assert_eq!(player, Some(Player { x: 400_000, y: 50_000 }));
    let input = Intents { move_left: false, move_right: true, fire: false };
    player_movement(&mut player, &input, 100);
    assert_eq!(player, Some(Player { x: 450_000, y: 50_000 }));
    assert_eq!(confine_player(&mut player, Some(surface_800_600())), Ok(()));
    assert_eq!(player, Some(Player { x: 450_000, y: 50_000 }));
}

#[test]
fn spawn_player_needs_surface() {
    assert_eq!(spawn_player(None), Err(SurfaceError::MissingPrimarySurface));
}

#[test]
fn opposite_intents_cancel() {
    let mut player = Some(Player { x: 400_000, y: 50_000 });
    let both = Intents { move_left: true, move_right: true, fire: false };
    player_movement(&mut player, &both, 100);
    assert_eq!(player, Some(Player { x: 400_000, y: 50_000 }));
    let left = Intents { move_left: true, move_right: false, fire: false };
    player_movement(&mut player, &left, 20);
    assert_eq!(player, Some(Player { x: 390_000, y: 50_000 }));
    let mut nobody: Option<Player> = None;
    player_movement(&mut nobody, &left, 20);
    assert_eq!(nobody, None);
}

#[test]
fn confinement_clamps_both_sides() {
    let mut player = Some(Player { x: -5_000, y: 50_000 });
    assert_eq!(confine_player(&mut player, Some(surface_800_600())), Ok(()));
    assert_eq!(player, Some(Player { x: 25_000, y: 50_000 }));
    let mut player = Some(Player { x: 900_000, y: 50_000 });
    assert_eq!(confine_player(&mut player, Some(surface_800_600())), Ok(()));
    assert_eq!(player, Some(Player { x: 775_000, y: 50_000 }));
}

#[test]
fn confinement_without_surface() {
    let mut player = Some(Player { x: 900_000, y: 50_000 });
    assert_eq!(confine_player(&mut player, None), Err(SurfaceError::MissingPrimarySurface));
    assert_eq!(player, Some(Player { x: 900_000, y: 50_000 }));
    let mut nobody: Option<Player> = None;
    assert_eq!(confine_player(&mut nobody, None), Ok(()));
}

#[test]
fn enemies_and_bullets_move_along_their_direction() {
    let mut enemies = vec![enemy_at(100_000, 550_000)];
    enemy_movement(&mut enemies, 100);
    assert_eq!(enemies[0], enemy_at(100_000, 540_000));
    let mut bullets = vec![Bullet { x: 10, y: 0, direction: Direction::Up }];
    bullet_movement(&mut bullets, 50);
    assert_eq!(bullets[0], Bullet { x: 10, y: 10_000, direction: Direction::Up });
    let mut sideways = vec![Bullet { x: 10, y: 0, direction: Direction::Left }];
    bullet_movement(&mut sideways, 1);
    assert_eq!(sideways[0].x, -190);
}

#[test]
fn addition_saturates() {
    assert_eq!(add_clamped(i64::MAX, 5), i64::MAX);
    assert_eq!(add_clamped(i64::MIN, -5), i64::MIN);
    assert_eq!(add_clamped(3, -5), -2);
}

#[test]
fn cooldown_two_half_intervals() {
    let mut config = BulletSpawnConfig::default();
    assert_eq!(config.timer, Cooldown { interval_ms: 100, elapsed_ms: 0 });
    let player = Some(Player { x: 400_000, y: 50_000 });
    assert_eq!(spawn_bullet(&mut config, &player, true, 50), None);
    assert_eq!(config.timer.elapsed_ms, 50);
    let b = spawn_bullet(&mut config, &player, true, 50);
    assert_eq!(b, Some(Bullet { x: 400_000, y: 75_000, direction: Direction::Up }));
    assert_eq!(config.timer.elapsed_ms, 0);
}

#[test]
fn cooldown_gates_fire_rate() {
    let mut config = BulletSpawnConfig::default();
    let player = Some(Player { x: 0, y: 50_000 });
    assert!(spawn_bullet(&mut config, &player, true, 100).is_some());
    assert!(spawn_bullet(&mut config, &player, true, 99).is_none());
    assert!(spawn_bullet(&mut config, &player, true, 1).is_some());
    assert!(spawn_bullet(&mut config, &player, true, 250).is_some());
}

#[test]
fn timer_advances_without_player_or_input() {
    let mut config = BulletSpawnConfig::default();
    assert_eq!(spawn_bullet(&mut config, &None, true, 60), None);
    assert_eq!(config.timer.elapsed_ms, 60);
    assert_eq!(spawn_bullet(&mut config, &Some(Player { x: 0, y: 0 }), false, 60), None);
    assert_eq!(config.timer.elapsed_ms, 100);
    tick_bullet_timer(&mut config, 1_000);
    assert_eq!(config.timer.elapsed_ms, 100);
    assert!(try_fire(&mut config, &Some(Player { x: 0, y: 0 }), true).is_some());
    assert_eq!(config.timer.elapsed_ms, 0);
}

#[test]
fn cooldown_reset_and_tick() {
    let mut c = Cooldown::new(100);
    assert!(!c.finished());
    c.tick(30);
    assert_eq!(c.elapsed_ms, 30);
    c.tick(300);
    assert_eq!(c.elapsed_ms, 100);
    assert!(c.finished());
    c.reset();
    assert_eq!(c, Cooldown { interval_ms: 100, elapsed_ms: 0 });
}

#[test]
fn bullet_on_enemy_scores_one() {
    let mut bullets = vec![Bullet { x: 400_000, y: 300_000, direction: Direction::Up }];
    let mut enemies = vec![enemy_at(400_000, 300_000)];
    let mut score = Score::default();
    assert_eq!(score.value, 0);
    assert_eq!(bullet_hit_enemy(&mut bullets, &mut enemies, &mut score), Some((0, 0)));
    assert_eq!(score.value, 1);
    assert!(bullets.is_empty());
    assert!(enemies.is_empty());
}

#[test]
fn one_hit_per_call_first_pair_wins() {
    let mut bullets = vec![
        Bullet { x: 0, y: 0, direction: Direction::Up },
        Bullet { x: 200_000, y: 300_000, direction: Direction::Up },
        Bullet { x: 400_000, y: 300_000, direction: Direction::Up },
    ];
    let mut enemies = vec![enemy_at(400_000, 300_000), enemy_at(200_000, 300_000)];
    let mut score = Score { value: 7 };
    assert_eq!(bullet_hit_enemy(&mut bullets, &mut enemies, &mut score), Some((1, 1)));
    assert_eq!(score.value, 8);
    assert_eq!(bullets.len(), 2);
    assert_eq!(bullets[1].x, 400_000);
    assert_eq!(enemies, vec![enemy_at(400_000, 300_000)]);
}

#[test]
fn no_hit_leaves_everything() {
    let mut bullets = vec![Bullet { x: 0, y: 0, direction: Direction::Up }];
    let mut enemies = vec![enemy_at(0, 35_000)];
    let mut score = Score { value: 2 };
    assert_eq!(bullet_hit_enemy(&mut bullets, &mut enemies, &mut score), None);
    assert_eq!(score.value, 2);
    assert_eq!(bullets.len(), 1);
    assert_eq!(enemies.len(), 1);
}

#[test]
fn score_saturates() {
    let mut score = Score { value: u32::MAX };
    score.increment();
    assert_eq!(score.value, u32::MAX);
}

#[test]
fn enemy_below_gate_ends_game() {
    let mut player = Some(Player { x: 400_000, y: 50_000 });
    let enemies = vec![enemy_at(100_000, 300_000), enemy_at(300_000, 70_000)];
    let score = Score { value: 4 };
    assert_eq!(enemy_cross_gate(&mut player, &enemies, &score), Some(GameOver { score: 4 }));
    assert_eq!(player, None);
    assert_eq!(enemy_cross_gate(&mut player, &enemies, &score), None);
}

#[test]
fn enemy_at_gate_is_not_below() {
    let mut player = Some(Player { x: 400_000, y: 50_000 });
    let enemies = vec![enemy_at(100_000, 75_000)];
    assert_eq!(enemy_cross_gate(&mut player, &enemies, &Score::default()), None);
    assert!(player.is_some());
}

#[test]
fn initial_spawn_is_spread() {
    let enemies = spawn_enemies(Some(surface_800_600())).unwrap();
    assert_eq!(enemies.len(), ENEMY_COUNT);
    for e in &enemies {
        assert_eq!(e.y, 550_000);
        assert_eq!(e.direction, Direction::Down);
        assert!(e.x >= 25_000 && e.x <= 775_000);
    }
    assert_spread(&enemies);
}

#[test]
fn initial_spawn_errors() {
    assert_eq!(spawn_enemies(None), Err(SpawnError::MissingPrimarySurface));
    let narrow = Surface { width: 100_000, height: 600_000 };
    assert_eq!(spawn_enemies(Some(narrow)), Err(SpawnError::SpawnPlacementExhausted));
}

#[test]
fn placement_on_crowded_band_uses_free_slot() {
    let surface = Surface { width: 160_000, height: 600_000 };
    let placed = vec![enemy_at(25_000, 0)];
    let x = place_enemy(&placed, surface.width).unwrap();
    assert!(x > 75_000 && x <= 135_000);
    let full = vec![enemy_at(25_000, 0), enemy_at(100_000, 0)];
    assert_eq!(place_enemy(&full, surface.width), Err(SpawnError::SpawnPlacementExhausted));
}

#[test]
fn replenish_fills_to_target() {
    let mut enemies = vec![enemy_at(100_000, 300_000), enemy_at(600_000, 200_000)];
    assert_eq!(respawn_enemies(&mut enemies, Some(surface_800_600())), Ok(()));
    assert_eq!(enemies.len(), ENEMY_COUNT);
    assert_eq!(enemies[0], enemy_at(100_000, 300_000));
    assert_eq!(enemies[1], enemy_at(600_000, 200_000));
    for e in &enemies[2..] {
        assert_eq!(e.y, 550_000);
    }
    assert_spread(&enemies);
}

#[test]
fn replenish_at_target_is_noop() {
    let full: Vec<Enemy> = (0..5).map(|i| enemy_at(i * 100_000 + 25_000, 300_000)).collect();
    let mut enemies = full.clone();
    assert_eq!(respawn_enemies(&mut enemies, None), Ok(()));
    assert_eq!(enemies, full);
    let mut short = vec![enemy_at(25_000, 300_000)];
    assert_eq!(respawn_enemies(&mut short, None), Err(SpawnError::MissingPrimarySurface));
    assert_eq!(short.len(), 1);
}

#[test]
fn session_starts_full() {
    let s = Session::new(Some(surface_800_600())).unwrap();
    assert_eq!(s.player, Some(Player { x: 400_000, y: 50_000 }));
    assert_eq!(s.enemies.len(), ENEMY_COUNT);
    assert!(s.bullets.is_empty());
    assert_eq!(s.score.value, 0);
    assert!(Session::new(None).is_err());
}

#[test]
fn session_fires_hits_and_scores() {
    let mut s = Session::new(Some(surface_800_600())).unwrap();
    s.enemies = vec![enemy_at(400_000, 120_000)];
    let fire = Intents { move_left: false, move_right: false, fire: true };
    let rep = s.tick(&fire, 100, Some(surface_800_600())).unwrap();
    assert!(rep.fired);
    assert!(rep.hit);
    assert_eq!(rep.game_over, None);
    assert_eq!(s.score.value, 1);
    assert!(s.bullets.is_empty());
    assert_eq!(s.enemies.len(), ENEMY_COUNT);
    assert_spread(&s.enemies);
}

#[test]
fn session_game_over_once() {
    let mut s = Session::new(Some(surface_800_600())).unwrap();
    s.score = Score { value: 3 };
    s.enemies = vec![enemy_at(100_000, 80_000)];
    let rep = s.tick(&no_input(), 100, Some(surface_800_600())).unwrap();
    assert_eq!(rep.game_over, Some(GameOver { score: 3 }));
    assert_eq!(s.player, None);
    let rep = s.tick(&no_input(), 100, Some(surface_800_600())).unwrap();
    assert_eq!(rep.game_over, None);
    assert!(!rep.fired);
}

#[test]
fn session_tick_needs_surface() {
    let mut s = Session::new(Some(surface_800_600())).unwrap();
    assert_eq!(s.tick(&no_input(), 10, None), Err(SpawnError::MissingPrimarySurface));
}
