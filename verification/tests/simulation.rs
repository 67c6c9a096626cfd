use arena_core::angle::FULL_TURN;
use arena_core::angle::HALF_TURN;
use arena_core::arena::boundary_check;
use arena_core::arena::CollisionOutcome;
use arena_core::arena::World;
use arena_core::arena::ENEMY_CAP;
use arena_core::vehicle::drive_force;
use arena_core::vehicle::Force;
use arena_core::vehicle::Position;
use arena_core::vehicle::Role;

fn spawn_layout() -> Vec<Position> {
    vec![
        Position { x: 15, y: 2, z: 15 },
        Position { x: 15, y: 2, z: -15 },
        Position { x: -15, y: 2, z: 15 },
        Position { x: -15, y: 2, z: -15 },
    ]
}

#[test]
fn fresh_session_is_empty() {
    let w = World::new();
    assert_eq!(w.enemy_count, 0);
    assert_eq!(w.score, 0);
    assert_eq!(w.enemies.len(), 0);
    assert_eq!(w.player.role, Role::Player);
    assert_eq!(w.player.pos, Position { x: 4, y: 2, z: 0 });
}

#[test]
fn end_to_end_scenario() {
    // One tick from an empty arena spawns exactly one enemy at a fixed point.
    let mut w = World::new();
    let order = w.spawn_tick().expect("below the cap, a spawn is owed");
    assert_eq!(w.enemy_count, 1);
    assert_eq!(w.score, 0);
    assert!(spawn_layout().contains(&order.pos));
    assert!(order.variant < 4);

    // A player-enemy collision destroys the enemy and scores one.
    let enemy_id = order.id;
    let outcome = w.process_collision(w.player.id, enemy_id);
    assert_eq!(outcome, CollisionOutcome::EnemyDestroyed(enemy_id));
    assert_eq!(w.enemy_count, 0);
    assert_eq!(w.score, 1);
    assert!(w.enemies.iter().all(|e| e.id != enemy_id));

    // Five further spawn ticks fill the arena to the cap...
    for _ in 0..5 {
        assert!(w.spawn_tick().is_some());
    }
    assert_eq!(w.enemy_count, 5);
    // ... and a sixth is a no-op.
    assert!(w.spawn_tick().is_none());
    assert_eq!(w.enemy_count, 5);
    assert_eq!(w.score, 1);
}

#[test]
fn population_never_exceeds_cap() {
    let mut w = World::new();
    for _ in 0..20 {
        w.spawn_tick();
        assert!(w.enemy_count <= ENEMY_CAP);
        assert_eq!(w.enemy_count, w.enemies.len());
    }
    assert_eq!(w.enemy_count, ENEMY_CAP);
}

#[test]
fn enemy_enemy_collision_changes_nothing() {
    let mut w = World::new();
    let a = w.spawn_tick().unwrap().id;
    let b = w.spawn_tick().unwrap().id;
    let outcome = w.process_collision(a, b);
    assert_eq!(outcome, CollisionOutcome::Ignored);
    assert_eq!(w.enemy_count, 2);
    assert_eq!(w.score, 0);
}

#[test]
fn player_non_enemy_collision_changes_nothing() {
    let mut w = World::new();
    w.spawn_tick();
    // The other body is no live enemy: a wall, or a long-gone id.
    let outcome = w.process_collision(w.player.id, 9999);
    assert_eq!(outcome, CollisionOutcome::Ignored);
    let outcome = w.process_collision(7777, w.player.id);
    assert_eq!(outcome, CollisionOutcome::Ignored);
    // Neither body is the player.
    let outcome = w.process_collision(7777, 9999);
    assert_eq!(outcome, CollisionOutcome::Ignored);
    assert_eq!(w.enemy_count, 1);
    assert_eq!(w.score, 0);
}

#[test]
fn destroyed_enemy_is_absent_and_count_drops_by_one() {
    let mut w = World::new();
    let first = w.spawn_tick().unwrap().id;
    let second = w.spawn_tick().unwrap().id;
    let third = w.spawn_tick().unwrap().id;
    let before = w.enemy_count;
    let outcome = w.process_collision(second, w.player.id);
    assert_eq!(outcome, CollisionOutcome::EnemyDestroyed(second));
    assert_eq!(w.enemy_count, before - 1);
    assert!(w.enemies.iter().all(|e| e.id != second));
    assert!(w.enemies.iter().any(|e| e.id == first));
    assert!(w.enemies.iter().any(|e| e.id == third));
    // A repeat contact with the destroyed enemy is no longer qualifying.
    let outcome = w.process_collision(second, w.player.id);
    assert_eq!(outcome, CollisionOutcome::Ignored);
    assert_eq!(w.score, 1);
}

#[test]
fn boundary_reversal_threshold() {
    // 2.5 world units are 2500 thousandths.
    assert_eq!(boundary_check(0, Some(2499)), HALF_TURN);
    assert_eq!(boundary_check(0, Some(1)), HALF_TURN);
    assert_eq!(boundary_check(0, Some(2500)), 0);
    assert_eq!(boundary_check(0, Some(100_000)), 0);
    assert_eq!(boundary_check(0, None), 0);
    // A hit at the ray origin is degenerate: no obstruction.
    assert_eq!(boundary_check(0, Some(0)), 0);
    // Reversal wraps around the full turn.
    assert_eq!(boundary_check(700_000, Some(1000)), 200_000);
}

#[test]
fn boundary_tick_reverses_each_vehicle_independently() {
    let mut w = World::new();
    w.spawn_tick();
    w.spawn_tick();
    let player_yaw = w.player.yaw;
    let enemy_yaws: Vec<u32> = w.enemies.iter().map(|e| e.yaw).collect();
    // The player and the second enemy face an obstruction; the first does not.
    w.boundary_tick(Some(2000), &vec![None, Some(1500)]);
    assert_eq!(w.player.yaw, (player_yaw + HALF_TURN) % FULL_TURN);
    assert_eq!(w.enemies[0].yaw, enemy_yaws[0]);
    assert_eq!(w.enemies[1].yaw, (enemy_yaws[1] + HALF_TURN) % FULL_TURN);
    assert_eq!(w.enemy_count, 2);
    assert_eq!(w.score, 0);
}

#[test]
fn player_force_points_opposite_heading() {
    let mut w = World::new();
    let f = w.player_tick(false, false, 16);
    assert_eq!(w.player.yaw, 0);
    assert_eq!(f, Force { heading: HALF_TURN, magnitude: 30 });
    // After steering, the force follows the new heading.
    let f = w.player_tick(true, false, 1000);
    assert_eq!(w.player.yaw, 300_000);
    assert_eq!(f, Force { heading: 800_000, magnitude: 30 });
}

#[test]
fn player_steering_rotates_by_rate_times_time() {
    let mut w = World::new();
    // 0.3 revolutions per second: one second turns 300000 micro-turns.
    w.player_tick(true, false, 1000);
    assert_eq!(w.player.yaw, 300_000);
    w.player_tick(true, false, 1000);
    assert_eq!(w.player.yaw, 600_000);
    // The right control turns the other way.
    w.player_tick(false, true, 2000);
    assert_eq!(w.player.yaw, 0);
    // Both controls held cancel out.
    w.player_tick(true, true, 500);
    assert_eq!(w.player.yaw, 0);
    // Wrap below zero.
    w.player_tick(false, true, 1000);
    assert_eq!(w.player.yaw, 700_000);
}

#[test]
fn enemy_tick_drives_and_turns_every_enemy() {
    let mut w = World::new();
    w.spawn_tick();
    w.spawn_tick();
    w.spawn_tick();
    let before: Vec<u32> = w.enemies.iter().map(|e| e.yaw).collect();
    let forces = w.enemy_tick(1000);
    assert_eq!(forces.len(), 3);
    for (i, f) in forces.iter().enumerate() {
        // The force is computed from the heading before the turn.
        assert_eq!(
            *f,
            Force { heading: (before[i] + HALF_TURN) % FULL_TURN, magnitude: 10 }
        );
        // The turn is one delta, to a freshly chosen side.
        let ccw = (before[i] + 300_000) % FULL_TURN;
        let cw = (before[i] + FULL_TURN - 300_000) % FULL_TURN;
        let after = w.enemies[i].yaw;
        assert!(after == ccw || after == cw);
    }
    assert_eq!(w.enemy_count, 3);
    assert_eq!(w.score, 0);
}

#[test]
fn drive_force_magnitude_follows_role_speed() {
    assert_eq!(drive_force(0, 30), Force { heading: HALF_TURN, magnitude: 30 });
    assert_eq!(drive_force(0, 10), Force { heading: HALF_TURN, magnitude: 10 });
    assert_eq!(
        drive_force(900_000, 10),
        Force { heading: 400_000, magnitude: 10 }
    );
}

#[test]
fn spawned_enemies_use_the_fixed_layout_and_variants() {
    // Would fail if random selection handed back positions or variants
    // outside the configured sets.
    let layout = spawn_layout();
    for _ in 0..40 {
        let mut w = World::new();
        let order = w.spawn_tick().unwrap();
        assert!(layout.contains(&order.pos));
        assert!(order.variant < 4);
        assert_eq!(w.enemies[0].pos, order.pos);
        assert_eq!(w.enemies[0].role, Role::Enemy);
        assert_eq!(w.enemies[0].yaw, 0);
    }
}

#[test]
fn score_never_decreases_over_a_session() {
    let mut w = World::new();
    let mut last_score = w.score;
    for round in 0..30 {
        w.spawn_tick();
        w.enemy_tick(16);
        w.player_tick(round % 2 == 0, round % 3 == 0, 16);
        let hits: Vec<Option<u32>> = w.enemies.iter().map(|_| Some(2000)).collect();
        w.boundary_tick(None, &hits);
        if round % 4 == 0 && !w.enemies.is_empty() {
            let target = w.enemies[0].id;
            w.process_collision(w.player.id, target);
        }
        assert!(w.score >= last_score);
        last_score = w.score;
        assert!(w.enemy_count <= ENEMY_CAP);
    }
    assert!(w.score > 0);
}
