use dragoon_flight::collision::Vec3i;
use dragoon_flight::entities::{new_bullet, new_enemy, new_player, FADE_DURATION};
use dragoon_flight::world::{FrameInput, Viewport, World};

const U: i64 = 1_000_000;

fn wide_view() -> Viewport {
    Viewport { width: 100_000 * U, height: 100_000 * U }
}

fn at(x: i64, y: i64) -> Vec3i {
    Vec3i { x: x * U, y: y * U, z: 0 }
}

#[test]
fn five_hits_kill_an_enemy_on_the_fifth() {
    let mut w = World::empty();
    w.enemies.push(new_enemy(1, at(0, 0), 0));
    let mut id = 10;
    for k in 1..=5u32 {
        w.bullets.push(new_bullet(id, at(0, 0)));
        id += 1;
        w.bullet_enemy_hit_system();
        assert!(w.bullets.is_empty());
        assert_eq!(w.enemies[0].health.current, 5 - k);
        if k < 5 {
            assert!(w.enemies[0].fade.is_none());
        } else {
            assert!(w.enemies[0].fade.is_some());
            assert_eq!(w.enemies[0].fade.unwrap().duration, FADE_DURATION);
        }
    }
}

#[test]
fn one_shot_counts_once_per_frame() {
    let mut w = World::empty();
    w.enemies.push(new_enemy(1, at(0, 0), 0));
    w.bullets.push(new_bullet(2, at(5, 0)));
    w.bullet_enemy_hit_system();
    w.bullet_enemy_hit_system();
    assert_eq!(w.enemies[0].health.current, 4);
    assert!(w.bullets.is_empty());
}

#[test]
fn shot_over_two_enemies_damages_only_the_first() {
    let mut w = World::empty();
    w.enemies.push(new_enemy(1, at(0, 0), 0));
    w.enemies.push(new_enemy(2, at(10, 0), 0));
    w.bullets.push(new_bullet(3, at(5, 0)));
    w.bullet_enemy_hit_system();
    assert_eq!(w.enemies[0].health.current, 4);
    assert_eq!(w.enemies[1].health.current, 5);
    assert!(w.bullets.is_empty());
}

#[test]
fn shot_out_of_reach_flies_on() {
    let mut w = World::empty();
    w.enemies.push(new_enemy(1, at(0, 0), 0));
    // 40 units is the sum of the radii: touching counts, one unit more does not.
    w.bullets.push(new_bullet(2, at(41, 0)));
    w.bullets.push(new_bullet(3, at(0, 40)));
    w.bullet_enemy_hit_system();
    assert_eq!(w.bullets.len(), 1);
    assert_eq!(w.bullets[0].id, 2);
    assert_eq!(w.enemies[0].health.current, 4);
}

#[test]
fn fading_enemy_is_not_hit_again() {
    let mut w = World::empty();
    w.enemies.push(new_enemy(1, at(0, 0), 0));
    for id in 10..15 {
        w.bullets.push(new_bullet(id, at(0, 0)));
        w.bullet_enemy_hit_system();
    }
    let fade = w.enemies[0].fade.unwrap();
    w.bullets.push(new_bullet(20, at(0, 0)));
    w.bullet_enemy_hit_system();
    assert_eq!(w.bullets.len(), 1);
    assert_eq!(w.enemies[0].health.current, 0);
    assert_eq!(w.enemies[0].fade.unwrap().elapsed, fade.elapsed);
}

#[test]
fn shot_is_removed_when_its_lifetime_ends() {
    let mut w = World::empty();
    w.bullets.push(new_bullet(1, at(0, 0)));
    let input = FrameInput { dt: 100_000, viewport: wide_view(), up: false, down: false };
    for frame in 1..20 {
        w.bullet_update_system(&input);
        assert_eq!(w.bullets.len(), 1);
        assert_eq!(w.bullets[0].transform.translation.x, 60 * frame * U);
    }
    w.bullet_update_system(&input);
    assert!(w.bullets.is_empty());
}

#[test]
fn shot_is_removed_past_the_viewport() {
    let mut w = World::empty();
    w.bullets.push(new_bullet(1, at(0, 0)));
    let view = Viewport { width: 200 * U, height: 200 * U };
    // Bounds are 100 + 80 units; 600 units/s for 0.3 s is 180, 0.4 s is 240.
    let input = FrameInput { dt: 300_000, viewport: view, up: false, down: false };
    w.bullet_update_system(&input);
    assert_eq!(w.bullets.len(), 1);
    let input = FrameInput { dt: 100_000, viewport: view, up: false, down: false };
    w.bullet_update_system(&input);
    assert!(w.bullets.is_empty());
}

#[test]
fn three_contacts_kill_the_player_then_game_over() {
    let mut w = World::empty();
    w.player = Some(new_player(0, at(0, 0)));
    let mut id = 1;
    for expected in [2u32, 1, 0] {
        w.enemies.push(new_enemy(id, at(0, 0), 0));
        id += 1;
        w.player_enemy_collision_system();
        assert!(w.enemies.is_empty());
        let p = w.player.unwrap();
        assert_eq!(p.health.current, expected);
        assert_eq!(p.fade.is_some(), expected == 0);
    }
    let fade = w.player.unwrap().fade.unwrap();
    assert_eq!(fade.duration, 400_000);
    assert!(!w.enemy_fadeout_system(399_999));
    assert!(w.player.is_some());
    let input = FrameInput { dt: 1, viewport: wide_view(), up: false, down: false };
    let next = w.step(&input);
    assert_eq!(next, Some(dragoon_flight::scene::SceneStatus::GameOver));
    assert!(w.player.is_none());
}

#[test]
fn every_touching_enemy_is_removed_even_after_the_last_hit_point() {
    let mut w = World::empty();
    let mut p = new_player(0, at(0, 0));
    p.health.current = 1;
    w.player = Some(p);
    w.enemies.push(new_enemy(1, at(0, 0), 0));
    w.enemies.push(new_enemy(2, at(0, 0), 0));
    w.enemies.push(new_enemy(3, at(50, 0), 0));
    w.player_enemy_collision_system();
    let p = w.player.unwrap();
    assert_eq!(p.health.current, 0);
    assert_eq!(p.fade.unwrap().elapsed, 0);
    assert_eq!(p.fade.unwrap().duration, FADE_DURATION);
    assert_eq!(w.enemies.len(), 1);
    assert_eq!(w.enemies[0].id, 3);
}

#[test]
fn fading_player_touches_nothing() {
    let mut w = World::empty();
    let mut p = new_player(0, at(0, 0));
    p.health.current = 1;
    w.player = Some(p);
    w.enemies.push(new_enemy(1, at(0, 0), 0));
    w.player_enemy_collision_system();
    let fading = w.player.unwrap();
    w.enemies.push(new_enemy(2, at(0, 0), 0));
    w.player_enemy_collision_system();
    assert_eq!(w.enemies.len(), 1);
    assert_eq!(w.player.unwrap().fade.unwrap().elapsed, fading.fade.unwrap().elapsed);
    assert_eq!(w.player.unwrap().health.current, 0);
}

#[test]
fn health_drops_by_one_per_contact_clamped_at_zero() {
    for (h, m, expected) in [(3u32, 1u64, 2u32), (3, 2, 1), (2, 4, 0), (3, 0, 3)] {
        let mut w = World::empty();
        let mut p = new_player(0, at(0, 0));
        p.health.current = h;
        w.player = Some(p);
        for id in 1..=m {
            w.enemies.push(new_enemy(id, at(0, 0), 0));
        }
        w.player_enemy_collision_system();
        let p = w.player.unwrap();
        assert_eq!(p.health.current, expected);
        assert_eq!(p.health.max, 3);
        assert!(w.enemies.is_empty());
    }
}

#[test]
fn second_shot_passes_an_enemy_that_just_started_fading() {
    let mut w = World::empty();
    let mut e = new_enemy(1, at(0, 0), 0);
    e.health.current = 1;
    w.enemies.push(e);
    w.bullets.push(new_bullet(2, at(0, 0)));
    w.bullets.push(new_bullet(3, at(0, 0)));
    w.bullet_enemy_hit_system();
    assert_eq!(w.enemies[0].health.current, 0);
    assert_eq!(w.enemies[0].fade.unwrap().elapsed, 0);
    assert_eq!(w.bullets.len(), 1);
    assert_eq!(w.bullets[0].id, 3);
}

#[test]
fn enemy_away_from_player_is_not_touched() {
    let mut w = World::empty();
    w.player = Some(new_player(0, at(0, 0)));
    // Unit half-extents: boxes meet up to 2 units apart.
    w.enemies.push(new_enemy(1, at(2, 0), 0));
    w.enemies.push(new_enemy(2, at(3, 0), 0));
    w.player_enemy_collision_system();
    assert_eq!(w.player.unwrap().health.current, 2);
    assert_eq!(w.enemies.len(), 1);
    assert_eq!(w.enemies[0].id, 2);
}

#[test]
fn enemy_fades_out_and_is_removed() {
    let mut w = World::empty();
    let mut e = new_enemy(1, at(0, 0), 0);
    e.health.current = 1;
    w.enemies.push(e);
    w.bullets.push(new_bullet(2, at(0, 0)));
    w.bullet_enemy_hit_system();
    assert!(!w.enemy_fadeout_system(200_000));
    assert_eq!(w.enemies[0].fade.unwrap().remaining_millionths(), 500_000);
    assert!(!w.enemy_fadeout_system(200_000));
    assert!(w.enemies.is_empty());
}

#[test]
fn despawning_twice_is_harmless() {
    let mut w = World::empty();
    w.player = Some(new_player(0, at(0, 0)));
    w.enemies.push(new_enemy(1, at(0, 0), 0));
    w.bullets.push(new_bullet(2, at(0, 0)));
    w.despawn(1);
    assert!(w.enemies.is_empty());
    w.despawn(1);
    assert!(w.enemies.is_empty());
    assert_eq!(w.bullets.len(), 1);
    assert!(w.player.is_some());
    w.despawn(0);
    w.despawn(0);
    assert!(w.player.is_none());
}
