use dragoon_flight::collision::{
    auto_collider_half_extents, auto_size_collider, check_box_collision, check_circle_collision,
    AutoSizeCollider, Body, Collider, CollisionCheck, Scale2, Transform, Vec2i, Vec3i,
};
use dragoon_flight::entities::{health_bar_width, new_enemy, new_player, Health};
use dragoon_flight::world::{
    auto_size_colliders_system, EnemySpawner, FrameInput, ImageSize, Viewport, World,
};

const U: i64 = 1_000_000;

fn body(x: i64, y: i64, half: i64, scale: i32) -> Body {
    Body {
        transform: Transform { translation: Vec3i { x: x * U, y: y * U, z: 0 }, scale: Scale2 { x: scale, y: scale } },
        collider: Collider { offset: Vec2i { x: 0, y: 0 }, scale: Vec2i { x: half * U, y: half * U } },
    }
}

#[test]
fn boxes_overlap_when_they_meet_on_both_axes() {
    let a = body(0, 0, 10, 1_000_000);
    assert!(check_box_collision(&a, &body(20, 0, 10, 1_000_000)));
    assert!(!check_box_collision(&a, &body(21, 0, 10, 1_000_000)));
    assert!(!check_box_collision(&a, &body(0, 21, 10, 1_000_000)));
    assert!(a.check_collision(&body(15, 15, 5, 1_000_000)));
}

#[test]
fn box_scale_grows_extents_and_offset() {
    let a = body(0, 0, 10, 1_000_000);
    // Twice the scale: half-extent 20 units.
    assert!(check_box_collision(&a, &body(30, 0, 10, 2_000_000)));
    let mut b = body(45, 0, 5, 2_000_000);
    assert!(!check_box_collision(&a, &b));
    // Offset of -20 units, doubled by the scale, centres the box at 5.
    b.collider.offset = Vec2i { x: -20 * U, y: 0 };
    assert!(check_box_collision(&a, &b));
}

#[test]
fn circles_touch_at_the_sum_of_radii() {
    let a = Vec2i { x: 0, y: 0 };
    assert!(check_circle_collision(a, 12, Vec2i { x: 24, y: 32 }, 28));
    assert!(!check_circle_collision(a, 12, Vec2i { x: 24, y: 33 }, 28));
    assert!(check_circle_collision(a, 0, a, 0));
}

#[test]
fn auto_size_follows_image_and_skips_empty_images() {
    let cfg = AutoSizeCollider { padding: Vec2i { x: 0, y: 0 }, multiplier: Scale2 { x: 500_000, y: 500_000 } };
    assert_eq!(
        auto_collider_half_extents(64, 32, Some(cfg)),
        Some(Vec2i { x: 16 * U, y: 8 * U })
    );
    assert_eq!(auto_collider_half_extents(64, 32, None), Some(Vec2i { x: 32 * U, y: 16 * U }));
    assert_eq!(auto_collider_half_extents(0, 32, None), None);
    let padded = AutoSizeCollider { padding: Vec2i { x: -20 * U, y: 2 * U }, ..AutoSizeCollider::default() };
    assert_eq!(auto_collider_half_extents(10, 10, Some(padded)), Some(Vec2i { x: 15 * U, y: 7 * U }));

    let mut c = Collider::unit();
    assert!(auto_size_collider(&mut c, 64, 32, Some(cfg)));
    assert_eq!(c.scale, Vec2i { x: 16 * U, y: 8 * U });
    assert!(!auto_size_collider(&mut c, 64, 32, Some(cfg)));
    assert!(!auto_size_collider(&mut c, 0, 0, Some(cfg)));
    assert_eq!(c.scale, Vec2i { x: 16 * U, y: 8 * U });
}

#[test]
fn health_bar_shrinks_with_health() {
    assert_eq!(health_bar_width(Health { current: 2, max: 3 }, 60), 40);
    assert_eq!(health_bar_width(Health { current: 3, max: 3 }, 60), 60);
    assert_eq!(health_bar_width(Health { current: 0, max: 0 }, 60), 0);
}

#[test]
fn spawner_interval_is_spacing_over_speed() {
    let s = EnemySpawner::new(100 * U, 240 * U, 360, 60 * U).unwrap();
    assert_eq!(s.timer.duration, 666_666);
    assert!(EnemySpawner::new(0, 240 * U, 360, 60 * U).is_none());
    assert!(EnemySpawner::new(100 * U, 240 * U, 0, 60 * U).is_none());
    assert!(EnemySpawner::new(100 * U, 10, 360, 60 * U).is_none());
}

#[test]
fn spawner_fills_every_row_at_the_right_edge() {
    let view = Viewport { width: 800 * U, height: 450 * U };
    let mut w = World::start(view);
    assert_eq!(w.next_id, 1);
    w.enemy_spawn_system(600_000, view);
    assert!(w.enemies.is_empty());
    w.enemy_spawn_system(66_666, view);
    assert_eq!(w.enemies.len(), 4);
    for (r, e) in w.enemies.iter().enumerate() {
        assert_eq!(e.id, 1 + r as u64);
        assert_eq!(e.transform.translation.x, 460 * U);
        assert_eq!(e.transform.translation.y, -225 * U + 100 * U * r as i64 + 50 * U);
        assert_eq!(e.velocity.x, 360);
        assert_eq!(e.velocity.y, 0);
        assert_eq!(e.health.current, 5);
    }
    assert_eq!(w.next_id, 5);
}

#[test]
fn short_viewport_still_gets_one_row() {
    let view = Viewport { width: 800 * U, height: 50 * U };
    let mut w = World::start(view);
    w.enemy_spawn_system(666_666, view);
    assert_eq!(w.enemies.len(), 1);
    assert_eq!(w.enemies[0].transform.translation.y, -25 * U + 50 * U);
}

#[test]
fn enemies_fly_left_and_leave_past_the_margin() {
    let view = Viewport { width: 200 * U, height: 200 * U };
    let mut w = World::empty();
    w.enemies.push(new_enemy(1, Vec3i { x: -100 * U, y: 0, z: 0 }, 360));
    w.enemy_update_system(100_000);
    assert_eq!(w.enemies[0].transform.translation.x, -136 * U);
    w.enemy_despawn_offscreen_system(view);
    assert_eq!(w.enemies.len(), 1);
    w.enemy_update_system(100_000);
    w.enemy_despawn_offscreen_system(view);
    assert!(w.enemies.is_empty());
}

#[test]
fn player_moves_vertically_within_margins() {
    let view = Viewport { width: 800 * U, height: 600 * U };
    let mut w = World::start(view);
    assert_eq!(w.player.unwrap().transform.translation.x, -340 * U);
    let up = FrameInput { dt: 500_000, viewport: view, up: true, down: false };
    w.player_move_system(&up);
    assert_eq!(w.player.unwrap().transform.translation.y, 150 * U);
    w.player_move_system(&up);
    assert_eq!(w.player.unwrap().transform.translation.y, 240 * U);
    let both = FrameInput { dt: 500_000, viewport: view, up: true, down: true };
    w.player_move_system(&both);
    assert_eq!(w.player.unwrap().transform.translation.y, 240 * U);
    let down = FrameInput { dt: 4_000_000, viewport: view, up: false, down: true };
    w.player_move_system(&down);
    assert_eq!(w.player.unwrap().transform.translation.y, -240 * U);
}

#[test]
fn player_fires_on_each_interval() {
    let mut w = World::empty();
    w.player = Some(new_player(0, Vec3i { x: -340 * U, y: 10 * U, z: 0 }));
    w.next_id = 1;
    w.player_auto_fire_system(100_000);
    assert!(w.bullets.is_empty());
    w.player_auto_fire_system(25_000);
    assert_eq!(w.bullets.len(), 1);
    let b = w.bullets[0];
    assert_eq!(b.id, 1);
    assert_eq!(b.transform.translation, Vec3i { x: -310 * U, y: 10 * U, z: 100_000 });
    assert_eq!(b.velocity.x, 600);
    assert_eq!(b.life.duration, 2_000_000);
    assert_eq!(w.next_id, 2);
}

#[test]
fn dying_player_stops_firing() {
    let mut w = World::empty();
    let mut p = new_player(0, Vec3i { x: 0, y: 0, z: 0 });
    for id in 1..=3 {
        w.enemies.push(new_enemy(id, Vec3i { x: 0, y: 0, z: 0 }, 0));
    }
    w.player = Some(p);
    w.player_enemy_collision_system();
    p = w.player.unwrap();
    assert!(p.fade.is_some());
    w.player_auto_fire_system(1_000_000);
    assert!(w.bullets.is_empty());
}

#[test]
fn clearing_the_world_removes_everything() {
    let view = Viewport { width: 800 * U, height: 450 * U };
    let mut w = World::start(view);
    w.enemy_spawn_system(666_666, view);
    w.clear();
    assert!(w.player.is_none());
    assert!(w.enemies.is_empty());
    assert!(w.bullets.is_empty());
    assert!(w.spawner.is_none());
}

#[test]
fn a_quiet_frame_moves_everything_once() {
    let view = Viewport { width: 800 * U, height: 600 * U };
    let mut w = World::start(view);
    let input = FrameInput { dt: 125_000, viewport: view, up: false, down: false };
    assert_eq!(w.step(&input), None);
    assert_eq!(w.bullets.len(), 1);
    assert_eq!(w.bullets[0].transform.translation.x, -310 * U + 75 * U);
    assert_eq!(w.player.unwrap().health.current, 3);
}

#[test]
fn colliders_follow_their_image_sizes() {
    let view = Viewport { width: 800 * U, height: 450 * U };
    let mut w = World::start(view);
    w.enemy_spawn_system(666_666, view);
    let sizes = vec![
        ImageSize { id: 0, width: 64, height: 48 },
        ImageSize { id: 2, width: 50, height: 40 },
        ImageSize { id: 3, width: 0, height: 40 },
        ImageSize { id: 77, width: 10, height: 10 },
    ];
    auto_size_colliders_system(&mut w, &sizes);
    // The player halves its image, the enemies take eight tenths of it.
    assert_eq!(w.player.unwrap().collider.scale, Vec2i { x: 16 * U, y: 12 * U });
    assert_eq!(w.enemies[1].collider.scale, Vec2i { x: 20 * U, y: 16 * U });
    assert_eq!(w.enemies[2].collider.scale, Vec2i { x: U, y: U });
    assert_eq!(w.enemies[0].collider.scale, Vec2i { x: U, y: U });
}
