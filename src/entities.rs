use vstd::prelude::*;

use crate::collision::{
    transform_at, unit_collider, AutoSizeCollider, Body, Collider, Scale2, Transform, Vec2i, Vec3i,
    UNIT,
};
use crate::timer::{Timer, TimerMode};

verus! {

/// Distance kept between the player and the left, top and bottom edges.
pub const PLAYER_MARGIN: i64 = 60 * UNIT;

/// Vertical speed of the player, in units per second.
pub const PLAYER_SPEED: i64 = 300;

/// Hit points the player starts with.
pub const PLAYER_HEALTH: u32 = 3;

/// Time between two shots of the player's automatic fire, in microseconds.
pub const FIRE_INTERVAL: u64 = 125_000;

/// Where a shot appears, relative to the player.
pub const MUZZLE_X: i64 = 30 * UNIT;

/// Draw order of a shot, above the player.
pub const MUZZLE_Z: i64 = 100_000;

/// Horizontal speed of a shot, in units per second.
pub const BULLET_SPEED: i64 = 600;

/// How long a shot lives, in microseconds.
pub const BULLET_LIFETIME: u64 = 2_000_000;

/// How far past the viewport a shot may fly before it is removed.
pub const BULLET_MARGIN: i64 = 80 * UNIT;

/// Radius of a shot in the circle test against enemies.
pub const BULLET_RADIUS: u32 = 12_000_000;

/// Radius of an enemy in the circle test against shots.
pub const ENEMY_RADIUS: u32 = 28_000_000;

/// How far past the left edge an enemy may move before it is removed.
pub const ENEMY_MARGIN: i64 = 60 * UNIT;

/// Hit points an enemy starts with.
pub const ENEMY_HEALTH: u32 = 5;

/// How long a dying entity takes to fade out, in microseconds.
pub const FADE_DURATION: u64 = 400_000;

/// Current and maximum hit points.
#[derive(Debug, Clone, Copy, PartialEq, Eq, Structural)]
pub struct Health {
    pub current: u32,
    pub max: u32,
}

/// Speed per axis, in units per second.
#[derive(Debug, Clone, Copy, PartialEq, Eq, Structural)]
pub struct Velocity2D {
    pub x: i64,
    pub y: i64,
}

/// Change of speed per axis, in units per second squared.
#[derive(Debug, Clone, Copy, PartialEq, Eq, Structural)]
pub struct Acceleration2D {
    pub x: i64,
    pub y: i64,
}

/// The unit the player steers.
#[derive(Debug, Clone, Copy)]
pub struct Player {
    pub id: u64,
    pub transform: Transform,
    pub collider: Collider,
    pub auto_size: AutoSizeCollider,
    pub health: Health,
    pub fire_timer: Timer,
    pub fade: Option<Timer>,
}

/// A shot fired by the player.
#[derive(Debug, Clone, Copy)]
pub struct Bullet {
    pub id: u64,
    pub transform: Transform,
    pub velocity: Velocity2D,
    pub life: Timer,
}

/// An enemy flying in from the right.
#[derive(Debug, Clone, Copy)]
pub struct Enemy {
    pub id: u64,
    pub transform: Transform,
    pub velocity: Velocity2D,
    pub collider: Collider,
    pub auto_size: AutoSizeCollider,
    pub health: Health,
    pub fade: Option<Timer>,
}

impl Health {
    pub open spec fn wf(self) -> bool {
        self.current <= self.max
    }

    /// Hit points after one hit: one less, but never below zero.
    pub open spec fn hit(self) -> Health {
        Health { current: if self.current > 0 { (self.current - 1) as u32 } else { 0 }, ..self }
    }

    /// Full health of `max` hit points.
    pub fn full(max: u32) -> (r: Health)
        ensures
            r.wf(),
            r == (Health { current: max, max }),
    {
        Health { current: max, max }
    }

    /// Takes one hit point away, stopping at zero.
    pub fn take_hit(&mut self)
        ensures
            *final(self) == old(self).hit(),
    {
        if self.current > 0 {
            self.current = self.current - 1;
        }
    }
}

/// A fresh fade-out timer.
pub open spec fn fresh_fade() -> Timer {
    Timer {
        duration: FADE_DURATION,
        elapsed: 0,
        mode: TimerMode::Once,
        times_finished_this_tick: 0,
    }
}

impl Player {
    pub open spec fn wf(self) -> bool {
        &&& self.health.wf()
        &&& self.fire_timer.wf()
        &&& self.fire_timer.mode == TimerMode::Repeating
        &&& self.health.current == 0 <==> self.fade.is_some()
        &&& self.fade matches Some(f) ==> f.wf() && f.mode == TimerMode::Once
    }

    pub open spec fn body(self) -> Body {
        Body { transform: self.transform, collider: self.collider }
    }

    /// The player after one contact with an enemy: one hit point less, and a
    /// fade-out started when that was the last one.
    pub open spec fn after_contact(self) -> Player {
        let health = self.health.hit();
        Player {
            health,
            fade: if health.current == 0 && self.fade.is_none() {
                Some(fresh_fade())
            } else {
                self.fade
            },
            ..self
        }
    }
}

impl Enemy {
    pub open spec fn wf(self) -> bool {
        &&& self.health.wf()
        &&& self.health.current == 0 <==> self.fade.is_some()
        &&& self.fade matches Some(f) ==> f.wf() && f.mode == TimerMode::Once
    }

    pub open spec fn body(self) -> Body {
        Body { transform: self.transform, collider: self.collider }
    }

    pub open spec fn center(self) -> Vec2i {
        Vec2i { x: self.transform.translation.x, y: self.transform.translation.y }
    }

    /// The enemy after one hit by a shot: one hit point less, and a fade-out
    /// started when that was the last one.
    pub open spec fn after_hit(self) -> Enemy {
        let health = self.health.hit();
        Enemy {
            health,
            fade: if health.current == 0 && self.fade.is_none() {
                Some(fresh_fade())
            } else {
                self.fade
            },
            ..self
        }
    }

    /// Applies one hit by a shot.
    pub fn take_hit(&mut self)
        requires
            old(self).wf(),
        ensures
            final(self).wf(),
            *final(self) == old(self).after_hit(),
    {
        self.health.take_hit();
        if self.health.current == 0 && self.fade.is_none() {
            self.fade = Some(Timer::new(FADE_DURATION, TimerMode::Once));
        }
    }
}

impl Player {
    /// Applies one contact with an enemy.
    pub fn take_contact(&mut self)
        requires
            old(self).wf(),
        ensures
            final(self).wf(),
            *final(self) == old(self).after_contact(),
    {
        self.health.take_hit();
        if self.health.current == 0 && self.fade.is_none() {
            self.fade = Some(Timer::new(FADE_DURATION, TimerMode::Once));
        }
    }
}

impl Bullet {
    pub open spec fn wf(self) -> bool {
        self.life.wf() && self.life.mode == TimerMode::Once
    }

    pub open spec fn center(self) -> Vec2i {
        Vec2i { x: self.transform.translation.x, y: self.transform.translation.y }
    }
}

/// A fresh enemy at `translation`, flying left at `speed` units per second.
pub open spec fn fresh_enemy(id: u64, translation: Vec3i, speed: i64) -> Enemy {
    Enemy {
        id,
        transform: transform_at(translation),
        velocity: Velocity2D { x: speed, y: 0 },
        collider: unit_collider(),
        auto_size: AutoSizeCollider {
            padding: Vec2i { x: 0, y: 0 },
            multiplier: Scale2 { x: 800_000, y: 800_000 },
        },
        health: Health { current: ENEMY_HEALTH, max: ENEMY_HEALTH },
        fade: None,
    }
}

/// See `fresh_enemy`.
pub fn new_enemy(id: u64, translation: Vec3i, speed: i64) -> (r: Enemy)
    ensures
        r.wf(),
        r == fresh_enemy(id, translation, speed),
{
    Enemy {
        id,
        transform: Transform::at(translation),
        velocity: Velocity2D { x: speed, y: 0 },
        collider: Collider::unit(),
        auto_size: AutoSizeCollider {
            padding: Vec2i { x: 0, y: 0 },
            multiplier: Scale2 { x: 800_000, y: 800_000 },
        },
        health: Health::full(ENEMY_HEALTH),
        fade: None,
    }
}

/// A fresh player at `translation`, at full health and not yet firing.
pub open spec fn fresh_player(id: u64, translation: Vec3i) -> Player {
    Player {
        id,
        transform: transform_at(translation),
        collider: unit_collider(),
        auto_size: AutoSizeCollider {
            padding: Vec2i { x: 0, y: 0 },
            multiplier: Scale2 { x: 500_000, y: 500_000 },
        },
        health: Health { current: PLAYER_HEALTH, max: PLAYER_HEALTH },
        fire_timer: Timer {
            duration: FIRE_INTERVAL,
            elapsed: 0,
            mode: TimerMode::Repeating,
            times_finished_this_tick: 0,
        },
        fade: None,
    }
}

/// See `fresh_player`.
pub fn new_player(id: u64, translation: Vec3i) -> (r: Player)
    ensures
        r.wf(),
        r == fresh_player(id, translation),
{
    Player {
        id,
        transform: Transform::at(translation),
        collider: Collider::unit(),
        auto_size: AutoSizeCollider {
            padding: Vec2i { x: 0, y: 0 },
            multiplier: Scale2 { x: 500_000, y: 500_000 },
        },
        health: Health::full(PLAYER_HEALTH),
        fire_timer: Timer::new(FIRE_INTERVAL, TimerMode::Repeating),
        fade: None,
    }
}

/// A new shot at `translation`, flying right.
pub fn new_bullet(id: u64, translation: Vec3i) -> (r: Bullet)
    ensures
        r.wf(),
        r.id == id,
        r.transform == transform_at(translation),
        r.velocity == (Velocity2D { x: BULLET_SPEED, y: 0 }),
        r.life == (Timer {
            duration: BULLET_LIFETIME,
            elapsed: 0,
            mode: TimerMode::Once,
            times_finished_this_tick: 0,
        }),
{
    Bullet {
        id,
        transform: Transform::at(translation),
        velocity: Velocity2D { x: BULLET_SPEED, y: 0 },
        life: Timer::new(BULLET_LIFETIME, TimerMode::Once),
    }
}

/// The width of a health bar's filled part: `max_width` times the share of
/// hit points left, rounded down; an empty bar when `max` is zero.
pub fn health_bar_width(health: Health, max_width: u64) -> (r: u64)
    requires
        health.wf(),
    ensures
        r == if health.max == 0 {
            0
        } else {
            max_width * health.current / (health.max as int)
        },
        r <= max_width,
{
    if health.max == 0 {
        0
    } else {
        assert((max_width as int) * (health.current as int) <= 0x1_0000_0000_0000_0000_0000_0000)
            by (nonlinear_arith)
            requires
                max_width <= u64::MAX,
                health.current <= u32::MAX,
        ;
        let w = (max_width as u128) * (health.current as u128) / (health.max as u128);
        proof {
            vstd::arithmetic::mul::lemma_mul_inequality(
                health.current as int,
                health.max as int,
                max_width as int,
            );
            vstd::arithmetic::mul::lemma_mul_is_commutative(max_width as int, health.current as int);
            vstd::arithmetic::mul::lemma_mul_is_commutative(max_width as int, health.max as int);
            vstd::arithmetic::div_mod::lemma_div_is_ordered(
                max_width * health.current,
                max_width * health.max,
                health.max as int,
            );
            vstd::arithmetic::div_mod::lemma_div_multiples_vanish(max_width as int, health.max as int);
        }
        w as u64
    }
}

} // verus!
