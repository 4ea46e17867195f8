use vstd::prelude::*;

use crate::collision::{
    auto_size_collider, half_extents_for, transform_at, AutoSizeCollider, Collider, Transform, Vec3i,
};
use crate::entities::{
    new_bullet, Bullet, Enemy, Player, Velocity2D, BULLET_LIFETIME, BULLET_MARGIN,
    BULLET_SPEED, ENEMY_MARGIN, MUZZLE_X, MUZZLE_Z, PLAYER_MARGIN, PLAYER_SPEED,
};
use crate::timer::{Timer, TimerMode};

verus! {

/// The visible area, in micro-units, centred on the origin.
#[derive(Debug, Clone, Copy, PartialEq, Eq, Structural)]
pub struct Viewport {
    pub width: i64,
    pub height: i64,
}

/// What the platform hands the simulation for one frame: the time since the
/// last frame in microseconds, the viewport, and the steering keys held.
#[derive(Debug, Clone, Copy, PartialEq, Eq, Structural)]
pub struct FrameInput {
    pub dt: u64,
    pub viewport: Viewport,
    pub up: bool,
    pub down: bool,
}

/// Generates columns of enemies at the right edge, one row apart.
/// Lengths are in micro-units, `speed` in units per second.
#[derive(Debug, Clone, Copy)]
pub struct EnemySpawner {
    pub row_height: i64,
    pub col_spacing: i64,
    pub speed: i64,
    pub margin: i64,
    pub timer: Timer,
}

/// Everything the in-game mode simulates.
pub struct World {
    pub player: Option<Player>,
    pub bullets: Vec<Bullet>,
    pub enemies: Vec<Enemy>,
    pub spawner: Option<EnemySpawner>,
    pub next_id: u64,
}

/// The world as mathematical values.
pub struct WorldModel {
    pub player: Option<Player>,
    pub bullets: Seq<Bullet>,
    pub enemies: Seq<Enemy>,
    pub spawner: Option<EnemySpawner>,
    pub next_id: u64,
}

impl View for World {
    type V = WorldModel;

    open spec fn view(&self) -> WorldModel {
        WorldModel {
            player: self.player,
            bullets: self.bullets@,
            enemies: self.enemies@,
            spawner: self.spawner,
            next_id: self.next_id,
        }
    }
}

impl Viewport {
    pub open spec fn wf(self) -> bool {
        self.width >= 0 && self.height >= 0
    }

    pub open spec fn half_width(self) -> int {
        self.width / 2
    }

    pub open spec fn half_height(self) -> int {
        self.height / 2
    }
}

impl EnemySpawner {
    pub open spec fn wf(self) -> bool {
        &&& self.row_height > 0
        &&& self.speed >= 0
        &&& self.margin >= 0
        &&& self.timer.wf()
        &&& self.timer.mode == TimerMode::Repeating
    }
}

/// `v` if it fits in an `i64`, else the nearest end of the range.
pub open spec fn clamp_i64(v: int) -> i64 {
    if v > i64::MAX {
        i64::MAX
    } else if v < i64::MIN {
        i64::MIN
    } else {
        v as i64
    }
}

/// A coordinate after moving at `v` units per second for `dt` microseconds.
pub open spec fn moved(pos: i64, v: int, dt: u64) -> i64 {
    clamp_i64(pos + v * dt)
}

fn displace(pos: i64, v: i64, dt: u64, backwards: bool) -> (r: i64)
    ensures
        r == moved(pos, if backwards { -v } else { v as int }, dt),
{
    assert(-0x7fff_ffff_ffff_ffff_ffff_ffff_ffff_ffff <= v * dt <= 0x7fff_ffff_ffff_ffff_ffff_ffff_ffff_ffff)
        by (nonlinear_arith)
        requires
            i64::MIN <= v <= i64::MAX,
            0 <= dt <= u64::MAX,
    ;
    let d = (v as i128) * (dt as i128);
    let delta = if backwards {
        -d
    } else {
        d
    };
    proof {
        if backwards {
            assert(-v * dt == -(v * dt)) by (nonlinear_arith);
        }
    }
    if delta > (i64::MAX as i128) - (pos as i128) {
        i64::MAX
    } else if delta < (i64::MIN as i128) - (pos as i128) {
        i64::MIN
    } else {
        (pos as i128 + delta) as i64
    }
}

/// The player after steering: pinned to the left edge, moved up or down at
/// its speed, and kept between the top and bottom margins.
pub open spec fn player_moved(p: Player, input: FrameInput) -> Player {
    let vp = input.viewport;
    let dir: int = (if input.up { 1int } else { 0int }) - (if input.down { 1int } else { 0int });
    let y = moved(p.transform.translation.y, dir * PLAYER_SPEED, input.dt);
    let hi = vp.half_height() - PLAYER_MARGIN;
    let lo = -vp.half_height() + PLAYER_MARGIN;
    let y1 = if y > hi { hi } else { y as int };
    let y2 = if y1 < lo { lo } else { y1 };
    Player {
        transform: Transform {
            translation: Vec3i {
                x: (-vp.half_width() + PLAYER_MARGIN) as i64,
                y: y2 as i64,
                ..p.transform.translation
            },
            ..p.transform
        },
        ..p
    }
}

/// A shot after `dt` microseconds of flight.
pub open spec fn bullet_advanced(b: Bullet, dt: u64) -> Bullet {
    Bullet {
        transform: Transform {
            translation: Vec3i {
                x: moved(b.transform.translation.x, b.velocity.x as int, dt),
                y: moved(b.transform.translation.y, b.velocity.y as int, dt),
                ..b.transform.translation
            },
            ..b.transform
        },
        life: b.life.ticked(dt),
        ..b
    }
}

/// A shot is gone once it is past the viewport by more than the margin on
/// any side, or its lifetime has run out.
pub open spec fn bullet_expired(b: Bullet, vp: Viewport) -> bool {
    let x = b.transform.translation.x;
    let y = b.transform.translation.y;
    ||| x > vp.half_width() + BULLET_MARGIN
    ||| x < -vp.half_width() - BULLET_MARGIN
    ||| y > vp.half_height() + BULLET_MARGIN
    ||| y < -vp.half_height() - BULLET_MARGIN
    ||| b.life.is_finished()
}

/// A shot after a frame: moved and aged, or gone.
pub open spec fn bullet_after_frame(b: Bullet, dt: u64, vp: Viewport) -> Option<Bullet> {
    let moved = bullet_advanced(b, dt);
    if bullet_expired(moved, vp) {
        None
    } else {
        Some(moved)
    }
}

/// An enemy after `dt` microseconds of flight to the left.
pub open spec fn enemy_advanced(e: Enemy, dt: u64) -> Enemy {
    Enemy {
        transform: Transform {
            translation: Vec3i {
                x: moved(e.transform.translation.x, -e.velocity.x, dt),
                ..e.transform.translation
            },
            ..e.transform
        },
        ..e
    }
}

/// An enemy stays until it is past the left edge by more than the margin.
pub open spec fn enemy_on_screen(e: Enemy, vp: Viewport) -> bool {
    e.transform.translation.x >= -vp.half_width() - ENEMY_MARGIN
}

/// Whether an entity is not `id`.
pub open spec fn bullet_other_than(id: u64) -> spec_fn(Bullet) -> bool {
    |b: Bullet| b.id != id
}

/// Whether an entity is not `id`.
pub open spec fn enemy_other_than(id: u64) -> spec_fn(Enemy) -> bool {
    |e: Enemy| e.id != id
}

/// The world with entity `id` removed; the same world when there is none.
pub open spec fn despawned(w: WorldModel, id: u64) -> WorldModel {
    WorldModel {
        player: match w.player {
            Some(p) => if p.id == id {
                None
            } else {
                Some(p)
            },
            None => None,
        },
        bullets: w.bullets.filter(bullet_other_than(id)),
        enemies: w.enemies.filter(enemy_other_than(id)),
        ..w
    }
}

proof fn lemma_filter_twice<A>(s: Seq<A>, pred: spec_fn(A) -> bool)
    ensures
        s.filter(pred).filter(pred) == s.filter(pred),
    decreases s.len(),
{
    reveal(Seq::filter);
    if s.len() > 0 {
        lemma_filter_twice(s.drop_last(), pred);
        let f = s.drop_last().filter(pred);
        if pred(s.last()) {
            assert(s.filter(pred) == f.push(s.last()));
            assert(f.push(s.last()).drop_last() == f);
            assert(f.push(s.last()).last() == s.last());
            assert(f.push(s.last()).filter(pred) == f.filter(pred).push(s.last()));
        } else {
            assert(s.filter(pred) == f);
        }
    }
}

/// Removing an entity that is already gone changes nothing: removing the
/// same entity twice leaves the world as removing it once does.
pub proof fn lemma_despawn_idempotent(w: WorldModel, id: u64)
    ensures
        despawned(despawned(w, id), id) == despawned(w, id),
{
    lemma_filter_twice(w.bullets, bullet_other_than(id));
    lemma_filter_twice(w.enemies, enemy_other_than(id));
}

/// A new shot in front of the player at `at`.
pub open spec fn muzzle_bullet(id: u64, at: Vec3i) -> Bullet {
    Bullet {
        id,
        transform: transform_at(
            Vec3i { x: clamp_i64(at.x + MUZZLE_X), y: at.y, z: clamp_i64(at.z + MUZZLE_Z) },
        ),
        velocity: Velocity2D { x: BULLET_SPEED, y: 0 },
        life: Timer {
            duration: BULLET_LIFETIME,
            elapsed: 0,
            mode: TimerMode::Once,
            times_finished_this_tick: 0,
        },
    }
}

/// The world after the player's automatic fire: a player that is alive and
/// not fading ticks its fire timer and, when an interval completed, fires
/// one shot with the next free id. Once the ids have run out nothing more
/// is fired.
pub open spec fn fired(w: WorldModel, dt: u64) -> WorldModel {
    match w.player {
        Some(p) => if p.fade.is_none() {
            let p2 = Player { fire_timer: p.fire_timer.ticked(dt), ..p };
            if p2.fire_timer.times_finished_this_tick > 0 && w.next_id < u64::MAX {
                WorldModel {
                    player: Some(p2),
                    bullets: w.bullets.push(muzzle_bullet(w.next_id, p.transform.translation)),
                    next_id: (w.next_id + 1) as u64,
                    ..w
                }
            } else {
                WorldModel { player: Some(p2), ..w }
            }
        } else {
            w
        },
        None => w,
    }
}

/// The shots after a frame of flight, without those that left or expired.
pub open spec fn bullets_after_frame(bs: Seq<Bullet>, dt: u64, vp: Viewport) -> Seq<Bullet> {
    bs.filter_map(|b: Bullet| bullet_after_frame(b, dt, vp))
}

/// The enemies after a frame of flight.
pub open spec fn enemies_advanced(es: Seq<Enemy>, dt: u64) -> Seq<Enemy> {
    es.map_values(|e: Enemy| enemy_advanced(e, dt))
}

/// The enemies that are not yet past the left edge.
pub open spec fn enemies_on_screen(es: Seq<Enemy>, vp: Viewport) -> Seq<Enemy> {
    es.filter(|e: Enemy| enemy_on_screen(e, vp))
}

fn clamped_sum(a: i64, b: i64) -> (r: i64)
    ensures
        r == clamp_i64(a + b),
{
    let s = a as i128 + b as i128;
    if s > i64::MAX as i128 {
        i64::MAX
    } else if s < i64::MIN as i128 {
        i64::MIN
    } else {
        s as i64
    }
}

/// A collider fitted to a displayed image of `width` by `height` pixels
/// under the sizing rule `cfg`; unchanged for a zero-sized image.
pub open spec fn fitted(c: Collider, width: u32, height: u32, cfg: AutoSizeCollider) -> Collider {
    match half_extents_for(width, height, Some(cfg)) {
        Some(h) => Collider { scale: h, ..c },
        None => c,
    }
}

/// The enemies after fitting the collider of enemy `id`.
pub open spec fn enemies_fitted(es: Seq<Enemy>, id: u64, width: u32, height: u32) -> Seq<Enemy> {
    es.map_values(
        |e: Enemy|
            if e.id == id {
                Enemy { collider: fitted(e.collider, width, height, e.auto_size), ..e }
            } else {
                e
            },
    )
}

/// The world after fitting the collider of entity `id` (the player or an
/// enemy) to its displayed image.
pub open spec fn world_fitted(w: WorldModel, id: u64, width: u32, height: u32) -> WorldModel {
    WorldModel {
        player: match w.player {
            Some(p) => if p.id == id {
                Some(Player { collider: fitted(p.collider, width, height, p.auto_size), ..p })
            } else {
                Some(p)
            },
            None => None,
        },
        enemies: enemies_fitted(w.enemies, id, width, height),
        ..w
    }
}

/// The displayed size of one entity's image: its id, width and height.
#[derive(Debug, Clone, Copy, PartialEq, Eq, Structural)]
pub struct ImageSize {
    pub id: u64,
    pub width: u32,
    pub height: u32,
}

/// The world after fitting colliders to a list of displayed sizes, in order.
pub open spec fn world_sized(w: WorldModel, sizes: Seq<ImageSize>) -> WorldModel
    decreases sizes.len(),
{
    if sizes.len() == 0 {
        w
    } else {
        let s = sizes.last();
        world_fitted(world_sized(w, sizes.drop_last()), s.id, s.width, s.height)
    }
}

/// Fits the colliders of the player and the enemies to the sizes their
/// images are displayed at; see `World::fit_collider_to_image`.
pub fn auto_size_colliders_system(world: &mut World, sizes: &Vec<ImageSize>)
    requires
        old(world).wf(),
    ensures
        final(world).wf(),
        final(world)@ == world_sized(old(world)@, sizes@),
{
    let n = sizes.len();
    for i in 0..n
        invariant
            n == sizes@.len(),
            world.wf(),
            world@ == world_sized(old(world)@, sizes@.subrange(0, i as int)),
    {
        let s = sizes[i];
        proof {
            let t = sizes@.subrange(0, i + 1);
            assert(t.drop_last() == sizes@.subrange(0, i as int));
            assert(t.last() == s);
        }
        world.fit_collider_to_image(s.id, s.width, s.height);
    }
    assert(sizes@.subrange(0, n as int) == sizes@);
}

/// The world with no entities and no spawner.
pub open spec fn empty_world() -> WorldModel {
    WorldModel {
        player: None,
        bullets: Seq::empty(),
        enemies: Seq::empty(),
        spawner: None,
        next_id: 0,
    }
}

impl World {
    pub open spec fn wf(&self) -> bool {
        &&& self.player matches Some(p) ==> p.wf()
        &&& forall|i: int| 0 <= i < self.bullets@.len() ==> #[trigger] self.bullets@[i].wf()
        &&& forall|i: int| 0 <= i < self.enemies@.len() ==> #[trigger] self.enemies@[i].wf()
        &&& self.spawner matches Some(s) ==> s.wf()
    }

    /// A world with nothing in it.
    pub fn empty() -> (r: World)
        ensures
            r.wf(),
            r@ == empty_world(),
    {
        let r = World {
            player: None,
            bullets: Vec::new(),
            enemies: Vec::new(),
            spawner: None,
            next_id: 0,
        };
        assert(r@.bullets =~= Seq::empty());
        assert(r@.enemies =~= Seq::empty());
        r
    }

    /// Steers the player: pinned to the left edge, moved up while `up` is
    /// held and down while `down` is held, kept inside the vertical margins.
    pub fn player_move_system(&mut self, input: &FrameInput)
        requires
            old(self).wf(),
            input.viewport.wf(),
        ensures
            final(self).wf(),
            final(self)@ == (WorldModel {
                player: match old(self)@.player {
                    Some(p) => Some(player_moved(p, *input)),
                    None => None,
                },
                ..old(self)@
            }),
    {
        match self.player {
            Some(p) => {
                let half_w = input.viewport.width / 2;
                let half_h = input.viewport.height / 2;
                let dir: i64 = (if input.up {
                    1i64
                } else {
                    0i64
                }) - (if input.down {
                    1i64
                } else {
                    0i64
                });
                let y = displace(p.transform.translation.y, dir * PLAYER_SPEED, input.dt, false);
                let hi = half_h - PLAYER_MARGIN;
                let lo = -half_h + PLAYER_MARGIN;
                let y1 = if y > hi {
                    hi
                } else {
                    y
                };
                let y2 = if y1 < lo {
                    lo
                } else {
                    y1
                };
                let mut q = p;
                q.transform.translation.x = -half_w + PLAYER_MARGIN;
                q.transform.translation.y = y2;
                self.player = Some(q);
            },
            None => {},
        }
    }

    /// The player's automatic fire; see `fired`.
    pub fn player_auto_fire_system(&mut self, dt: u64)
        requires
            old(self).wf(),
        ensures
            final(self).wf(),
            final(self)@ == fired(old(self)@, dt),
    {
        match self.player {
            Some(p) => {
                if p.fade.is_none() {
                    let mut q = p;
                    q.fire_timer.tick(dt);
                    if q.fire_timer.just_finished() && self.next_id < u64::MAX {
                        let at = p.transform.translation;
                        let muzzle = Vec3i {
                            x: clamped_sum(at.x, MUZZLE_X),
                            y: at.y,
                            z: clamped_sum(at.z, MUZZLE_Z),
                        };
                        let b = new_bullet(self.next_id, muzzle);
                        self.bullets.push(b);
                        self.next_id = self.next_id + 1;
                    }
                    self.player = Some(q);
                }
            },
            None => {},
        }
    }

    /// Moves and ages every shot, and removes those that left the viewport
    /// by more than the margin or whose lifetime ran out.
    pub fn bullet_update_system(&mut self, input: &FrameInput)
        requires
            old(self).wf(),
            input.viewport.wf(),
        ensures
            final(self).wf(),
            final(self)@ == (WorldModel {
                bullets: bullets_after_frame(old(self)@.bullets, input.dt, input.viewport),
                ..old(self)@
            }),
    {
        let vp = input.viewport;
        let half_w = vp.width / 2;
        let half_h = vp.height / 2;
        let mut kept: Vec<Bullet> = Vec::new();
        let n = self.bullets.len();
        let ghost f = |b: Bullet| bullet_after_frame(b, input.dt, vp);
        for i in 0..n
            invariant
                n == self.bullets@.len(),
                f == (|b: Bullet| bullet_after_frame(b, input.dt, vp)),
                half_w == vp.width / 2,
                half_h == vp.height / 2,
                kept@ == self.bullets@.subrange(0, i as int).filter_map(f),
                forall|j: int| 0 <= j < self.bullets@.len() ==> #[trigger] self.bullets@[j].wf(),
                forall|j: int| 0 <= j < kept@.len() ==> #[trigger] kept@[j].wf(),
        {
            let b = self.bullets[i];
            assert(b == self.bullets@[i as int]);
            assert(b.wf());
            let mut m = b;
            m.transform.translation.x = displace(b.transform.translation.x, b.velocity.x, input.dt, false);
            m.transform.translation.y = displace(b.transform.translation.y, b.velocity.y, input.dt, false);
            m.life.tick(input.dt);
            let x = m.transform.translation.x;
            let y = m.transform.translation.y;
            let gone = x > half_w + BULLET_MARGIN || x < -half_w - BULLET_MARGIN || y > half_h
                + BULLET_MARGIN || y < -half_h - BULLET_MARGIN || m.life.finished();
            proof {
                let s = self.bullets@.subrange(0, i + 1);
                assert(s.drop_last() == self.bullets@.subrange(0, i as int));
                assert(s.last() == b);
                assert(m == bullet_advanced(b, input.dt));
            }
            if !gone {
                kept.push(m);
            }
        }
        assert(self.bullets@.subrange(0, n as int) == self.bullets@);
        self.bullets = kept;
    }

    /// Moves every enemy left at its speed.
    pub fn enemy_update_system(&mut self, dt: u64)
        requires
            old(self).wf(),
        ensures
            final(self).wf(),
            final(self)@ == (WorldModel {
                enemies: enemies_advanced(old(self)@.enemies, dt),
                ..old(self)@
            }),
    {
        let n = self.enemies.len();
        let ghost before = self.enemies@;
        for i in 0..n
            invariant
                n == self.enemies@.len(),
                before.len() == n,
                self@ == (WorldModel { enemies: self.enemies@, ..old(self)@ }),
                forall|j: int| 0 <= j < i ==> #[trigger] self.enemies@[j] == enemy_advanced(before[j], dt),
                forall|j: int| i <= j < n ==> #[trigger] self.enemies@[j] == before[j],
                forall|j: int| 0 <= j < n ==> #[trigger] before[j].wf(),
        {
            let e = self.enemies[i];
            let mut m = e;
            m.transform.translation.x = displace(e.transform.translation.x, e.velocity.x, dt, true);
            self.enemies.set(i, m);
        }
        assert(self.enemies@ =~= enemies_advanced(before, dt));
        assert forall|j: int| 0 <= j < self.enemies@.len() implies #[trigger] self.enemies@[j].wf() by {
            assert(self.enemies@[j] == enemy_advanced(before[j], dt));
            assert(before[j].wf());
        }
    }

    /// Removes the enemies that moved past the left edge by more than the
    /// margin.
    pub fn enemy_despawn_offscreen_system(&mut self, vp: Viewport)
        requires
            old(self).wf(),
            vp.wf(),
        ensures
            final(self).wf(),
            final(self)@ == (WorldModel {
                enemies: enemies_on_screen(old(self)@.enemies, vp),
                ..old(self)@
            }),
    {
        let limit = -(vp.width / 2) - ENEMY_MARGIN;
        let mut kept: Vec<Enemy> = Vec::new();
        let n = self.enemies.len();
        let ghost pred = |e: Enemy| enemy_on_screen(e, vp);
        for i in 0..n
            invariant
                n == self.enemies@.len(),
                pred == (|e: Enemy| enemy_on_screen(e, vp)),
                limit == -(vp.width / 2) - ENEMY_MARGIN,
                kept@ == self.enemies@.subrange(0, i as int).filter(pred),
                forall|j: int| 0 <= j < self.enemies@.len() ==> #[trigger] self.enemies@[j].wf(),
                forall|j: int| 0 <= j < kept@.len() ==> #[trigger] kept@[j].wf(),
        {
            let e = self.enemies[i];
            proof {
                reveal(Seq::filter);
                let s = self.enemies@.subrange(0, i + 1);
                assert(s.drop_last() == self.enemies@.subrange(0, i as int));
                assert(s.last() == e);
            }
            if e.transform.translation.x >= limit {
                kept.push(e);
            }
        }
        assert(self.enemies@.subrange(0, n as int) == self.enemies@);
        self.enemies = kept;
    }

    /// Fits the collider of entity `id` (the player or an enemy) to its
    /// displayed image of `width` by `height` pixels, under that entity's own
    /// sizing rule. A zero-sized image, such as one not loaded yet, leaves
    /// the collider as it was.
    pub fn fit_collider_to_image(&mut self, id: u64, width: u32, height: u32)
        requires
            old(self).wf(),
        ensures
            final(self).wf(),
            final(self)@ == world_fitted(old(self)@, id, width, height),
    {
        match self.player {
            Some(p) => {
                if p.id == id {
                    let mut q = p;
                    auto_size_collider(&mut q.collider, width, height, Some(p.auto_size));
                    self.player = Some(q);
                }
            },
            None => {},
        }
        let n = self.enemies.len();
        let ghost before = self.enemies@;
        let ghost pre = self@;
        for i in 0..n
            invariant
                n == self.enemies@.len(),
                before.len() == n,
                self@ == (WorldModel { enemies: self.enemies@, ..pre }),
                forall|j: int|
                    0 <= j < i ==> #[trigger] self.enemies@[j] == (if before[j].id == id {
                        Enemy {
                            collider: fitted(before[j].collider, width, height, before[j].auto_size),
                            ..before[j]
                        }
                    } else {
                        before[j]
                    }),
                forall|j: int| i <= j < n ==> #[trigger] self.enemies@[j] == before[j],
                forall|j: int| 0 <= j < n ==> #[trigger] before[j].wf(),
        {
            let e = self.enemies[i];
            if e.id == id {
                let mut m = e;
                auto_size_collider(&mut m.collider, width, height, Some(e.auto_size));
                self.enemies.set(i, m);
            }
        }
        assert(self.enemies@ =~= enemies_fitted(before, id, width, height));
        assert forall|j: int| 0 <= j < self.enemies@.len() implies #[trigger] self.enemies@[j].wf() by {
            assert(before[j].wf());
        }
    }

    /// Removes entity `id`, if it is still there.
    pub fn despawn(&mut self, id: u64)
        requires
            old(self).wf(),
        ensures
            final(self).wf(),
            final(self)@ == despawned(old(self)@, id),
    {
        match self.player {
            Some(p) => {
                if p.id == id {
                    self.player = None;
                }
            },
            None => {},
        }
        let mut bullets: Vec<Bullet> = Vec::new();
        let n = self.bullets.len();
        for i in 0..n
            invariant
                n == self.bullets@.len(),
                bullets@ == self.bullets@.subrange(0, i as int).filter(bullet_other_than(id)),
                forall|j: int| 0 <= j < self.bullets@.len() ==> #[trigger] self.bullets@[j].wf(),
                forall|j: int| 0 <= j < bullets@.len() ==> #[trigger] bullets@[j].wf(),
        {
            let b = self.bullets[i];
            assert(self.bullets@.subrange(0, i + 1).drop_last() == self.bullets@.subrange(
                0,
                i as int,
            ));
            proof {
                reveal(Seq::filter);
                let s = self.bullets@.subrange(0, i + 1);
                assert(s.last() == b);
                assert(s.filter(bullet_other_than(id)) == if b.id != id {
                    s.drop_last().filter(bullet_other_than(id)).push(b)
                } else {
                    s.drop_last().filter(bullet_other_than(id))
                });
            }
            if b.id != id {
                bullets.push(b);
            }
        }
        assert(self.bullets@.subrange(0, n as int) == self.bullets@);
        let mut enemies: Vec<Enemy> = Vec::new();
        let m = self.enemies.len();
        for i in 0..m
            invariant
                m == self.enemies@.len(),
                enemies@ == self.enemies@.subrange(0, i as int).filter(enemy_other_than(id)),
                forall|j: int| 0 <= j < self.enemies@.len() ==> #[trigger] self.enemies@[j].wf(),
                forall|j: int| 0 <= j < enemies@.len() ==> #[trigger] enemies@[j].wf(),
        {
            let e = self.enemies[i];
            assert(self.enemies@.subrange(0, i + 1).drop_last() == self.enemies@.subrange(
                0,
                i as int,
            ));
            proof {
                reveal(Seq::filter);
                let s = self.enemies@.subrange(0, i + 1);
                assert(s.last() == e);
                assert(s.filter(enemy_other_than(id)) == if e.id != id {
                    s.drop_last().filter(enemy_other_than(id)).push(e)
                } else {
                    s.drop_last().filter(enemy_other_than(id))
                });
            }
            if e.id != id {
                enemies.push(e);
            }
        }
        assert(self.enemies@.subrange(0, m as int) == self.enemies@);
        self.bullets = bullets;
        self.enemies = enemies;
    }
}

} // verus!
