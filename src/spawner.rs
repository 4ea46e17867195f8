use vstd::prelude::*;

use crate::collision::{Vec3i, UNIT};
use crate::entities::{fresh_enemy, fresh_player, new_enemy, new_player, Enemy, PLAYER_MARGIN};
use crate::timer::{Timer, TimerMode};
use crate::world::{clamp_i64, EnemySpawner, Viewport, World, WorldModel};

verus! {

/// Height of one row of enemies.
pub const ROW_HEIGHT: i64 = 100 * UNIT;

/// Horizontal distance between two columns of enemies.
pub const COLUMN_SPACING: i64 = 240 * UNIT;

/// Speed of the enemies, in units per second.
pub const ENEMY_SPEED: i64 = 360;

/// How far right of the viewport new enemies appear.
pub const SPAWN_MARGIN: i64 = 60 * UNIT;

/// The number of rows in a column: as many as fit the viewport's height,
/// and at least one.
pub open spec fn column_rows(height: i64, row_height: i64) -> int {
    if height / row_height >= 1 {
        height / row_height
    } else {
        1
    }
}

/// The vertical centre of row `r`, counted from the bottom edge.
pub open spec fn row_center(vp: Viewport, row_height: i64, r: int) -> int {
    -vp.half_height() + row_height * r + row_height / 2
}

/// The enemies of one column, with ids from `first_id` on.
pub open spec fn column(
    first_id: u64,
    count: int,
    sp: EnemySpawner,
    vp: Viewport,
) -> Seq<Enemy> {
    Seq::new(
        count as nat,
        |r: int|
            fresh_enemy(
                (first_id + r) as u64,
                Vec3i {
                    x: clamp_i64(vp.half_width() + sp.margin),
                    y: row_center(vp, sp.row_height, r) as i64,
                    z: 0,
                },
                sp.speed,
            ),
    )
}

/// The world after the spawn timer ticks: when an interval completed, a
/// column of enemies enters at the right edge, one per row, with the next
/// free ids (as many as are left).
pub open spec fn spawned(w: WorldModel, dt: u64, vp: Viewport) -> WorldModel {
    match w.spawner {
        Some(sp) => {
            let sp2 = EnemySpawner { timer: sp.timer.ticked(dt), ..sp };
            if sp2.timer.times_finished_this_tick == 0 {
                WorldModel { spawner: Some(sp2), ..w }
            } else {
                let rows = column_rows(vp.height, sp.row_height);
                let count = if rows <= u64::MAX - w.next_id {
                    rows
                } else {
                    u64::MAX - w.next_id
                };
                WorldModel {
                    spawner: Some(sp2),
                    enemies: w.enemies + column(w.next_id, count, sp, vp),
                    next_id: (w.next_id + count) as u64,
                    ..w
                }
            }
        },
        None => w,
    }
}

/// The spawner for columns `col_spacing` apart; see `EnemySpawner::new`.
pub open spec fn configured_spawner(row_height: i64, col_spacing: i64, speed: i64, margin: i64) -> Option<
    EnemySpawner,
> {
    if row_height > 0 && speed > 0 && margin >= 0 && col_spacing >= speed {
        Some(
            EnemySpawner {
                row_height,
                col_spacing,
                speed,
                margin,
                timer: Timer {
                    duration: (col_spacing / speed) as u64,
                    elapsed: 0,
                    mode: TimerMode::Repeating,
                    times_finished_this_tick: 0,
                },
            },
        )
    } else {
        None
    }
}

impl EnemySpawner {
    /// A spawner for columns `col_spacing` apart: its interval is the time
    /// the enemies take to cross that distance, so columns stay evenly
    /// spaced whatever the frame rate. Nothing when the row height or the
    /// speed is not positive, the margin is negative, or the interval would
    /// be shorter than a microsecond.
    pub fn new(row_height: i64, col_spacing: i64, speed: i64, margin: i64) -> (r: Option<
        EnemySpawner,
    >)
        ensures
            r == configured_spawner(row_height, col_spacing, speed, margin),
            r matches Some(s) ==> s.wf(),
    {
        if row_height > 0 && speed > 0 && margin >= 0 && col_spacing >= speed {
            let interval = col_spacing / speed;
            assert(interval >= 1) by {
                vstd::arithmetic::div_mod::lemma_div_is_ordered(speed as int, col_spacing as int, speed as int);
                vstd::arithmetic::div_mod::lemma_div_by_self(speed as int);
            }
            Some(
                EnemySpawner {
                    row_height,
                    col_spacing,
                    speed,
                    margin,
                    timer: Timer::new(interval as u64, TimerMode::Repeating),
                },
            )
        } else {
            None
        }
    }
}

/// The world as the game starts: the player at the left edge, vertically
/// centred, with id 0, and the enemy spawner.
pub open spec fn started(vp: Viewport) -> WorldModel {
    WorldModel {
        player: Some(
            fresh_player(0, Vec3i { x: (-vp.half_width() + PLAYER_MARGIN) as i64, y: 0, z: 0 }),
        ),
        bullets: Seq::empty(),
        enemies: Seq::empty(),
        spawner: configured_spawner(ROW_HEIGHT, COLUMN_SPACING, ENEMY_SPEED, SPAWN_MARGIN),
        next_id: 1,
    }
}

/// The world with every entity of the in-game mode removed.
pub open spec fn cleared(w: WorldModel) -> WorldModel {
    WorldModel {
        player: None,
        bullets: Seq::empty(),
        enemies: Seq::empty(),
        spawner: None,
        next_id: w.next_id,
    }
}

impl World {
    /// The world as the game starts: the player at the left edge, vertically
    /// centred, and the enemy spawner; the player has id 0.
    pub fn start(vp: Viewport) -> (r: World)
        requires
            vp.wf(),
        ensures
            r.wf(),
            r@ == started(vp),
    {
        let x = -(vp.width / 2) + PLAYER_MARGIN;
        let r = World {
            player: Some(new_player(0, Vec3i { x, y: 0, z: 0 })),
            bullets: Vec::new(),
            enemies: Vec::new(),
            spawner: EnemySpawner::new(ROW_HEIGHT, COLUMN_SPACING, ENEMY_SPEED, SPAWN_MARGIN),
            next_id: 1,
        };
        assert(r@.bullets =~= Seq::empty());
        assert(r@.enemies =~= Seq::empty());
        r
    }

    /// Removes every entity of the in-game mode.
    pub fn clear(&mut self)
        ensures
            final(self).wf(),
            final(self)@ == cleared(old(self)@),
    {
        self.player = None;
        self.bullets = Vec::new();
        self.enemies = Vec::new();
        self.spawner = None;
        assert(self@.bullets =~= Seq::empty());
        assert(self@.enemies =~= Seq::empty());
    }

    /// The spawner's frame; see `spawned`.
    pub fn enemy_spawn_system(&mut self, dt: u64, vp: Viewport)
        requires
            old(self).wf(),
            vp.wf(),
        ensures
            final(self).wf(),
            final(self)@ == spawned(old(self)@, dt, vp),
    {
        match self.spawner {
            Some(sp) => {
                let mut sp2 = sp;
                sp2.timer.tick(dt);
                self.spawner = Some(sp2);
                if sp2.timer.just_finished() {
                    let half_w = vp.width / 2;
                    let half_h = vp.height / 2;
                    let per_height = vp.height / sp.row_height;
                    let rows: u64 = if per_height >= 1 {
                        per_height as u64
                    } else {
                        1
                    };
                    let count: u64 = if rows <= u64::MAX - self.next_id {
                        rows
                    } else {
                        u64::MAX - self.next_id
                    };
                    let start_x: i64 = if half_w as i128 + sp.margin as i128 > i64::MAX as i128 {
                        i64::MAX
                    } else {
                        half_w + sp.margin
                    };
                    let first_id = self.next_id;
                    let ghost enemies0 = self.enemies@;
                    let ghost pre = self@;
                    let mut r: u64 = 0;
                    while r < count
                        invariant
                            r <= count,
                            count <= column_rows(vp.height, sp.row_height),
                            count <= u64::MAX - first_id,
                            rows == column_rows(vp.height, sp.row_height),
                            per_height == vp.height / sp.row_height,
                            half_h == vp.half_height(),
                            start_x == clamp_i64(vp.half_width() + sp.margin),
                            sp.wf(),
                            vp.wf(),
                            self.next_id == first_id + r,
                            self@ == (WorldModel {
                                enemies: self.enemies@,
                                next_id: self.next_id,
                                ..pre
                            }),
                            self.enemies@ =~= enemies0 + column(first_id, r as int, sp, vp),
                            forall|j: int| 0 <= j < self.enemies@.len() ==> #[trigger] self.enemies@[j].wf(),
                        decreases count - r,
                    {
                        proof {
                            let rh = sp.row_height as int;
                            let ph = (vp.height as int) / rh;
                            vstd::arithmetic::div_mod::lemma_fundamental_div_mod(vp.height as int, rh);
                            if ph >= 1 {
                                vstd::arithmetic::mul::lemma_mul_inequality(r + 1, ph, rh);
                                vstd::arithmetic::mul::lemma_mul_is_commutative(ph, rh);
                            }
                            vstd::arithmetic::mul::lemma_mul_is_distributive_add(rh, r as int, 1);
                            vstd::arithmetic::mul::lemma_mul_nonnegative(rh, r as int);
                        }
                        let y = -(half_h as i128) + (sp.row_height as i128) * (r as i128) + (
                        sp.row_height / 2) as i128;
                        let e = new_enemy(
                            first_id + r,
                            Vec3i { x: start_x, y: y as i64, z: 0 },
                            sp.speed,
                        );
                        self.enemies.push(e);
                        self.next_id = self.next_id + 1;
                        r = r + 1;
                    }
                }
            },
            None => {},
        }
    }
}

} // verus!
