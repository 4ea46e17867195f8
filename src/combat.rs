use vstd::prelude::*;

use crate::collision::{
    boxes_overlap, check_box_collision, check_circle_collision, circles_overlap, Body,
};
use crate::entities::{fresh_fade, Bullet, Enemy, Player, BULLET_RADIUS, ENEMY_RADIUS};
use crate::world::{World, WorldModel};

verus! {

/// A shot can hit an enemy that is not fading and whose circle it touches.
pub open spec fn hittable(b: Bullet, e: Enemy) -> bool {
    e.fade.is_none() && circles_overlap(b.center(), BULLET_RADIUS, e.center(), ENEMY_RADIUS)
}

/// The index of the first enemy, in order, that the shot can hit.
pub open spec fn first_hit(b: Bullet, es: Seq<Enemy>) -> Option<int>
    decreases es.len(),
{
    if es.len() == 0 {
        None
    } else {
        match first_hit(b, es.drop_last()) {
            Some(j) => Some(j),
            None => if hittable(b, es.last()) {
                Some(es.len() - 1)
            } else {
                None
            },
        }
    }
}

/// One shot against the enemies: whether the shot survives, and the enemies
/// afterwards. Only the first enemy it can hit takes the hit.
pub open spec fn shot_resolved(b: Bullet, es: Seq<Enemy>) -> (bool, Seq<Enemy>) {
    match first_hit(b, es) {
        Some(j) => (false, es.update(j, es[j].after_hit())),
        None => (true, es),
    }
}

/// All shots, in order, against the enemies: the shots that survive and the
/// enemies afterwards.
pub open spec fn hits_resolved(bs: Seq<Bullet>, es: Seq<Enemy>) -> (Seq<Bullet>, Seq<Enemy>)
    decreases bs.len(),
{
    if bs.len() == 0 {
        (bs, es)
    } else {
        let (kept, es1) = hits_resolved(bs.drop_last(), es);
        let (survives, es2) = shot_resolved(bs.last(), es1);
        (if survives {
            kept.push(bs.last())
        } else {
            kept
        }, es2)
    }
}

/// The player, as it was when the contact routine started, and an enemy
/// touch: neither is fading and their boxes overlap.
pub open spec fn in_contact(p: Player, e: Enemy) -> bool {
    p.fade.is_none() && e.fade.is_none() && boxes_overlap(p.body(), e.body())
}

/// The player against the enemies, in order. Which enemies touch the player
/// is decided on the player as it was when the routine started, so a player
/// that was fading then touches nothing. Each enemy it touches is removed
/// and costs it one hit point, clamped at zero; the fade starts on the
/// contact that takes the last hit point.
pub open spec fn contacts_resolved(p: Player, es: Seq<Enemy>) -> (Player, Seq<Enemy>)
    decreases es.len(),
{
    if es.len() == 0 {
        (p, es)
    } else {
        let (p1, kept) = contacts_resolved(p, es.drop_last());
        if in_contact(p, es.last()) {
            (p1.after_contact(), kept)
        } else {
            (p1, kept.push(es.last()))
        }
    }
}

/// A fading enemy after a frame: its fade ticked, or gone once it ran out.
pub open spec fn enemy_faded(e: Enemy, dt: u64) -> Option<Enemy> {
    match e.fade {
        Some(f) => if f.ticked(dt).is_finished() {
            None
        } else {
            Some(Enemy { fade: Some(f.ticked(dt)), ..e })
        },
        None => Some(e),
    }
}

/// The player after a frame of fading, and whether it is gone.
pub open spec fn player_faded(p: Option<Player>, dt: u64) -> (Option<Player>, bool) {
    match p {
        Some(q) => match q.fade {
            Some(f) => if f.ticked(dt).is_finished() {
                (None, true)
            } else {
                (Some(Player { fade: Some(f.ticked(dt)), ..q }), false)
            },
            None => (p, false),
        },
        None => (p, false),
    }
}

/// The world after a frame of fading: fades advance, and entities whose
/// fade ran out are removed.
pub open spec fn faded(w: WorldModel, dt: u64) -> WorldModel {
    WorldModel {
        player: player_faded(w.player, dt).0,
        enemies: w.enemies.filter_map(|e: Enemy| enemy_faded(e, dt)),
        ..w
    }
}

proof fn lemma_first_hit(b: Bullet, es: Seq<Enemy>)
    ensures
        match first_hit(b, es) {
            Some(j) => {
                &&& 0 <= j < es.len()
                &&& hittable(b, es[j])
                &&& forall|k: int| 0 <= k < j ==> !hittable(b, #[trigger] es[k])
            },
            None => forall|k: int| 0 <= k < es.len() ==> !hittable(b, #[trigger] es[k]),
        },
    decreases es.len(),
{
    if es.len() > 0 {
        lemma_first_hit(b, es.drop_last());
        assert forall|k: int| 0 <= k < es.len() - 1 implies es.drop_last()[k] == #[trigger] es[k] by {}
    }
}

/// A shot that touches several enemies hits exactly one of them: the first
/// that it can hit, in order. That enemy loses one hit point, every other
/// enemy stays as it was, and the shot is used up. A shot that can hit no
/// enemy flies on and changes nothing.
pub proof fn lemma_one_enemy_per_shot(b: Bullet, es: Seq<Enemy>)
    ensures
        match first_hit(b, es) {
            Some(j) => {
                &&& 0 <= j < es.len()
                &&& hittable(b, es[j])
                &&& forall|k: int| 0 <= k < j ==> !hittable(b, #[trigger] es[k])
                &&& !shot_resolved(b, es).0
                &&& shot_resolved(b, es).1.len() == es.len()
                &&& shot_resolved(b, es).1[j] == es[j].after_hit()
                &&& shot_resolved(b, es).1[j].health.current == es[j].health.hit().current
                &&& forall|k: int|
                    0 <= k < es.len() && k != j ==> #[trigger] shot_resolved(b, es).1[k] == es[k]
            },
            None => {
                &&& shot_resolved(b, es).0
                &&& shot_resolved(b, es).1 == es
                &&& forall|k: int| 0 <= k < es.len() ==> !hittable(b, #[trigger] es[k])
            },
        },
{
    lemma_first_hit(b, es);
}

/// A fade is started at most once: an entity that is already fading keeps
/// its fade when hit again, and a fade starts only on the hit that takes the
/// last hit point.
pub proof fn lemma_fade_attached_once(e: Enemy, p: Player)
    requires
        e.wf(),
        p.wf(),
    ensures
        e.after_hit().wf(),
        e.fade.is_some() ==> e.after_hit().fade == e.fade,
        e.fade.is_none() ==> (e.after_hit().fade.is_some() <==> e.health.current == 1),
        p.after_contact().wf(),
        p.fade.is_some() ==> p.after_contact().fade == p.fade,
        p.fade.is_none() ==> (p.after_contact().fade.is_some() <==> p.health.current == 1),
{
}

/// The hit points of all enemies together.
pub open spec fn total_health(es: Seq<Enemy>) -> int
    decreases es.len(),
{
    if es.len() == 0 {
        0
    } else {
        total_health(es.drop_last()) + es.last().health.current
    }
}

proof fn lemma_total_health_update(es: Seq<Enemy>, j: int, e: Enemy)
    requires
        0 <= j < es.len(),
    ensures
        total_health(es.update(j, e)) == total_health(es) - es[j].health.current
            + e.health.current,
    decreases es.len(),
{
    if j == es.len() - 1 {
        assert(es.update(j, e).drop_last() == es.drop_last());
    } else {
        lemma_total_health_update(es.drop_last(), j, e);
        assert(es.update(j, e).drop_last() == es.drop_last().update(j, e));
    }
}

/// Any number of shots in one frame: every shot that is used up takes
/// exactly one hit point from exactly one enemy, so the enemies lose as many
/// hit points together as shots were used up; shots that hit nothing fly on.
/// An enemy that was already fading is left exactly as it was, so it never
/// gets a second fade, and only health and fade of any enemy change.
pub proof fn lemma_shots_resolved(bs: Seq<Bullet>, es: Seq<Enemy>)
    requires
        forall|k: int| 0 <= k < es.len() ==> (#[trigger] es[k]).wf(),
    ensures
        hits_resolved(bs, es).1.len() == es.len(),
        hits_resolved(bs, es).0.len() <= bs.len(),
        forall|k: int| 0 <= k < es.len() ==> (#[trigger] hits_resolved(bs, es).1[k]).wf(),
        forall|k: int|
            0 <= k < es.len() && es[k].fade.is_some() ==> #[trigger] hits_resolved(bs, es).1[k]
                == es[k],
        forall|k: int|
            0 <= k < es.len() ==> #[trigger] hits_resolved(bs, es).1[k] == (Enemy {
                health: hits_resolved(bs, es).1[k].health,
                fade: hits_resolved(bs, es).1[k].fade,
                ..es[k]
            }),
        total_health(hits_resolved(bs, es).1) == total_health(es) - (bs.len() - hits_resolved(
            bs,
            es,
        ).0.len()),
    decreases bs.len(),
{
    if bs.len() > 0 {
        lemma_shots_resolved(bs.drop_last(), es);
        let (kept, es1) = hits_resolved(bs.drop_last(), es);
        let b = bs.last();
        lemma_first_hit(b, es1);
        match first_hit(b, es1) {
            Some(j) => {
                assert(es1[j].wf());
                lemma_total_health_update(es1, j, es1[j].after_hit());
                let es2 = es1.update(j, es1[j].after_hit());
                assert forall|k: int| 0 <= k < es.len() implies (#[trigger] es2[k]).wf() by {
                    assert(es1[k].wf());
                }
                assert forall|k: int|
                    0 <= k < es.len() && es[k].fade.is_some() implies #[trigger] es2[k] == es[k] by {
                    assert(es1[k] == es[k]);
                }
                assert forall|k: int| 0 <= k < es.len() implies #[trigger] es2[k] == (Enemy {
                    health: es2[k].health,
                    fade: es2[k].fade,
                    ..es[k]
                }) by {
                    assert(es1[k] == (Enemy { health: es1[k].health, fade: es1[k].fade, ..es[k] }));
                }
            },
            None => {},
        }
    }
}

/// `h - n`, but never below zero.
pub open spec fn saturating_loss(h: u32, n: int) -> int {
    if n <= h {
        h - n
    } else {
        0
    }
}

/// The enemies that do not touch the player `p`.
pub open spec fn untouched(p: Player) -> spec_fn(Enemy) -> bool {
    |e: Enemy| !in_contact(p, e)
}

/// Each contact with an enemy costs the player exactly one hit point, and
/// the player's health never drops below zero: after a frame of contacts
/// every enemy that touched the player is gone and every other enemy stays,
/// and the player's health is what it was less the number of enemies that
/// touched it, clamped at zero. Only health and fade change; a fade starts
/// once, fresh, when the health reaches zero, and a player that was already
/// fading is left alone together with all enemies.
pub proof fn lemma_contact_costs_one(p: Player, es: Seq<Enemy>)
    requires
        p.wf(),
    ensures
        contacts_resolved(p, es).0.wf(),
        contacts_resolved(p, es).1 == es.filter(untouched(p)),
        contacts_resolved(p, es).0.health.current == saturating_loss(
            p.health.current,
            es.len() - contacts_resolved(p, es).1.len(),
        ),
        contacts_resolved(p, es).0 == (Player {
            health: contacts_resolved(p, es).0.health,
            fade: contacts_resolved(p, es).0.fade,
            ..p
        }),
        contacts_resolved(p, es).0.health.max == p.health.max,
        p.fade.is_some() ==> contacts_resolved(p, es) == (p, es),
        p.fade.is_none() && contacts_resolved(p, es).0.fade.is_some()
            ==> contacts_resolved(p, es).0.fade == Some(fresh_fade()),
    decreases es.len(),
{
    reveal(Seq::filter);
    if es.len() > 0 {
        lemma_contact_costs_one(p, es.drop_last());
        if p.fade.is_some() {
            assert(es.drop_last().push(es.last()) == es);
        }
    }
}

impl World {
    /// Shots against enemies, shot by shot in order: a shot that touches an
    /// enemy that is not fading is removed, and only the first such enemy
    /// loses one hit point; an enemy that loses its last one starts fading.
    pub fn bullet_enemy_hit_system(&mut self)
        requires
            old(self).wf(),
        ensures
            final(self).wf(),
            final(self)@ == (WorldModel {
                bullets: hits_resolved(old(self)@.bullets, old(self)@.enemies).0,
                enemies: hits_resolved(old(self)@.bullets, old(self)@.enemies).1,
                ..old(self)@
            }),
    {
        let ghost bullets0 = self.bullets@;
        let ghost enemies0 = self.enemies@;
        let mut kept: Vec<Bullet> = Vec::new();
        let n = self.bullets.len();
        for i in 0..n
            invariant
                n == self.bullets@.len(),
                bullets0 == self.bullets@,
                self.player == old(self).player,
                self.spawner == old(self).spawner,
                self.next_id == old(self).next_id,
                old(self)@.enemies == enemies0,
                old(self)@.bullets == bullets0,
                (kept@, self.enemies@) == hits_resolved(bullets0.subrange(0, i as int), enemies0),
                forall|j: int| 0 <= j < self.bullets@.len() ==> #[trigger] self.bullets@[j].wf(),
                forall|j: int| 0 <= j < kept@.len() ==> #[trigger] kept@[j].wf(),
                forall|j: int| 0 <= j < self.enemies@.len() ==> #[trigger] self.enemies@[j].wf(),
        {
            let b = self.bullets[i];
            assert(b == self.bullets@[i as int]);
            assert(b.wf());
            let ghost es = self.enemies@;
            let ghost pre = self@;
            proof {
                let s = bullets0.subrange(0, i + 1);
                assert(s.drop_last() == bullets0.subrange(0, i as int));
                assert(s.last() == b);
                lemma_first_hit(b, es);
            }
            let m = self.enemies.len();
            let mut j: usize = 0;
            let mut hit = false;
            while j < m && !hit
                invariant
                    m == self.enemies@.len(),
                    self@ == (WorldModel { enemies: self.enemies@, ..pre }),
                    j <= m,
                    es.len() == m,
                    hit ==> {
                        &&& first_hit(b, es) == Some(j as int - 1)
                        &&& 0 < j
                        &&& self.enemies@ == es.update(j - 1, es[j - 1].after_hit())
                    },
                    !hit ==> self.enemies@ == es,
                    !hit ==> forall|k: int| 0 <= k < j ==> !hittable(b, #[trigger] es[k]),
                    forall|k: int| 0 <= k < es.len() ==> #[trigger] es[k].wf(),
                    match first_hit(b, es) {
                        Some(f) => {
                            &&& 0 <= f < es.len()
                            &&& hittable(b, es[f])
                            &&& forall|k: int| 0 <= k < f ==> !hittable(b, #[trigger] es[k])
                        },
                        None => forall|k: int| 0 <= k < es.len() ==> !hittable(b, #[trigger] es[k]),
                    },
                decreases m - j,
            {
                let e = self.enemies[j];
                assert(e == es[j as int]);
                if e.fade.is_none() && check_circle_collision(
                    b.transform.translation_xy(),
                    BULLET_RADIUS,
                    e.transform.translation_xy(),
                    ENEMY_RADIUS,
                ) {
                    assert(hittable(b, es[j as int]));
                    let mut hit_enemy = e;
                    hit_enemy.take_hit();
                    self.enemies.set(j, hit_enemy);
                    hit = true;
                }
                j = j + 1;
            }
            if !hit {
                kept.push(b);
            }
            proof {
                assert forall|k: int| 0 <= k < self.enemies@.len() implies #[trigger] self.enemies@[k].wf() by {
                    assert(es[k].wf());
                }
            }
        }
        assert(bullets0.subrange(0, n as int) == bullets0);
        self.bullets = kept;
    }

    /// The player against the enemies; see `contacts_resolved`. Nothing
    /// happens without a player.
    pub fn player_enemy_collision_system(&mut self)
        requires
            old(self).wf(),
        ensures
            final(self).wf(),
            final(self)@ == match old(self)@.player {
                Some(p) => WorldModel {
                    player: Some(contacts_resolved(p, old(self)@.enemies).0),
                    enemies: contacts_resolved(p, old(self)@.enemies).1,
                    ..old(self)@
                },
                None => old(self)@,
            },
    {
        match self.player {
            Some(p) => {
                let ghost enemies0 = self.enemies@;
                let mut q = p;
                let pb = Body { transform: p.transform, collider: p.collider };
                let mut kept: Vec<Enemy> = Vec::new();
                let n = self.enemies.len();
                for i in 0..n
                    invariant
                        n == self.enemies@.len(),
                        enemies0 == self.enemies@,
                        pb == p.body(),
                        (q, kept@) == contacts_resolved(p, enemies0.subrange(0, i as int)),
                        q.wf(),
                        forall|j: int| 0 <= j < enemies0.len() ==> #[trigger] enemies0[j].wf(),
                        forall|j: int| 0 <= j < kept@.len() ==> #[trigger] kept@[j].wf(),
                {
                    let e = self.enemies[i];
                    assert(e == enemies0[i as int]);
                    assert(e.wf());
                    proof {
                        let s = enemies0.subrange(0, i + 1);
                        assert(s.drop_last() == enemies0.subrange(0, i as int));
                        assert(s.last() == e);
                    }
                    let eb = Body { transform: e.transform, collider: e.collider };
                    if p.fade.is_none() && e.fade.is_none() && check_box_collision(&pb, &eb) {
                        q.take_contact();
                    } else {
                        kept.push(e);
                    }
                }
                assert(enemies0.subrange(0, n as int) == enemies0);
                self.player = Some(q);
                self.enemies = kept;
            },
            None => {},
        }
    }

    /// Advances every fade; removes the entities whose fade ran out, and says
    /// whether the player was one of them.
    pub fn enemy_fadeout_system(&mut self, dt: u64) -> (player_gone: bool)
        requires
            old(self).wf(),
        ensures
            final(self).wf(),
            final(self)@ == faded(old(self)@, dt),
            player_gone == player_faded(old(self)@.player, dt).1,
    {
        let ghost f = |e: Enemy| enemy_faded(e, dt);
        let mut kept: Vec<Enemy> = Vec::new();
        let n = self.enemies.len();
        for i in 0..n
            invariant
                n == self.enemies@.len(),
                f == (|e: Enemy| enemy_faded(e, dt)),
                kept@ == self.enemies@.subrange(0, i as int).filter_map(f),
                forall|j: int| 0 <= j < self.enemies@.len() ==> #[trigger] self.enemies@[j].wf(),
                forall|j: int| 0 <= j < kept@.len() ==> #[trigger] kept@[j].wf(),
        {
            let e = self.enemies[i];
            assert(e == self.enemies@[i as int]);
            assert(e.wf());
            proof {
                let s = self.enemies@.subrange(0, i + 1);
                assert(s.drop_last() == self.enemies@.subrange(0, i as int));
                assert(s.last() == e);
            }
            match e.fade {
                Some(t) => {
                    let mut g = t;
                    g.tick(dt);
                    if !g.finished() {
                        let mut m = e;
                        m.fade = Some(g);
                        kept.push(m);
                    }
                },
                None => {
                    kept.push(e);
                },
            }
        }
        assert(self.enemies@.subrange(0, n as int) == self.enemies@);
        self.enemies = kept;
        match self.player {
            Some(p) => match p.fade {
                Some(t) => {
                    let mut g = t;
                    g.tick(dt);
                    if g.finished() {
                        self.player = None;
                        true
                    } else {
                        let mut q = p;
                        q.fade = Some(g);
                        self.player = Some(q);
                        false
                    }
                },
                None => false,
            },
            None => false,
        }
    }
}

} // verus!
