use vstd::prelude::*;

use crate::combat::{contacts_resolved, faded, hits_resolved, player_faded};
use crate::scene::SceneStatus;
use crate::spawner::spawned;
use crate::world::{
    bullets_after_frame, enemies_advanced, enemies_on_screen, fired, player_moved, FrameInput,
    World, WorldModel,
};

verus! {

/// One frame of the in-game mode, routine by routine in their fixed order:
/// steering, automatic fire, shots in flight, enemies in flight, the enemy
/// spawner, enemies leaving the screen, shots against enemies, fading, and
/// the player against enemies. Also says whether the player finished fading
/// out during the frame.
pub open spec fn stepped(w: WorldModel, input: FrameInput) -> (WorldModel, bool) {
    let dt = input.dt;
    let vp = input.viewport;
    let w1 = WorldModel {
        player: match w.player {
            Some(p) => Some(player_moved(p, input)),
            None => None,
        },
        ..w
    };
    let w2 = fired(w1, dt);
    let w3 = WorldModel { bullets: bullets_after_frame(w2.bullets, dt, vp), ..w2 };
    let w4 = WorldModel { enemies: enemies_advanced(w3.enemies, dt), ..w3 };
    let w5 = spawned(w4, dt, vp);
    let w6 = WorldModel { enemies: enemies_on_screen(w5.enemies, vp), ..w5 };
    let w7 = WorldModel {
        bullets: hits_resolved(w6.bullets, w6.enemies).0,
        enemies: hits_resolved(w6.bullets, w6.enemies).1,
        ..w6
    };
    let gone = player_faded(w7.player, dt).1;
    let w8 = faded(w7, dt);
    let w9 = match w8.player {
        Some(p) => WorldModel {
            player: Some(contacts_resolved(p, w8.enemies).0),
            enemies: contacts_resolved(p, w8.enemies).1,
            ..w8
        },
        None => w8,
    };
    (w9, gone)
}

impl World {
    /// Runs one frame of the in-game mode; see `stepped`. Asks for the
    /// game-over mode when the player has finished fading out.
    pub fn step(&mut self, input: &FrameInput) -> (next: Option<SceneStatus>)
        requires
            old(self).wf(),
            input.viewport.wf(),
        ensures
            final(self).wf(),
            final(self)@ == stepped(old(self)@, *input).0,
            next == if stepped(old(self)@, *input).1 {
                Some(SceneStatus::GameOver)
            } else {
                None
            },
    {
        self.player_move_system(input);
        self.player_auto_fire_system(input.dt);
        self.bullet_update_system(input);
        self.enemy_update_system(input.dt);
        self.enemy_spawn_system(input.dt, input.viewport);
        self.enemy_despawn_offscreen_system(input.viewport);
        self.bullet_enemy_hit_system();
        let player_gone = self.enemy_fadeout_system(input.dt);
        self.player_enemy_collision_system();
        if player_gone {
            Some(SceneStatus::GameOver)
        } else {
            None
        }
    }
}

} // verus!
