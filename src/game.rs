use vstd::prelude::*;

use crate::frame::stepped;
use crate::scene::{
    after_frame_start, plan_of, requested, FramePlan, SceneManager, SceneStatus,
};
use crate::spawner::{cleared, started};
use crate::world::{empty_world, FrameInput, World, WorldModel};

verus! {

/// The mode machine together with the in-game world.
pub struct Game {
    pub scenes: SceneManager,
    pub world: World,
}

/// The world after the transition of a frame's plan: leaving the in-game
/// mode clears it, entering the in-game mode starts it afresh.
pub open spec fn world_after_transition(plan: FramePlan, w: WorldModel, input: FrameInput) -> WorldModel {
    match plan.transition {
        Some(t) => {
            let left = if t.from == SceneStatus::InGame {
                cleared(w)
            } else {
                w
            };
            if t.to == SceneStatus::InGame {
                started(input.viewport)
            } else {
                left
            }
        },
        None => w,
    }
}

/// The mode machine and the world after one frame: first the pending
/// transition, then the update routines of the active mode. In the in-game
/// mode the world runs a frame, and a player that finished fading out asks
/// for the game-over mode, which the next frame applies.
pub open spec fn game_after_tick(m: SceneManager, w: WorldModel, input: FrameInput) -> (
    SceneManager,
    WorldModel,
) {
    let plan = plan_of(m);
    let m1 = after_frame_start(m);
    let w1 = world_after_transition(plan, w, input);
    if plan.update == SceneStatus::InGame {
        let (w2, player_gone) = stepped(w1, input);
        (if player_gone {
            requested(m1, SceneStatus::GameOver)
        } else {
            m1
        }, w2)
    } else {
        (m1, w1)
    }
}

/// Of two requests within one frame only the second is applied. Outside the
/// in-game mode, a first request for the in-game mode that a second request
/// for another mode overwrites never enters the in-game mode: its enter,
/// update and exit routines do not run, the world stays exactly as it was,
/// and the mode afterwards is the one requested last.
pub proof fn lemma_overwritten_request_never_runs(
    m: SceneManager,
    first: SceneStatus,
    second: SceneStatus,
    w: WorldModel,
    input: FrameInput,
)
    requires
        m.current != SceneStatus::InGame,
        second != SceneStatus::InGame,
    ensures
        game_after_tick(requested(requested(m, first), second), w, input) == (
        SceneManager { current: second, pending: None },
        w,
        ),
{
}

impl Game {
    pub open spec fn wf(&self) -> bool {
        self.world.wf()
    }

    /// The game at start-up: the title menu, with an empty world.
    pub fn new() -> (r: Game)
        ensures
            r.wf(),
            r.scenes == (SceneManager { current: SceneStatus::Main, pending: None }),
            r.world@ == empty_world(),
    {
        Game { scenes: SceneManager::new(), world: World::empty() }
    }

    /// Asks for a change of mode at the start of the next frame; a later
    /// request within the same frame overwrites it.
    pub fn request_transition(&mut self, to: SceneStatus)
        ensures
            final(self).scenes == requested(old(self).scenes, to),
            final(self).world@ == old(self).world@,
            final(self).wf() == old(self).wf(),
    {
        self.scenes.request_transition(to);
    }

    /// Runs one frame; see `game_after_tick`. Returns the frame's plan, so
    /// that the caller can run the routines that draw each mode.
    pub fn tick(&mut self, input: &FrameInput) -> (plan: FramePlan)
        requires
            old(self).wf(),
            input.viewport.wf(),
        ensures
            final(self).wf(),
            plan == plan_of(old(self).scenes),
            (final(self).scenes, final(self).world@) == game_after_tick(
                old(self).scenes,
                old(self).world@,
                *input,
            ),
    {
        let plan = self.scenes.begin_frame();
        match plan.transition {
            Some(t) => {
                if t.from == SceneStatus::InGame {
                    self.world.clear();
                }
                if t.to == SceneStatus::InGame {
                    self.world = World::start(input.viewport);
                }
            },
            None => {},
        }
        if plan.update == SceneStatus::InGame {
            match self.world.step(input) {
                Some(next) => self.scenes.request_transition(next),
                None => {},
            }
        }
        plan
    }
}

} // verus!
