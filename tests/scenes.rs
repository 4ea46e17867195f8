use dragoon_flight::scene::{
    button_look, game_over_interaction, main_menu_command, ButtonInteraction, ButtonLook,
    FramePlan, GameOverScene, IScene, InGameScene, MainScene, MenuButton, MenuCommand,
    SceneManager, SceneStatus, Transition,
};

#[test]
fn manager_starts_in_the_main_menu() {
    let mut m = SceneManager::new();
    assert_eq!(m.current, SceneStatus::Main);
    assert_eq!(SceneStatus::default(), SceneStatus::Main);
    let plan = m.begin_frame();
    assert_eq!(plan, FramePlan { transition: None, update: SceneStatus::Main });
}

#[test]
fn last_request_in_a_frame_wins() {
    let mut m = SceneManager::new();
    m.request_transition(SceneStatus::InGame);
    m.request_transition(SceneStatus::GameOver);
    let plan = m.begin_frame();
    assert_eq!(
        plan,
        FramePlan {
            transition: Some(Transition { from: SceneStatus::Main, to: SceneStatus::GameOver }),
            update: SceneStatus::GameOver,
        }
    );
    assert_eq!(m.current, SceneStatus::GameOver);
    assert_eq!(m.begin_frame(), FramePlan { transition: None, update: SceneStatus::GameOver });
}

#[test]
fn transition_exits_before_it_enters() {
    let mut m = SceneManager::new();
    m.request_transition(SceneStatus::InGame);
    let plan = m.begin_frame();
    assert_eq!(plan.transition, Some(Transition { from: SceneStatus::Main, to: SceneStatus::InGame }));
    assert_eq!(plan.update, SceneStatus::InGame);
    m.request_transition(SceneStatus::GameOver);
    let plan = m.begin_frame();
    assert_eq!(plan.transition.unwrap().from, SceneStatus::InGame);
    assert_eq!(m.pending, None);
}

#[test]
fn scenes_report_their_mode() {
    assert_eq!(MainScene {}.state(), SceneStatus::Main);
    assert_eq!(InGameScene {}.state(), SceneStatus::InGame);
    assert_eq!(GameOverScene.state(), SceneStatus::GameOver);
}

#[test]
fn menu_buttons_respond_to_presses() {
    assert_eq!(
        main_menu_command(MenuButton::StartGame, ButtonInteraction::Pressed),
        Some(MenuCommand::Enter(SceneStatus::InGame))
    );
    assert_eq!(main_menu_command(MenuButton::Exit, ButtonInteraction::Pressed), Some(MenuCommand::Quit));
    assert_eq!(main_menu_command(MenuButton::Exit, ButtonInteraction::Hovered), None);
    assert_eq!(main_menu_command(MenuButton::StartGame, ButtonInteraction::Idle), None);
    assert_eq!(button_look(ButtonInteraction::Pressed), ButtonLook::Pressed);
    assert_eq!(button_look(ButtonInteraction::Hovered), ButtonLook::Hovered);
    assert_eq!(button_look(ButtonInteraction::Idle), ButtonLook::Normal);
}

#[test]
fn game_over_returns_on_enter_or_space() {
    assert_eq!(game_over_interaction(true, false), Some(SceneStatus::Main));
    assert_eq!(game_over_interaction(false, true), Some(SceneStatus::Main));
    assert_eq!(game_over_interaction(false, false), None);
}

fn frame(dt: u64) -> dragoon_flight::world::FrameInput {
    let u = 1_000_000;
    dragoon_flight::world::FrameInput {
        dt,
        viewport: dragoon_flight::world::Viewport { width: 800 * u, height: 600 * u },
        up: false,
        down: false,
    }
}

#[test]
fn overwritten_request_never_enters_the_game() {
    let mut g = dragoon_flight::game::Game::new();
    g.request_transition(SceneStatus::InGame);
    g.request_transition(SceneStatus::GameOver);
    let plan = g.tick(&frame(16_000));
    assert_eq!(plan.transition, Some(Transition { from: SceneStatus::Main, to: SceneStatus::GameOver }));
    assert_eq!(g.scenes.current, SceneStatus::GameOver);
    assert!(g.world.player.is_none());
    assert!(g.world.spawner.is_none());
}

#[test]
fn entering_the_game_starts_the_world_and_leaving_clears_it() {
    let mut g = dragoon_flight::game::Game::new();
    g.request_transition(SceneStatus::InGame);
    let plan = g.tick(&frame(0));
    assert_eq!(plan.update, SceneStatus::InGame);
    assert_eq!(g.world.player.unwrap().health.current, 3);
    assert!(g.world.spawner.is_some());
    g.tick(&frame(125_000));
    assert_eq!(g.world.bullets.len(), 1);
    g.request_transition(SceneStatus::Main);
    let plan = g.tick(&frame(16_000));
    assert_eq!(plan.transition, Some(Transition { from: SceneStatus::InGame, to: SceneStatus::Main }));
    assert!(g.world.player.is_none());
    assert!(g.world.bullets.is_empty());
}

#[test]
fn player_fading_out_leads_to_game_over_next_frame() {
    let mut g = dragoon_flight::game::Game::new();
    g.request_transition(SceneStatus::InGame);
    g.tick(&frame(0));
    let mut p = g.world.player.unwrap();
    p.health.current = 1;
    g.world.player = Some(p);
    g.world.enemies.push(dragoon_flight::entities::new_enemy(
        99,
        p.transform.translation,
        0,
    ));
    g.tick(&frame(0));
    assert!(g.world.player.unwrap().fade.is_some());
    assert_eq!(g.scenes.current, SceneStatus::InGame);
    g.tick(&frame(400_000));
    assert!(g.world.player.is_none());
    assert_eq!(g.scenes.pending, Some(SceneStatus::GameOver));
    let plan = g.tick(&frame(16_000));
    assert_eq!(plan.transition, Some(Transition { from: SceneStatus::InGame, to: SceneStatus::GameOver }));
}
