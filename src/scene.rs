use vstd::prelude::*;

verus! {

/// The three modes of the game; exactly one is active at a time.
#[derive(Debug, Clone, Copy, PartialEq, Eq, Hash, Structural)]
pub enum SceneStatus {
    Main,
    InGame,
    GameOver,
}

impl Default for SceneStatus {
    fn default() -> (r: SceneStatus)
        ensures
            r == SceneStatus::Main,
    {
        SceneStatus::Main
    }
}

/// A mode of the game. The platform layer attaches to each mode the routines
/// that set it up, run it each frame and tear it down.
pub trait IScene {
    /// The mode this scene is active in.
    fn state(&self) -> SceneStatus;
}

/// The title menu.
pub struct MainScene {}

/// The shooter itself.
pub struct InGameScene {}

/// The screen shown after the player has died.
pub struct GameOverScene;

impl IScene for MainScene {
    fn state(&self) -> (r: SceneStatus)
        ensures
            r == SceneStatus::Main,
    {
        SceneStatus::Main
    }
}

impl IScene for InGameScene {
    fn state(&self) -> (r: SceneStatus)
        ensures
            r == SceneStatus::InGame,
    {
        SceneStatus::InGame
    }
}

impl IScene for GameOverScene {
    fn state(&self) -> (r: SceneStatus)
        ensures
            r == SceneStatus::GameOver,
    {
        SceneStatus::GameOver
    }
}

/// A change of mode: the exit routines of `from` run, then the enter
/// routines of `to`.
#[derive(Debug, Clone, Copy, PartialEq, Eq, Structural)]
pub struct Transition {
    pub from: SceneStatus,
    pub to: SceneStatus,
}

/// What one frame runs: at most one transition, then the update routines of
/// the mode that is active afterwards.
#[derive(Debug, Clone, Copy, PartialEq, Eq, Structural)]
pub struct FramePlan {
    pub transition: Option<Transition>,
    pub update: SceneStatus,
}

/// The current mode and the transition requested for the next frame, if any.
#[derive(Debug, Clone, Copy, PartialEq, Eq, Structural)]
pub struct SceneManager {
    pub current: SceneStatus,
    pub pending: Option<SceneStatus>,
}

/// The manager after a request for `to`; a later request overwrites an
/// earlier one.
pub open spec fn requested(m: SceneManager, to: SceneStatus) -> SceneManager {
    SceneManager { pending: Some(to), ..m }
}

/// The manager at the start of a frame, after any pending transition.
pub open spec fn after_frame_start(m: SceneManager) -> SceneManager {
    match m.pending {
        Some(to) => SceneManager { current: to, pending: None },
        None => m,
    }
}

/// What the frame that starts from `m` runs.
pub open spec fn plan_of(m: SceneManager) -> FramePlan {
    match m.pending {
        Some(to) => FramePlan { transition: Some(Transition { from: m.current, to }), update: to },
        None => FramePlan { transition: None, update: m.current },
    }
}

/// Two requests within one frame apply only the second: the frame exits the
/// current mode once, enters the second requested mode, and runs that mode's
/// update routines; the first requested mode is neither entered nor exited.
pub proof fn lemma_last_request_wins(m: SceneManager, first: SceneStatus, second: SceneStatus)
    ensures
        plan_of(requested(requested(m, first), second)) == (FramePlan {
            transition: Some(Transition { from: m.current, to: second }),
            update: second,
        }),
        after_frame_start(requested(requested(m, first), second)) == (SceneManager {
            current: second,
            pending: None,
        }),
{
}

impl SceneManager {
    /// The manager at start-up: the main menu, with nothing requested.
    pub fn new() -> (r: SceneManager)
        ensures
            r == (SceneManager { current: SceneStatus::Main, pending: None }),
    {
        SceneManager { current: SceneStatus::Main, pending: None }
    }

    /// Asks for a change of mode at the start of the next frame.
    pub fn request_transition(&mut self, to: SceneStatus)
        ensures
            *final(self) == requested(*old(self), to),
    {
        self.pending = Some(to);
    }

    /// Starts a frame: applies the pending transition, if any, and says which
    /// routines the frame runs, in order.
    pub fn begin_frame(&mut self) -> (r: FramePlan)
        ensures
            r == plan_of(*old(self)),
            *final(self) == after_frame_start(*old(self)),
    {
        match self.pending {
            Some(to) => {
                let from = self.current;
                self.current = to;
                self.pending = None;
                FramePlan { transition: Some(Transition { from, to }), update: to }
            },
            None => FramePlan { transition: None, update: self.current },
        }
    }
}

/// The buttons of the title menu.
#[derive(Debug, Clone, Copy, PartialEq, Eq, Structural)]
pub enum MenuButton {
    StartGame,
    Exit,
}

/// How the pointer currently relates to a button.
#[derive(Debug, Clone, Copy, PartialEq, Eq, Structural)]
pub enum ButtonInteraction {
    Pressed,
    Hovered,
    Idle,
}

/// The colour scheme a button is drawn in.
#[derive(Debug, Clone, Copy, PartialEq, Eq, Structural)]
pub enum ButtonLook {
    Normal,
    Hovered,
    Pressed,
}

/// What pressing a menu button asks for.
#[derive(Debug, Clone, Copy, PartialEq, Eq, Structural)]
pub enum MenuCommand {
    Enter(SceneStatus),
    Quit,
}

/// The look of a button in the given interaction.
pub fn button_look(interaction: ButtonInteraction) -> (r: ButtonLook)
    ensures
        interaction == ButtonInteraction::Pressed ==> r == ButtonLook::Pressed,
        interaction == ButtonInteraction::Hovered ==> r == ButtonLook::Hovered,
        interaction == ButtonInteraction::Idle ==> r == ButtonLook::Normal,
{
    match interaction {
        ButtonInteraction::Pressed => ButtonLook::Pressed,
        ButtonInteraction::Hovered => ButtonLook::Hovered,
        ButtonInteraction::Idle => ButtonLook::Normal,
    }
}

/// What a change of interaction on a title-menu button asks for: a press on
/// "Start Game" enters the game, a press on "Exit" quits, anything else
/// nothing.
pub fn main_menu_command(button: MenuButton, interaction: ButtonInteraction) -> (r: Option<
    MenuCommand,
>)
    ensures
        interaction != ButtonInteraction::Pressed ==> r.is_none(),
        interaction == ButtonInteraction::Pressed && button == MenuButton::StartGame ==> r == Some(
            MenuCommand::Enter(SceneStatus::InGame),
        ),
        interaction == ButtonInteraction::Pressed && button == MenuButton::Exit ==> r == Some(
            MenuCommand::Quit,
        ),
{
    match interaction {
        ButtonInteraction::Pressed => match button {
            MenuButton::StartGame => Some(MenuCommand::Enter(SceneStatus::InGame)),
            MenuButton::Exit => Some(MenuCommand::Quit),
        },
        _ => None,
    }
}

/// On the game-over screen, Enter or Space returns to the title menu.
pub fn game_over_interaction(enter_pressed: bool, space_pressed: bool) -> (r: Option<SceneStatus>)
    ensures
        r == (if enter_pressed || space_pressed {
            Some(SceneStatus::Main)
        } else {
            None
        }),
{
    if enter_pressed || space_pressed {
        Some(SceneStatus::Main)
    } else {
        None
    }
}

} // verus!
