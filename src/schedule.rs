use vstd::prelude::*;

verus! {

/// The coarse phase of the game, which decides what runs each tick.
#[derive(Clone, Copy, Debug, PartialEq, Eq, Structural)]
pub enum GameState {
    /// The menu is open and play is paused.
    Menu,
    /// A new game is being set up; it moves on to `Playing` at once.
    Reset,
    /// The ball, paddles and scoring run.
    Playing,
}

/// A button of the menu.
#[derive(Clone, Copy, Debug, PartialEq, Eq, Structural)]
pub enum MenuButtonAction {
    Resume,
    New,
    Quit,
}

/// What a menu button asks of the game.
#[derive(Clone, Copy, Debug, PartialEq, Eq, Structural)]
pub enum MenuCommand {
    /// Move to the given phase.
    Enter(GameState),
    /// Leave the program.
    Quit,
}

pub open spec fn menu_command(action: MenuButtonAction, is_first_run: bool) -> Option<MenuCommand> {
    match action {
        MenuButtonAction::Resume => if is_first_run {
            None
        } else {
            Some(MenuCommand::Enter(GameState::Playing))
        },
        MenuButtonAction::New => Some(MenuCommand::Enter(GameState::Reset)),
        MenuButtonAction::Quit => Some(MenuCommand::Quit),
    }
}

/// The command for a pressed menu button. Resuming before any game has been
/// played is ignored.
pub fn menu_action(action: MenuButtonAction, is_first_run: bool) -> (r: Option<MenuCommand>)
    ensures
        r == menu_command(action, is_first_run),
{
    match action {
        MenuButtonAction::Resume => if is_first_run {
            None
        } else {
            Some(MenuCommand::Enter(GameState::Playing))
        },
        MenuButtonAction::New => Some(MenuCommand::Enter(GameState::Reset)),
        MenuButtonAction::Quit => Some(MenuCommand::Quit),
    }
}

} // verus!
