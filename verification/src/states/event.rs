use vstd::prelude::*;

verus! {

/// What a state of the game is told has happened. Things on the screen are
/// known by the number of their entity.
#[derive(Debug, Clone, Copy, PartialEq, Eq, Structural)]
pub enum StateEvent {
    /// The player asked for the window to be closed.
    CloseRequested,
    /// The escape key went down.
    EscapePressed,
    /// The entity with this number was clicked.
    Click(u64),
    /// Anything else.
    Other,
}

/// What a state asks for in answer to an event.
#[derive(Debug, Clone, Copy, PartialEq, Eq, Structural)]
pub enum Transition {
    /// Nothing changes.
    Stay,
    /// The game ends.
    Quit,
    /// The state ends and the one below it goes on.
    Resume,
    /// The menu opens over the game.
    OpenMenu,
    /// A new game begins in place of what runs now; a game that was loaded
    /// is forgotten first.
    NewGame,
    /// The saved game is loaded in place of what runs now.
    LoadGame,
    /// The game is saved, then the state goes on.
    SaveGame,
}

/// Whether `button` is known and is the entity `target`.
pub open spec fn is_button(button: Option<u64>, target: u64) -> bool {
    button == Some(target)
}

/// Tests whether `button` is known and is the entity `target`.
pub fn hits(button: Option<u64>, target: u64) -> (hit: bool)
    ensures
        hit == is_button(button, target),
{
    match button {
        Some(entity) => entity == target,
        None => false,
    }
}

} // verus!
