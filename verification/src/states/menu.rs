use vstd::prelude::*;

use crate::states::event::{hits, is_button, StateEvent, Transition};

verus! {

/// The menu that opens over the game, with the buttons it has found so far
/// on the screen.
#[derive(Debug, Clone, Copy, PartialEq, Eq, Structural, Default)]
pub struct Menu {
    pub ui_root: Option<u64>,
    pub button_resume: Option<u64>,
    pub button_restart: Option<u64>,
    pub button_save: Option<u64>,
    pub button_load: Option<u64>,
    pub button_quit: Option<u64>,
}

impl Menu {
    /// What the menu asks for when `target` is clicked: what the first of
    /// its buttons that is this entity stands for, the buttons taken in the
    /// order resume, restart, save, load, quit.
    pub open spec fn on_click(self, target: u64) -> Transition {
        if is_button(self.button_resume, target) {
            Transition::Resume
        } else if is_button(self.button_restart, target) {
            Transition::NewGame
        } else if is_button(self.button_save, target) {
            Transition::SaveGame
        } else if is_button(self.button_load, target) {
            Transition::LoadGame
        } else if is_button(self.button_quit, target) {
            Transition::Quit
        } else {
            Transition::Stay
        }
    }

    /// What the menu asks for in answer to `event`.
    pub open spec fn answer(self, event: StateEvent) -> Transition {
        match event {
            StateEvent::CloseRequested => Transition::Quit,
            StateEvent::EscapePressed => Transition::Resume,
            StateEvent::Click(target) => self.on_click(target),
            StateEvent::Other => Transition::Stay,
        }
    }

    /// Whether every button of the menu has been found.
    pub fn has_buttons(&self) -> (found: bool)
        ensures
            found == (self.button_resume is Some && self.button_restart is Some
                && self.button_save is Some && self.button_load is Some && self.button_quit
                is Some),
    {
        self.button_resume.is_some() && self.button_restart.is_some() && self.button_save.is_some()
            && self.button_load.is_some() && self.button_quit.is_some()
    }

    /// Answers an event: closing the window quits, the escape key resumes
    /// the game, a click on a button does what the button stands for.
    pub fn handle_event(&self, event: StateEvent) -> (transition: Transition)
        ensures
            transition == self.answer(event),
    {
        match event {
            StateEvent::CloseRequested => Transition::Quit,
            StateEvent::EscapePressed => Transition::Resume,
            StateEvent::Click(target) => {
                if hits(self.button_resume, target) {
                    Transition::Resume
                } else if hits(self.button_restart, target) {
                    Transition::NewGame
                } else if hits(self.button_save, target) {
                    Transition::SaveGame
                } else if hits(self.button_load, target) {
                    Transition::LoadGame
                } else if hits(self.button_quit, target) {
                    Transition::Quit
                } else {
                    Transition::Stay
                }
            },
            StateEvent::Other => Transition::Stay,
        }
    }

    /// Forgets the menu's screen and buttons when the menu closes.
    pub fn on_stop(&mut self)
        ensures
            *final(self) == (Menu {
                ui_root: None,
                button_resume: None,
                button_restart: None,
                button_save: None,
                button_load: None,
                button_quit: None,
            }),
    {
        self.ui_root = None;
        self.button_resume = None;
        self.button_restart = None;
        self.button_save = None;
        self.button_load = None;
        self.button_quit = None;
    }
}

} // verus!
