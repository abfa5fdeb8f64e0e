use vstd::prelude::*;

use crate::states::event::{hits, is_button, StateEvent, Transition};

verus! {

/// The screen that the game opens with, with the buttons it has found so
/// far.
#[derive(Debug, Clone, Copy, PartialEq, Eq, Structural, Default)]
pub struct StartScreen {
    pub ui_root: Option<u64>,
    pub button_start: Option<u64>,
    pub button_load: Option<u64>,
    pub button_quit: Option<u64>,
}

impl StartScreen {
    /// What the screen asks for in answer to `event`: closing the window
    /// quits, and a click does what the first button that is the clicked
    /// entity stands for, the buttons taken in the order start, load, quit.
    pub open spec fn answer(self, event: StateEvent) -> Transition {
        match event {
            StateEvent::CloseRequested => Transition::Quit,
            StateEvent::Click(target) => if is_button(self.button_start, target) {
                Transition::NewGame
            } else if is_button(self.button_load, target) {
                Transition::LoadGame
            } else if is_button(self.button_quit, target) {
                Transition::Quit
            } else {
                Transition::Stay
            },
            _ => Transition::Stay,
        }
    }

    /// Whether every button of the screen has been found.
    pub fn has_buttons(&self) -> (found: bool)
        ensures
            found == (self.button_start is Some && self.button_load is Some && self.button_quit
                is Some),
    {
        self.button_start.is_some() && self.button_load.is_some() && self.button_quit.is_some()
    }

    /// Answers an event.
    pub fn handle_event(&self, event: StateEvent) -> (transition: Transition)
        ensures
            transition == self.answer(event),
    {
        match event {
            StateEvent::CloseRequested => Transition::Quit,
            StateEvent::Click(target) => {
                if hits(self.button_start, target) {
                    Transition::NewGame
                } else if hits(self.button_load, target) {
                    Transition::LoadGame
                } else if hits(self.button_quit, target) {
                    Transition::Quit
                } else {
                    Transition::Stay
                }
            },
            _ => Transition::Stay,
        }
    }

    /// Forgets the screen and its buttons when the screen closes.
    pub fn on_stop(&mut self)
        ensures
            *final(self) == (StartScreen {
                ui_root: None,
                button_start: None,
                button_load: None,
                button_quit: None,
            }),
    {
        self.ui_root = None;
        self.button_start = None;
        self.button_load = None;
        self.button_quit = None;
    }
}

} // verus!
