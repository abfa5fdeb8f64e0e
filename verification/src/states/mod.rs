pub mod event;
pub mod game;
pub mod menu;
pub mod start;
