pub mod save;
