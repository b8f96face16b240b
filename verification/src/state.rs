pub mod game;
pub mod interrupt;
