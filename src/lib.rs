pub mod board;
pub mod delegation;
pub mod game;
pub mod identity;
