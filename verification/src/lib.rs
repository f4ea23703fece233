pub mod board;
pub mod input;
pub mod movement;
pub mod sound;
