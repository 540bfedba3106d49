pub mod bits;
pub mod board;
pub mod figure;
pub mod game;
pub mod geometry;
pub mod input;
pub mod random;
pub mod render;
pub mod text;
pub mod timing;
