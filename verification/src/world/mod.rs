pub mod block;
pub mod chunk;
pub mod generator;
pub mod save;
