//! The rules of a small block world: the chunk store and its terrain,
//! the menus and their hit tests, the text font, the keyboard state and the
//! screen transitions that events drive.
pub mod engine;
pub mod game;
pub mod ui;
pub mod world;
