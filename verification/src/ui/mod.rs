pub mod button;
pub mod font;
pub mod menu;
