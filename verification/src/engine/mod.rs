pub mod event;
pub mod input;
