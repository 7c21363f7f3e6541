pub mod modes;
pub mod state;
