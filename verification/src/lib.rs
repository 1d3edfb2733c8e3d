pub mod control;
pub mod frame;
pub mod state;
