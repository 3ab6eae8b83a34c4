pub mod state;
pub mod style;
pub mod menu;
pub mod scene;
pub mod flow;
pub mod laws;
