pub mod state;
pub mod commands;
pub mod command_laws;
pub mod geometry;
pub mod render_projection;
pub mod projection_laws;
pub mod browser_measurement;
