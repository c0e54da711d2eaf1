//! Verified core of a Majsoul traffic modder: settings handling, the update
//! schedule, the data-file parser, the frame header reader and the rules by
//! which protocol messages are rewritten.

pub mod text;
pub mod ids;
pub mod max_data;
pub mod settings;
pub mod schedule;
pub mod frame;
pub mod descriptor;
pub mod update;
pub mod modder;
pub mod raster;
pub mod connections;
pub mod sidebar;
