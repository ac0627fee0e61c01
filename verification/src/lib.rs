//! Control of LECOO laptops.
pub mod daemon;
pub mod ec;
pub mod fixed_map;
pub mod gui;
pub mod handlers;
pub mod ipc;
pub mod replay;
pub mod services;
pub mod session;
pub mod telemetry;
pub mod telemetry_server;
pub mod text;
pub mod types;
