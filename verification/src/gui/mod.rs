//! The control centre.
pub mod app;
pub mod desktop;
pub mod labels;
pub mod replies;
pub mod snapshot;
pub mod tray;
pub mod views;
pub mod worker;
