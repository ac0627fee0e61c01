//! The embedded controller.
pub mod codes;
pub mod device;
pub mod driver;
pub mod error;
pub mod fan;
pub mod flexicharger;
pub mod io;
pub mod kbd_backlight;
pub mod n161a_charge_hold;
pub mod port;
pub mod power_profile;
