//! squeak: Keychron mouse configuration over raw HID — the protocol codecs,
//! the device command layer and the terminal app's state machine.

pub mod proto;
pub mod text;
pub mod hid;
pub mod worker;
pub mod app;
pub mod update;
pub mod watch;
pub mod identify;
pub mod bridge;
