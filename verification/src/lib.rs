//! Typed access to GNOME desktop settings, written without any I/O of its own.
//!
//! Every operation is split in two halves around the round trip to a backend:
//! a function that says what to ask of the configuration store or of the
//! message bus, and a function that turns the backend's reply into a typed
//! value or a [`error::SettingsError`]. The caller performs the round trip.

pub mod error;
pub mod text;
pub mod value;
pub mod directory;
pub mod apps;
pub mod battery;
pub mod store;
pub mod bus;
pub mod power;
pub mod screen;
pub mod screenshot;
pub mod nightlight;
pub mod extensions;
pub mod interface;
pub mod peripherals;

pub use crate::directory::{ListExtension, ListExtensionState};
pub use crate::error::SettingsError;
pub use crate::power::PowerProfile;
