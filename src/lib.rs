//! Coordination core of a crosshair overlay: the settings store, the
//! configuration dialog's lifecycle, the tray icon's loop, the coordinator
//! that owns the overlay's visibility, and the placement of the crosshair
//! bitmap in the overlay window.
pub mod config;
pub mod image;
pub mod interface;
pub mod settings;
pub mod tray;
