//! Core of a battery and CPU governor control utility: telemetry parsing,
//! the registry of power profiles, and the application state that a
//! terminal front end drives.

pub mod battery;
pub mod display;
pub mod governor;
pub mod profile;
pub mod state;
pub mod text;
pub mod widget;
