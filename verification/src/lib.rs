//! A verified model of a media session control surface: a per-page object
//! that mediates between a platform media session host (which shows OS-level
//! media controls) and a single controlled playback instance.
//!
//! The session tracks playback metadata, a playback-state enum, a registry of
//! custom action handlers, and validates candidate position states before
//! forwarding them to the playback instance. Times and rates are carried as
//! fixed-point values in micro-units, so that the ordered validation rules
//! are stated and proved exactly.

pub mod actions;
pub mod host;
pub mod metadata;
pub mod playback;
pub mod position;
pub mod session;
