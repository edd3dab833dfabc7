//! Track-change notifications for MPRIS media players.
//!
//! The library decodes `PropertiesChanged` signals of media players into
//! player-state changes, coalesces bursts of them per sender into a single
//! pending notification, renders the notification text from user templates,
//! and builds the outbound `Notify` call. Transport, album-art downloads and
//! command execution are performed by the caller.

mod text;
pub mod dbus;
pub mod mpris;
pub mod formatter;
pub mod configuration;
pub mod notifier;
pub mod art;
pub mod signal_handler;
