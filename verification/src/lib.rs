//! Bridge between a window-manager event feed and a keyboard-remapper
//! command channel.
//!
//! Window focus and visibility events are resolved through a
//! configuration-driven rule table into a target keyboard layer, and a
//! layer-change command is framed for the remapper. Two independently
//! failing connections are kept alive by small reconnect state machines;
//! dispatch is gated by shared health flags rather than queued.

pub mod channel;
pub mod config;
pub mod events;
pub mod jsonio;
pub mod matching;
pub mod protocol;
pub mod sink;
pub mod source;
