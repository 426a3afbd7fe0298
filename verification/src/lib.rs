//! Cross-thread coordination core of a video-editor GUI: the intent queue and
//! startup handshake shared between a host engine thread and the UI thread,
//! the per-paint snapshot lifetime, and the timeline interaction engine
//! (pixel/timeline coordinate mapping, zoom-at-cursor, pan, seek and clip
//! gestures). All positions are fixed-point integers; the native event loop
//! and rendering live outside this crate and talk to it through plain values.

pub mod bridge;
pub mod converter;
pub mod fixed;
pub mod frame;
pub mod gui_actions;
pub mod progress;
pub mod snapshot;
