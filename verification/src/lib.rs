//! Monitors and their fullscreen video modes: a verified ordering of video
//! modes, their textual rendering, and the choice of the monitor whose scale
//! factor applies to a position.
pub mod dpi;
pub mod monitor;
pub mod scale;
pub mod text;
